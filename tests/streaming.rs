use json_stream::error::StreamError;
use json_stream::pipeline::{read_elements, run_pipeline, write_elements};
use json_stream::reader::StreamingArrayReader;
use json_stream::state::{ReaderState, WriterState};
use json_stream::writer::StreamingArrayWriter;
use serde_json::Value;
use std::cell::Cell;

fn parse(text: &str) -> Value {
    serde_json::from_str(text).unwrap()
}

fn text(bytes: &[u8]) -> String {
    String::from_utf8(bytes.to_vec()).unwrap()
}

#[test]
fn reader_yields_elements_in_order_then_end_repeatedly() {
    let input = br#"[1, {"a": [2, 3]}, "x", null, true]"#;
    let mut reader = StreamingArrayReader::new(input).unwrap();
    assert_eq!(reader.state(), ReaderState::InArray);
    let expected = vec![
        parse("1"),
        parse(r#"{"a": [2, 3]}"#),
        parse(r#""x""#),
        Value::Null,
        Value::Bool(true),
    ];
    for e in &expected {
        assert_eq!(reader.next().unwrap(), Some(e.clone()));
    }
    assert_eq!(reader.count(), 5);
    assert_eq!(reader.next().unwrap(), None);
    assert_eq!(reader.state(), ReaderState::Exhausted);
    assert_eq!(reader.next().unwrap(), None);
    assert_eq!(reader.next().unwrap(), None);
    assert_eq!(reader.count(), 5);
}

#[test]
fn reader_on_empty_array_ends_at_once() {
    let mut reader = StreamingArrayReader::new(b" [ ] ").unwrap();
    assert_eq!(reader.next().unwrap(), None);
    assert_eq!(reader.count(), 0);
    assert_eq!(reader.state(), ReaderState::Exhausted);
}

#[test]
fn reader_rejects_object_root() {
    let r = StreamingArrayReader::new(br#"{"a": [1]}"#);
    assert!(matches!(r, Err(StreamError::MalformedDocument { .. })));
}

#[test]
fn reader_rejects_scalar_and_empty_document() {
    assert!(matches!(StreamingArrayReader::new(b"42"), Err(StreamError::MalformedDocument { .. })));
    assert!(matches!(StreamingArrayReader::new(b""), Err(StreamError::MalformedDocument { .. })));
}

#[test]
fn reader_decode_error_reports_position_and_fails() {
    let mut reader = StreamingArrayReader::new(b"[10, 20, {\"a\" 1}, 40]").unwrap();
    assert_eq!(reader.next().unwrap(), Some(parse("10")));
    assert_eq!(reader.next().unwrap(), Some(parse("20")));
    match reader.next() {
        Err(StreamError::DecodeError { position, .. }) => assert!(position >= 9 && position <= 20),
        other => panic!("expected a decode error, got {:?}", other),
    }
    assert_eq!(reader.state(), ReaderState::Failed);
    assert!(matches!(reader.next(), Err(StreamError::InvalidState)));
    assert!(matches!(reader.next(), Err(StreamError::InvalidState)));
}

#[test]
fn reader_unterminated_array_is_a_decode_error() {
    let mut reader = StreamingArrayReader::new(b"[1, 2").unwrap();
    assert_eq!(reader.next().unwrap(), Some(parse("1")));
    assert_eq!(reader.next().unwrap(), Some(parse("2")));
    assert!(reader.next().is_err());
    assert_eq!(reader.state(), ReaderState::Failed);
}

#[test]
fn writer_frames_elements_with_separators() {
    let mut out: Vec<u8> = Vec::new();
    {
        let mut writer = StreamingArrayWriter::new(&mut out).unwrap();
        assert_eq!(writer.state(), WriterState::InArray);
        writer.put(&parse("1")).unwrap();
        writer.put(&parse(r#""a""#)).unwrap();
        writer.put(&parse(r#"{"k": [true, null]}"#)).unwrap();
        writer.finish().unwrap();
        assert_eq!(writer.state(), WriterState::Finished);
    }
    assert_eq!(text(&out), r#"[1,"a",{"k":[true,null]}]"#);
}

#[test]
fn writer_with_no_elements_writes_empty_array() {
    let mut out: Vec<u8> = Vec::new();
    {
        let mut writer = StreamingArrayWriter::new(&mut out).unwrap();
        writer.finish().unwrap();
    }
    assert_eq!(text(&out), "[]");
}

#[test]
fn writer_finish_twice_is_invalid_state_and_writes_nothing() {
    let mut out: Vec<u8> = Vec::new();
    {
        let mut writer = StreamingArrayWriter::new(&mut out).unwrap();
        writer.put(&parse("7")).unwrap();
        writer.finish().unwrap();
        assert!(matches!(writer.finish(), Err(StreamError::InvalidState)));
        assert_eq!(writer.state(), WriterState::Finished);
    }
    assert_eq!(text(&out), "[7]");
}

#[test]
fn writer_put_after_finish_is_invalid_state_and_writes_nothing() {
    let mut out: Vec<u8> = Vec::new();
    {
        let mut writer = StreamingArrayWriter::new(&mut out).unwrap();
        writer.finish().unwrap();
        assert!(matches!(writer.put(&parse("1")), Err(StreamError::InvalidState)));
        assert_eq!(writer.state(), WriterState::Finished);
    }
    assert_eq!(text(&out), "[]");
}

#[test]
fn written_array_reads_back_as_the_same_values() {
    let values = vec![
        parse("0"),
        parse("-12"),
        parse("9007199254740993"),
        parse(r#""quote \" and \\ backslash""#),
        parse(r#"{"x": {"y": [1, [2, []]]}, "z": {}}"#),
        parse("[]"),
    ];
    let mut out: Vec<u8> = Vec::new();
    {
        let mut writer = StreamingArrayWriter::new(&mut out).unwrap();
        write_elements(&mut writer, &values).unwrap();
        assert_eq!(writer.state(), WriterState::Finished);
    }
    let parsed: Value = serde_json::from_slice(&out).unwrap();
    assert_eq!(parsed, Value::Array(values.clone()));
    let mut reader = StreamingArrayReader::new(&out).unwrap();
    let back = read_elements(&mut reader).unwrap();
    assert_eq!(back, values);
    assert_eq!(reader.state(), ReaderState::Exhausted);
}

#[test]
fn read_elements_stops_on_decode_error() {
    let mut reader = StreamingArrayReader::new(b"[1, tru]").unwrap();
    match read_elements(&mut reader) {
        Err(StreamError::DecodeError { position, .. }) => assert!(position >= 4),
        other => panic!("expected a decode error, got {:?}", other),
    }
    assert_eq!(reader.state(), ReaderState::Failed);
}

#[test]
fn pipeline_identity_copies_input_modulo_whitespace() {
    let input = br#"[ 1, [2, 3],
        {"a": null, "b": "s"}, false ]"#;
    let mut out: Vec<u8> = Vec::new();
    {
        let mut reader = StreamingArrayReader::new(input).unwrap();
        let mut writer = StreamingArrayWriter::new(&mut out).unwrap();
        run_pipeline(&mut reader, &mut writer, |v: Value| -> Result<Value, String> { Ok(v) })
            .unwrap();
        assert_eq!(reader.state(), ReaderState::Exhausted);
        assert_eq!(writer.state(), WriterState::Finished);
    }
    assert_eq!(text(&out), r#"[1,[2,3],{"a":null,"b":"s"},false]"#);
}

#[test]
fn pipeline_on_empty_array_calls_no_transform() {
    let calls = Cell::new(0u32);
    let mut out: Vec<u8> = Vec::new();
    {
        let mut reader = StreamingArrayReader::new(b"[]").unwrap();
        let mut writer = StreamingArrayWriter::new(&mut out).unwrap();
        run_pipeline(&mut reader, &mut writer, |v: Value| -> Result<Value, String> {
            calls.set(calls.get() + 1);
            Ok(v)
        })
        .unwrap();
    }
    assert_eq!(calls.get(), 0);
    assert_eq!(text(&out), "[]");
}

#[test]
fn pipeline_applies_transform_to_each_element() {
    let input = br#"[{"id": 1}, {"id": 2, "lexiconName": "skbl"}]"#;
    let mut out: Vec<u8> = Vec::new();
    {
        let mut reader = StreamingArrayReader::new(input).unwrap();
        let mut writer = StreamingArrayWriter::new(&mut out).unwrap();
        run_pipeline(&mut reader, &mut writer, |mut v: Value| -> Result<Value, String> {
            v["lexiconName"] = Value::from("skbl2");
            v["lexiconOrder"] = Value::from(48);
            Ok(v)
        })
        .unwrap();
    }
    let parsed: Value = serde_json::from_slice(&out).unwrap();
    assert_eq!(
        parsed,
        parse(
            r#"[{"id": 1, "lexiconName": "skbl2", "lexiconOrder": 48},
                {"id": 2, "lexiconName": "skbl2", "lexiconOrder": 48}]"#
        )
    );
}

#[test]
fn pipeline_transform_failure_on_third_leaves_two_elements_unfinished() {
    let calls = Cell::new(0u32);
    let mut out: Vec<u8> = Vec::new();
    let result;
    {
        let mut reader = StreamingArrayReader::new(b"[1, 2, 3, 4, 5]").unwrap();
        let mut writer = StreamingArrayWriter::new(&mut out).unwrap();
        result = run_pipeline(&mut reader, &mut writer, |v: Value| -> Result<Value, String> {
            calls.set(calls.get() + 1);
            if calls.get() == 3 {
                Err(String::from("third element refused"))
            } else {
                Ok(v)
            }
        });
        assert_eq!(writer.state(), WriterState::InArray);
        assert_eq!(reader.count(), 3);
    }
    match result {
        Err(StreamError::TransformError { cause }) => assert_eq!(cause, "third element refused"),
        other => panic!("expected a transform error, got {:?}", other),
    }
    assert_eq!(calls.get(), 3);
    assert_eq!(text(&out), "[1,2");
}

#[test]
fn pipeline_decode_failure_leaves_output_unfinished() {
    let mut out: Vec<u8> = Vec::new();
    let result;
    {
        let mut reader = StreamingArrayReader::new(b"[\"a\", \"b\", nul]").unwrap();
        let mut writer = StreamingArrayWriter::new(&mut out).unwrap();
        result = run_pipeline(&mut reader, &mut writer, |v: Value| -> Result<Value, String> { Ok(v) });
        assert_eq!(reader.state(), ReaderState::Failed);
        assert_eq!(writer.state(), WriterState::InArray);
    }
    match result {
        Err(StreamError::DecodeError { position, .. }) => assert!(position >= 11),
        other => panic!("expected a decode error, got {:?}", other),
    }
    assert_eq!(text(&out), r#"["a","b""#);
}

#[test]
fn pipeline_identity_keeps_object_key_order() {
    let input = br#"[{"zeta": 1, "alpha": 2, "mid": {"y": 0, "b": 1}}]"#;
    let mut out: Vec<u8> = Vec::new();
    {
        let mut reader = StreamingArrayReader::new(input).unwrap();
        let mut writer = StreamingArrayWriter::new(&mut out).unwrap();
        run_pipeline(&mut reader, &mut writer, |v: Value| -> Result<Value, String> { Ok(v) })
            .unwrap();
    }
    assert_eq!(text(&out), r#"[{"zeta":1,"alpha":2,"mid":{"y":0,"b":1}}]"#);
}

#[test]
fn reader_accepts_leading_whitespace_before_bracket() {
    let mut reader = StreamingArrayReader::new(b" \t\r\n[\"a\"]").unwrap();
    assert_eq!(reader.next().unwrap(), Some(parse(r#""a""#)));
    assert_eq!(reader.next().unwrap(), None);
}
