use vstd::prelude::*;

use crate::error::StreamError;
use crate::reader::{
    array_of, closes_after, element_at, lemma_element_at, next_after, starts_with_elements,
    StreamingArrayReader,
};
use crate::state::{ReaderState, WriterState};
use crate::writer::{closed_array, framed, StreamingArrayWriter};
use serde_json::Value;

verus! {

/// `written` is `transform` applied, element by element, to the first
/// `written.len()` elements of `read`.
pub open spec fn maps_prefix<F: Fn(Value) -> Result<Value, String>>(
    transform: F,
    read: Seq<Value>,
    written: Seq<Value>,
) -> bool {
    &&& written.len() <= read.len()
    &&& forall|i: int|
        0 <= i < written.len() ==> call_ensures(transform, (read[i],), Ok(#[trigger] written[i]))
}

/// `transform` never fails.
pub open spec fn never_fails<F: Fn(Value) -> Result<Value, String>>(transform: F) -> bool {
    forall|v: Value, o: Result<Value, String>| call_ensures(transform, (v,), o) ==> o is Ok
}

/// Elements read from a well-formed array are a prefix of its elements, and
/// the step after them succeeds: another element, or the closing `]`.
pub proof fn lemma_prefix_of_array(input: Seq<u8>, ys: Seq<Value>, vs: Seq<Value>)
    requires
        starts_with_elements(input, ys),
        array_of(input, vs),
    ensures
        ys.len() <= vs.len(),
        ys == vs.subrange(0, ys.len() as int),
        ys.len() < vs.len() ==> {
            &&& next_after(input, ys.len()) == Some(true)
            &&& element_at(input, ys.len()) is Some
        },
        ys.len() == vs.len() ==> {
            &&& next_after(input, ys.len()) == Some(false)
            &&& closes_after(input, ys.len())
        },
{
    if ys.len() > vs.len() {
        lemma_element_at(input, ys, vs.len());
    }
    assert forall|i: int| 0 <= i < ys.len() implies ys[i] == vs.subrange(0, ys.len() as int)[i] by {
        lemma_element_at(input, ys, i as nat);
        lemma_element_at(input, vs, i as nat);
    }
    assert(ys =~= vs.subrange(0, ys.len() as int));
    if ys.len() < vs.len() {
        lemma_element_at(input, vs, ys.len());
    }
}

/// A well-formed array has exactly one list of elements: a reader that reads
/// it to the end hands out exactly those, no more and no fewer.
pub proof fn lemma_array_elements_unique(input: Seq<u8>, vs: Seq<Value>, ws: Seq<Value>)
    requires
        array_of(input, vs),
        array_of(input, ws),
    ensures
        vs == ws,
{
    lemma_prefix_of_array(input, vs, ws);
    lemma_prefix_of_array(input, ws, vs);
    assert(vs =~= ws);
}

/// A completed run of the pipeline with a transform that hands every value
/// back unchanged writes exactly the values it read, in the same order.
pub proof fn lemma_identity_run_copies<F: Fn(Value) -> Result<Value, String>>(
    transform: F,
    read: Seq<Value>,
    written: Seq<Value>,
)
    requires
        forall|v: Value, o: Result<Value, String>|
            call_ensures(transform, (v,), o) ==> o == Ok::<Value, String>(v),
        maps_prefix(transform, read, written),
        written.len() == read.len(),
    ensures
        written == read,
        closed_array(written) == closed_array(read),
{
    assert forall|i: int| 0 <= i < written.len() implies written[i] == read[i] by {
        assert(call_ensures(transform, (read[i],), Ok::<Value, String>(written[i])));
    }
    assert(written =~= read);
}

/// Streams every element of `reader` through `transform` into `writer`, one
/// element at a time, and closes the output array once the input array is over.
///
/// The sink always holds the open array of the transform of a prefix of the
/// elements read. On a well-formed input with a transform that never fails
/// the run succeeds, and the sink holds the complete array of the transformed
/// elements. A failing transform stops the run with the writer left open: the
/// elements before the failing one are written, that one and the later ones
/// are not. A decode failure stops the run the same way.
pub fn run_pipeline<'a, 'b, F: Fn(Value) -> Result<Value, String>>(
    reader: &mut StreamingArrayReader<'a>,
    writer: &mut StreamingArrayWriter<'b>,
    transform: F,
) -> (r: Result<(), StreamError>)
    requires
        old(reader).wf(),
        old(reader).count_matches(),
        old(writer).wf(),
        old(reader).state_spec() == ReaderState::InArray,
        old(writer).state_spec() == WriterState::InArray,
        old(reader).yielded().len() == 0,
        old(writer).written().len() == 0,
        forall|v: Value| call_requires(transform, (v,)),
    ensures
        final(reader).wf(),
        final(reader).count_matches(),
        final(writer).wf(),
        final(reader).input() == old(reader).input(),
        maps_prefix(transform, final(reader).yielded(), final(writer).written()),
        (exists|vs: Seq<Value>| array_of(old(reader).input(), vs)) && never_fails(transform)
            ==> r is Ok,
        r is Ok <==> (final(reader).state_spec() == ReaderState::Exhausted
            && final(writer).state_spec() == WriterState::Finished),
        r is Ok ==> {
            &&& array_of(old(reader).input(), final(reader).yielded())
            &&& final(writer).written().len() == final(reader).yielded().len()
            &&& final(writer).out() == closed_array(final(writer).written())
        },
        r is Err ==> {
            &&& final(writer).state_spec() == WriterState::InArray
            &&& final(writer).out() == framed(final(writer).written())
            &&& (r->Err_0 is TransformError || final(reader).state_spec()
                == ReaderState::Failed)
        },
        r is Err && r->Err_0 is TransformError ==> {
            &&& final(reader).state_spec() == ReaderState::InArray
            &&& final(writer).written().len() + 1 == final(reader).yielded().len()
            &&& call_ensures(
                transform,
                (final(reader).yielded().last(),),
                Err(r->Err_0->TransformError_cause),
            )
        },
        final(reader).state_spec() == ReaderState::Failed ==> {
            &&& r is Err && r->Err_0 is DecodeError
            &&& final(writer).written().len() == final(reader).yielded().len()
        },
{
    loop
        invariant
            reader.wf(),
            reader.count_matches(),
            writer.wf(),
            reader.state_spec() == ReaderState::InArray,
            writer.state_spec() == WriterState::InArray,
            reader.input() == old(reader).input(),
            writer.written().len() == reader.yielded().len(),
            maps_prefix(transform, reader.yielded(), writer.written()),
            forall|v: Value| call_requires(transform, (v,)),
        decreases reader.input().len() - reader.yielded().len(),
    {
        let ghost ys = reader.yielded();
        let element = match reader.next() {
            Ok(Some(v)) => v,
            Ok(None) => {
                let done = writer.finish();
                return done;
            },
            Err(e) => {
                proof {
                    if exists|vs: Seq<Value>| array_of(old(reader).input(), vs) {
                        let vs = choose|vs: Seq<Value>| array_of(old(reader).input(), vs);
                        lemma_prefix_of_array(old(reader).input(), ys, vs);
                    }
                }
                return Err(e);
            },
        };
        match transform(element) {
            Ok(out) => {
                writer.put(&out);
            },
            Err(cause) => {
                return Err(StreamError::TransformError { cause });
            },
        }
    }
}

/// Reads the rest of the array into a vector, in order.
///
/// On a well-formed input it succeeds, the reader is exhausted, and what it
/// handed out is exactly the input's elements. Otherwise it fails with
/// `DecodeError` and the reader is `Failed`.
pub fn read_elements<'a>(reader: &mut StreamingArrayReader<'a>) -> (r: Result<Vec<Value>, StreamError>)
    requires
        old(reader).wf(),
        old(reader).count_matches(),
        old(reader).state_spec() == ReaderState::InArray,
    ensures
        final(reader).wf(),
        final(reader).count_matches(),
        final(reader).input() == old(reader).input(),
        r is Ok <==> exists|vs: Seq<Value>| array_of(old(reader).input(), vs),
        match r {
            Ok(vs) => {
                &&& final(reader).state_spec() == ReaderState::Exhausted
                &&& final(reader).yielded() == old(reader).yielded() + vs@
                &&& array_of(old(reader).input(), final(reader).yielded())
            },
            Err(e) => {
                &&& final(reader).state_spec() == ReaderState::Failed
                &&& e is DecodeError
            },
        },
{
    let mut out: Vec<Value> = Vec::new();
    loop
        invariant
            reader.wf(),
            reader.count_matches(),
            reader.state_spec() == ReaderState::InArray,
            reader.input() == old(reader).input(),
            reader.yielded() == old(reader).yielded() + out@,
        decreases reader.input().len() - reader.yielded().len(),
    {
        let ghost ys = reader.yielded();
        match reader.next() {
            Ok(Some(v)) => {
                out.push(v);
                assert(reader.yielded() =~= old(reader).yielded() + out@);
            },
            Ok(None) => {
                return Ok(out);
            },
            Err(e) => {
                proof {
                    if exists|vs: Seq<Value>| array_of(old(reader).input(), vs) {
                        let vs = choose|vs: Seq<Value>| array_of(old(reader).input(), vs);
                        lemma_prefix_of_array(old(reader).input(), ys, vs);
                    }
                }
                return Err(e);
            },
        }
    }
}

/// Writes every value of `values` as the next elements of the array, in
/// order, then closes the array. It always succeeds: the writer is finished
/// and the sink holds the complete array of what was written before and then
/// `values`.
pub fn write_elements<'b>(writer: &mut StreamingArrayWriter<'b>, values: &Vec<Value>) -> (r: Result<(), StreamError>)
    requires
        old(writer).wf(),
        old(writer).state_spec() == WriterState::InArray,
    ensures
        final(writer).wf(),
        r is Ok,
        final(writer).state_spec() == WriterState::Finished,
        final(writer).written() == old(writer).written() + values@,
        final(writer).out() == closed_array(final(writer).written()),
{
    let mut i: usize = 0;
    while i < values.len()
        invariant
            writer.wf(),
            writer.state_spec() == WriterState::InArray,
            0 <= i <= values@.len(),
            writer.written() == old(writer).written() + values@.subrange(0, i as int),
        decreases values@.len() - i,
    {
        let _ = writer.put(&values[i]);
        i = i + 1;
        assert(writer.written() =~= old(writer).written() + values@.subrange(0, i as int));
    }
    assert(values@.subrange(0, i as int) =~= values@);
    writer.finish()
}

} // verus!
