use vstd::prelude::*;

use crate::error::{Fault, StreamError};
use crate::state::{writer_accepts, WriterState};
use serde_json::Value;
use struson::serde::SerializerError;
use struson::writer::{JsonStreamWriter, JsonWriter};

verus! {

/// struson's token writer into the output bytes. Verus refuses a declaration of
/// `JsonStreamWriter`, whose type parameter is bound by `std::io::Write`, so it
/// is held here, out of Verus's sight; only the wrappers below touch it.
#[verifier::external_body]
pub struct TokenWriter<'a> {
    inner: JsonStreamWriter<&'a mut Vec<u8>>,
}

/// The bytes `serialize_value` writes for `v`, without any separator.
pub uninterp spec fn encoding_of(v: Value) -> Seq<u8>;

/// What goes before the element at index `n`: nothing before the first, `,`
/// before every other.
pub open spec fn separator(n: nat) -> Seq<u8> {
    if n == 0 { Seq::empty() } else { seq![0x2Cu8] }
}

/// An open array holding `vs`: `[`, then the elements separated by `,`.
pub open spec fn framed(vs: Seq<Value>) -> Seq<u8>
    decreases vs.len(),
{
    if vs.len() == 0 {
        seq![0x5Bu8]
    } else {
        framed(vs.drop_last()) + separator((vs.len() - 1) as nat) + encoding_of(vs.last())
    }
}

/// A complete array holding `vs`: the open array followed by `]`.
pub open spec fn closed_array(vs: Seq<Value>) -> Seq<u8> {
    framed(vs) + seq![0x5Du8]
}

/// Pushes values one at a time into a byte sink as the elements of one JSON
/// array, placing the brackets and separators.
pub struct StreamingArrayWriter<'a> {
    json: TokenWriter<'a>,
    state: WriterState,
    written: Ghost<Seq<Value>>,
    out: Ghost<Seq<u8>>,
}

impl<'a> StreamingArrayWriter<'a> {
    /// Current state of the writer.
    pub closed spec fn state_spec(&self) -> WriterState {
        self.state
    }

    /// The values written so far as elements, in order.
    pub closed spec fn written(&self) -> Seq<Value> {
        self.written@
    }

    /// The bytes appended to the sink since the writer was made.
    pub closed spec fn out(&self) -> Seq<u8> {
        self.out@
    }

    pub open spec fn wf(&self) -> bool {
        &&& self.state_spec() != WriterState::NotStarted
        &&& self.state_spec() == WriterState::InArray ==> self.out() == framed(self.written())
        &&& self.state_spec() == WriterState::Finished ==> self.out() == closed_array(
            self.written(),
        )
    }

    /// Starts a writer on `sink` and emits the array's opening `[`.
    pub fn new(sink: &'a mut Vec<u8>) -> (r: Result<Self, StreamError>)
        ensures
            match r {
                Ok(w) => {
                    &&& w.wf()
                    &&& w.state_spec() == WriterState::InArray
                    &&& w.written() == Seq::<Value>::empty()
                    &&& w.out() == seq![0x5Bu8]
                },
                Err(_) => false,
            },
    {
        let mut w = StreamingArrayWriter {
            json: Self::token_writer(sink),
            state: WriterState::NotStarted,
            written: Ghost(Seq::empty()),
            out: Ghost(Seq::empty()),
        };
        match w.token_begin_array() {
            Ok(()) => {
                w.state = WriterState::InArray;
                Ok(w)
            },
            Err(f) => Err(StreamError::Io { cause: fault_cause(f) }),
        }
    }

    /// Current state of the writer.
    pub fn state(&self) -> (s: WriterState)
        ensures
            s == self.state_spec(),
    {
        self.state
    }

    /// Writes `value` as the next element of the array, after a separator
    /// unless it is the first.
    ///
    /// In the array it always succeeds. Outside it, it is an `InvalidState`
    /// error that writes nothing and leaves the writer unchanged.
    pub fn put(&mut self, value: &Value) -> (r: Result<(), StreamError>)
        requires
            old(self).wf(),
        ensures
            final(self).wf(),
            old(self).state_spec() != WriterState::InArray ==> {
                &&& r is Err && r->Err_0 is InvalidState
                &&& *final(self) == *old(self)
            },
            old(self).state_spec() == WriterState::InArray ==> {
                &&& r is Ok
                &&& final(self).state_spec() == WriterState::InArray
                &&& final(self).written() == old(self).written().push(*value)
                &&& final(self).out() == old(self).out() + separator(old(self).written().len())
                    + encoding_of(*value)
            },
    {
        if !writer_accepts(self.state) {
            return Err(StreamError::InvalidState);
        }
        match self.token_value(value) {
            Ok(()) => {
                self.written = Ghost(self.written@.push(*value));
                assert(self.written@.drop_last() =~= old(self).written@);
                Ok(())
            },
            Err(Fault::Data { cause }) => {
                self.state = WriterState::Failed;
                Err(StreamError::EncodeError { cause })
            },
            Err(Fault::Io { cause }) => {
                self.state = WriterState::Failed;
                Err(StreamError::Io { cause })
            },
        }
    }

    /// Emits the array's closing `]` and makes the writer `Finished`.
    ///
    /// In the array it always succeeds. Outside it (a second call included)
    /// it is an `InvalidState` error that writes nothing and leaves the writer
    /// unchanged.
    pub fn finish(&mut self) -> (r: Result<(), StreamError>)
        requires
            old(self).wf(),
        ensures
            final(self).wf(),
            final(self).written() == old(self).written(),
            old(self).state_spec() != WriterState::InArray ==> {
                &&& r is Err && r->Err_0 is InvalidState
                &&& *final(self) == *old(self)
            },
            old(self).state_spec() == WriterState::InArray ==> {
                &&& r is Ok
                &&& final(self).state_spec() == WriterState::Finished
                &&& final(self).out() == old(self).out() + seq![0x5Du8]
            },
    {
        if !writer_accepts(self.state) {
            return Err(StreamError::InvalidState);
        }
        match self.token_end_array() {
            Ok(()) => {
                self.state = WriterState::Finished;
                Ok(())
            },
            Err(f) => {
                self.state = WriterState::Failed;
                Err(StreamError::Io { cause: fault_cause(f) })
            },
        }
    }

    /// Relies on `JsonStreamWriter::new`: wraps the sink without writing to it.
    #[verifier::external_body]
    fn token_writer(sink: &'a mut Vec<u8>) -> (w: TokenWriter<'a>) {
        TokenWriter { inner: JsonStreamWriter::new(sink) }
    }

    /// Relies on `JsonWriter::begin_array`: writes `[`. On a fresh writer,
    /// which has written no top-level value, it does not panic, and writing to
    /// a `Vec` does not fail.
    #[verifier::external_body]
    fn token_begin_array(&mut self) -> (r: Result<(), Fault>)
        requires
            old(self).state == WriterState::NotStarted,
        ensures
            r is Ok,
            final(self).out@ == old(self).out@ + seq![0x5Bu8],
            final(self).state == old(self).state,
            final(self).written == old(self).written,
    {
        self.json.inner.begin_array().map_err(|e| Fault::Io { cause: e.to_string() })
    }

    /// Relies on `JsonWriter::serialize_value`: writes `value` as the next
    /// array element, preceded by `,` unless it is the first. Inside the
    /// top-level array it does not panic. A `serde_json::Value` holds only
    /// finite numbers and string keys, and writing to a `Vec` does not fail,
    /// so it succeeds.
    #[verifier::external_body]
    fn token_value(&mut self, value: &Value) -> (r: Result<(), Fault>)
        requires
            old(self).state == WriterState::InArray,
        ensures
            r is Ok,
            final(self).out@ == old(self).out@ + separator(old(self).written@.len())
                + encoding_of(*value),
            final(self).state == old(self).state,
            final(self).written == old(self).written,
    {
        self.json.inner.serialize_value(value).map_err(|e| match e {
            SerializerError::IoError(error) => Fault::Io { cause: error.to_string() },
            other => Fault::Data { cause: other.to_string() },
        })
    }

    /// Relies on `JsonWriter::end_array`: writes `]`. Inside the top-level
    /// array it does not panic, and writing to a `Vec` does not fail.
    #[verifier::external_body]
    fn token_end_array(&mut self) -> (r: Result<(), Fault>)
        requires
            old(self).state == WriterState::InArray,
        ensures
            r is Ok,
            final(self).out@ == old(self).out@ + seq![0x5Du8],
            final(self).state == old(self).state,
            final(self).written == old(self).written,
    {
        self.json.inner.end_array().map_err(|e| Fault::Io { cause: e.to_string() })
    }
}

/// The message carried by a fault, whatever its kind.
fn fault_cause(f: Fault) -> (c: String)
    ensures
        match f {
            Fault::Data { cause } => c == cause,
            Fault::Io { cause } => c == cause,
        },
{
    match f {
        Fault::Data { cause } => cause,
        Fault::Io { cause } => cause,
    }
}

} // verus!
