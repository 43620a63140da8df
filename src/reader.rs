use vstd::prelude::*;

use crate::error::StreamError;
use crate::state::{pull_decision, PullDecision, ReaderState};
use serde_json::Value;
use struson::reader::{JsonReader, JsonStreamReader};

verus! {

/// struson's token reader over the input bytes. Verus refuses a declaration of
/// `JsonStreamReader`, whose type parameter is bound by `std::io::Read`, so it is
/// held here, out of Verus's sight; only the wrappers below touch it.
#[verifier::external_body]
pub struct TokenReader<'a> {
    inner: JsonStreamReader<&'a [u8]>,
}

#[verifier::external_type_specification]
#[verifier::external_body]
pub struct ExValue(Value);

/// What `has_next` answers on `input` once the opening `[` and `k` elements
/// have been consumed: whether another element follows, or `None` where the
/// text there is not valid JSON.
pub uninterp spec fn next_after(input: Seq<u8>, k: nat) -> Option<bool>;

/// What `deserialize_next` decodes on `input` as the element after the
/// first `k`: the value, or `None` where that element is not valid JSON.
pub uninterp spec fn element_at(input: Seq<u8>, k: nat) -> Option<Value>;

/// Every element takes at least one byte: where another element follows the
/// first `k`, the input is longer than `k` bytes.
pub open spec fn elements_fit(input: Seq<u8>) -> bool {
    forall|k: nat| next_after(input, k) == Some(true) ==> k < input.len()
}

/// Whether `end_array` accepts the closing `]` of `input` after `k` elements.
pub uninterp spec fn closes_after(input: Seq<u8>, k: nat) -> bool;

/// The four bytes JSON allows between tokens.
pub open spec fn is_json_space(b: u8) -> bool {
    b == 0x20 || b == 0x09 || b == 0x0A || b == 0x0D
}

/// The first byte of `input` that is not JSON whitespace is `[`.
pub open spec fn opens_array(input: Seq<u8>) -> bool {
    exists|i: int|
        0 <= i < input.len() && input[i] == 0x5B && forall|j: int|
            0 <= j < i ==> is_json_space(#[trigger] input[j])
}

/// The array in `input` starts with the well-formed elements `vs`.
pub open spec fn starts_with_elements(input: Seq<u8>, vs: Seq<Value>) -> bool
    decreases vs.len(),
{
    if vs.len() == 0 {
        true
    } else {
        let k = (vs.len() - 1) as nat;
        &&& starts_with_elements(input, vs.drop_last())
        &&& next_after(input, k) == Some(true)
        &&& element_at(input, k) == Some(vs.last())
    }
}

/// Each element of a well-formed start of the array is the element decoded
/// at its index.
pub proof fn lemma_element_at(input: Seq<u8>, vs: Seq<Value>, i: nat)
    requires
        starts_with_elements(input, vs),
        i < vs.len(),
    ensures
        next_after(input, i) == Some(true),
        element_at(input, i) == Some(vs[i as int]),
    decreases vs.len(),
{
    if i < vs.len() - 1 {
        lemma_element_at(input, vs.drop_last(), i);
    }
}

/// `input` is a well-formed JSON array whose elements are exactly `vs`.
pub open spec fn array_of(input: Seq<u8>, vs: Seq<Value>) -> bool {
    &&& opens_array(input)
    &&& starts_with_elements(input, vs)
    &&& next_after(input, vs.len()) == Some(false)
    &&& closes_after(input, vs.len())
}

/// One more well-formed element extends the elements read so far.
proof fn lemma_extend_elements(input: Seq<u8>, ys: Seq<Value>, v: Value)
    requires
        starts_with_elements(input, ys),
        next_after(input, ys.len()) == Some(true),
        element_at(input, ys.len()) == Some(v),
    ensures
        starts_with_elements(input, ys.push(v)),
{
    assert(ys.push(v).drop_last() =~= ys);
}

/// Pulls the elements of a top-level JSON array one at a time from its bytes,
/// holding at most one element at a time.
pub struct StreamingArrayReader<'a> {
    json: TokenReader<'a>,
    state: ReaderState,
    count: usize,
    input: Ghost<Seq<u8>>,
    yielded: Ghost<Seq<Value>>,
}

impl<'a> StreamingArrayReader<'a> {
    /// Current state of the reader.
    pub closed spec fn state_spec(&self) -> ReaderState {
        self.state
    }

    /// The elements handed out so far, in order.
    pub closed spec fn yielded(&self) -> Seq<Value> {
        self.yielded@
    }

    /// The bytes of the whole input.
    pub closed spec fn input(&self) -> Seq<u8> {
        self.input@
    }

    pub open spec fn wf(&self) -> bool {
        &&& self.state_spec() != ReaderState::NotStarted
        &&& self.yielded().len() <= self.input().len()
        &&& self.input().len() <= usize::MAX
        &&& opens_array(self.input())
        &&& starts_with_elements(self.input(), self.yielded())
        &&& self.state_spec() == ReaderState::Exhausted ==> array_of(
            self.input(),
            self.yielded(),
        )
    }

    pub closed spec fn count_matches(&self) -> bool {
        self.count == self.yielded@.len()
    }

    /// Opens a reader over `input` and consumes the array's opening `[`.
    /// It succeeds exactly when the first byte that is not whitespace is `[`,
    /// and fails with `MalformedDocument` otherwise, before any element is read.
    pub fn new(input: &'a [u8]) -> (r: Result<Self, StreamError>)
        ensures
            r is Ok <==> opens_array(input@),
            match r {
                Ok(rd) => {
                    &&& rd.wf()
                    &&& rd.count_matches()
                    &&& rd.state_spec() == ReaderState::InArray
                    &&& rd.yielded() == Seq::<Value>::empty()
                    &&& rd.input() == input@
                },
                Err(e) => e is MalformedDocument,
            },
    {
        let mut rd = StreamingArrayReader {
            json: Self::token_reader(input),
            state: ReaderState::NotStarted,
            count: 0,
            input: Ghost(input@),
            yielded: Ghost(Seq::empty()),
        };
        let _len = input.len();
        match rd.token_begin_array() {
            Ok(()) => {
                rd.state = ReaderState::InArray;
                Ok(rd)
            },
            Err(cause) => Err(StreamError::MalformedDocument { cause }),
        }
    }

    /// Current state of the reader.
    pub fn state(&self) -> (s: ReaderState)
        ensures
            s == self.state_spec(),
    {
        self.state
    }

    /// Number of elements handed out so far.
    pub fn count(&self) -> (n: usize)
        requires
            self.count_matches(),
        ensures
            n == self.yielded().len(),
    {
        self.count
    }

    /// Pulls the next element of the array.
    ///
    /// In the array it returns the next element of the input, or, at the
    /// closing `]`, consumes it and returns `None`; where the input is not
    /// well-formed there it fails with `DecodeError` at the byte offset struson
    /// reached, and the reader is `Failed`. Once exhausted it returns `None` on
    /// every call; once failed every call is `InvalidState`. Neither changes it.
    pub fn next(&mut self) -> (r: Result<Option<Value>, StreamError>)
        requires
            old(self).wf(),
            old(self).count_matches(),
        ensures
            final(self).wf(),
            final(self).count_matches(),
            final(self).input() == old(self).input(),
            old(self).state_spec() == ReaderState::Failed ==> {
                &&& r is Err && r->Err_0 is InvalidState
                &&& *final(self) == *old(self)
            },
            old(self).state_spec() == ReaderState::Exhausted ==> {
                &&& r is Ok && r->Ok_0 is None
                &&& *final(self) == *old(self)
            },
            old(self).state_spec() == ReaderState::InArray ==> {
                let inp = old(self).input();
                let k = old(self).yielded().len();
                match r {
                    Ok(Some(v)) => {
                        &&& next_after(inp, k) == Some(true)
                        &&& element_at(inp, k) == Some(v)
                        &&& final(self).state_spec() == ReaderState::InArray
                        &&& final(self).yielded() == old(self).yielded().push(v)
                    },
                    Ok(None) => {
                        &&& next_after(inp, k) == Some(false)
                        &&& closes_after(inp, k)
                        &&& final(self).state_spec() == ReaderState::Exhausted
                        &&& final(self).yielded() == old(self).yielded()
                    },
                    Err(e) => {
                        &&& e is DecodeError
                        &&& !(next_after(inp, k) == Some(true) && element_at(inp, k) is Some)
                        &&& !(next_after(inp, k) == Some(false) && closes_after(inp, k))
                        &&& final(self).state_spec() == ReaderState::Failed
                        &&& final(self).yielded() == old(self).yielded()
                    },
                }
            },
    {
        match pull_decision(self.state) {
            PullDecision::Reject => Err(StreamError::InvalidState),
            PullDecision::End => Ok(None),
            PullDecision::Advance => {
                match self.token_has_next() {
                    Ok(true) => match self.token_next_value() {
                        Ok(v) => {
                            self.yielded = Ghost(self.yielded@.push(v));
                            self.count = self.count + 1;
                            proof {
                                lemma_extend_elements(self.input@, old(self).yielded@, v);
                            }
                            Ok(Some(v))
                        },
                        Err(cause) => self.fail(cause),
                    },
                    Ok(false) => match self.token_end_array() {
                        Ok(()) => {
                            self.state = ReaderState::Exhausted;
                            Ok(None)
                        },
                        Err(cause) => self.fail(cause),
                    },
                    Err(cause) => self.fail(cause),
                }
            },
        }
    }

    /// Marks the reader `Failed` and reports where struson stopped.
    fn fail(&mut self, cause: String) -> (r: Result<Option<Value>, StreamError>)
        requires
            old(self).state == ReaderState::InArray,
        ensures
            r is Err && r->Err_0 is DecodeError,
            final(self).state == ReaderState::Failed,
            final(self).count == old(self).count,
            final(self).input == old(self).input,
            final(self).yielded == old(self).yielded,
    {
        let position = self.token_offset();
        self.state = ReaderState::Failed;
        Err(StreamError::DecodeError { position, cause })
    }

    /// Relies on `JsonStreamReader::new`: wraps the bytes without reading them.
    #[verifier::external_body]
    fn token_reader(input: &'a [u8]) -> (r: TokenReader<'a>) {
        TokenReader { inner: JsonStreamReader::new(input) }
    }

    /// Relies on `JsonReader::begin_array`: skips whitespace and consumes `[`,
    /// and fails on any other first byte. On a fresh reader, which has consumed
    /// no top-level value, it does not panic.
    #[verifier::external_body]
    fn token_begin_array(&mut self) -> (r: Result<(), String>)
        requires
            old(self).state == ReaderState::NotStarted,
        ensures
            r is Ok <==> opens_array(final(self).input@),
            final(self).state == old(self).state,
            final(self).count == old(self).count,
            final(self).input == old(self).input,
            final(self).yielded == old(self).yielded,
    {
        self.json.inner.begin_array().map_err(|e| e.to_string())
    }

    /// Relies on `JsonReader::has_next`: after `count` elements, tells whether
    /// another precedes the closing `]`. Inside the top-level array it does not
    /// panic.
    #[verifier::external_body]
    fn token_has_next(&mut self) -> (r: Result<bool, String>)
        requires
            old(self).state == ReaderState::InArray,
        ensures
            match r {
                Ok(b) => next_after(final(self).input@, final(self).count as nat) == Some(b),
                Err(_) => next_after(final(self).input@, final(self).count as nat) is None,
            },
            r is Ok ==> elements_fit(final(self).input@),
            final(self).state == old(self).state,
            final(self).count == old(self).count,
            final(self).input == old(self).input,
            final(self).yielded == old(self).yielded,
    {
        self.json.inner.has_next().map_err(|e| e.to_string())
    }

    /// Relies on `JsonReader::deserialize_next`: decodes the element after the
    /// first `count`, nested arrays and objects included, into a
    /// `serde_json::Value`. Inside the top-level array it does not panic.
    #[verifier::external_body]
    fn token_next_value(&mut self) -> (r: Result<Value, String>)
        requires
            old(self).state == ReaderState::InArray,
        ensures
            match r {
                Ok(v) => element_at(final(self).input@, final(self).count as nat) == Some(v),
                Err(_) => element_at(final(self).input@, final(self).count as nat) is None,
            },
            final(self).state == old(self).state,
            final(self).count == old(self).count,
            final(self).input == old(self).input,
            final(self).yielded == old(self).yielded,
    {
        self.json.inner.deserialize_next::<Value>().map_err(|e| e.to_string())
    }

    /// Relies on `JsonReader::end_array`: consumes the closing `]` after
    /// `count` elements. Inside the top-level array it does not panic.
    #[verifier::external_body]
    fn token_end_array(&mut self) -> (r: Result<(), String>)
        requires
            old(self).state == ReaderState::InArray,
        ensures
            r is Ok <==> closes_after(final(self).input@, final(self).count as nat),
            final(self).state == old(self).state,
            final(self).count == old(self).count,
            final(self).input == old(self).input,
            final(self).yielded == old(self).yielded,
    {
        self.json.inner.end_array().map_err(|e| e.to_string())
    }

    /// Relies on `JsonReader::current_position`: the byte offset reached in
    /// the input, which struson always reports for a stream reader.
    #[verifier::external_body]
    fn token_offset(&self) -> (p: u64)
        ensures
            p <= self.input@.len(),
    {
        self.json.inner.current_position(false).data_pos.unwrap_or(0)
    }
}

} // verus!
