use vstd::prelude::*;

verus! {

/// Failures of the streaming reader, the streaming writer and the pipeline.
/// Every one of them ends the current run.
#[derive(Debug)]
pub enum StreamError {
    /// The document does not start with an array.
    MalformedDocument { cause: String },
    /// The element at index `position` of the array is not valid JSON.
    DecodeError { position: u64, cause: String },
    /// A value could not be serialized.
    EncodeError { cause: String },
    /// An operation was called outside its legal state.
    InvalidState,
    /// The caller-supplied transform failed.
    TransformError { cause: String },
    /// The underlying byte stream failed.
    Io { cause: String },
}

/// What went wrong below the library, sorted into faults of the JSON text or
/// value and faults of the byte stream.
#[derive(Debug)]
pub enum Fault {
    Data { cause: String },
    Io { cause: String },
}

} // verus!
