use vstd::prelude::*;

verus! {

/// The cause of a failed read or write of a location.
#[derive(Debug, Clone, Copy, PartialEq, Eq, Structural)]
pub enum IoKind {
    /// The location does not exist.
    NotFound,
    /// The location may not be opened as asked.
    PermissionDenied,
    /// The content read is not valid text.
    InvalidData,
    /// The content ended before it was complete.
    UnexpectedEof,
    /// Any other failure.
    Other,
}

/// What kind of failure the JSON codec reported.
#[derive(Debug, Clone, Copy, PartialEq, Eq, Structural)]
pub enum JsonCategory {
    /// A failure to read or write bytes on a stream.
    Io,
    /// Input that is not syntactically valid JSON.
    Syntax,
    /// Input that is valid JSON but does not have the expected shape.
    Data,
    /// Input that ended prematurely.
    Eof,
}

/// Why persisting or loading a value failed.
#[derive(Debug, Clone, Copy, PartialEq, Eq, Structural)]
pub enum PersistError {
    /// The location could not be opened, read or written.
    Io(IoKind),
    /// The value could not be encoded.
    Encode(JsonCategory),
    /// The content of the location could not be decoded.
    Decode(JsonCategory),
}

} // verus!
