//! The errors of the library.

use vstd::prelude::*;

verus! {

/// Why a request got no usable answer from the service.
#[derive(Debug, PartialEq)]
pub enum TransportError {
    /// No answer came back: the connection, the name lookup or the
    /// encryption failed. Holds what the transport said of it.
    Failed(String),
    /// An answer came back with a status outside 200 to 299.
    Status(u16),
}

/// Why a text and a value could not be turned into each other.
#[derive(Clone, Copy, Debug, PartialEq, Eq)]
pub enum CodecError {
    /// The text is no JSON document.
    Syntax,
    /// The document does not have the shape of the value that was asked for:
    /// a required member is missing, a member has the wrong type, or a name
    /// is outside its closed set.
    Schema,
    /// The value could not be written as text.
    Encode,
}

/// The three kinds of failure. A call either gives its result or one of
/// these.
#[derive(Debug, PartialEq)]
#[allow(inconsistent_fields)]
pub enum RevoltRsError {
    /// The request failed on its way, or the service answered with a status
    /// that is no success.
    Reqwest { source: TransportError },
    /// A body could not be read or written.
    Serde { source: CodecError },
    /// The token cannot stand in a header.
    Header,
}

impl RevoltRsError {
    /// What the error says of itself, in one line.
    pub open spec fn spec_message(self) -> Seq<char> {
        match self {
            RevoltRsError::Reqwest { .. } => "HTTP request failed"@,
            RevoltRsError::Serde { .. } => "parsing JSON into a struct failed"@,
            RevoltRsError::Header => "got an invalid header value"@,
        }
    }

    /// What the error says of itself, in one line.
    pub fn message(&self) -> (r: String)
        ensures
            r@ == self.spec_message(),
    {
        match self {
            RevoltRsError::Reqwest { .. } => "HTTP request failed".to_owned(),
            RevoltRsError::Serde { .. } => "parsing JSON into a struct failed".to_owned(),
            RevoltRsError::Header => "got an invalid header value".to_owned(),
        }
    }
}

} // verus!
