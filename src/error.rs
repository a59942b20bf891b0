//! Failures of the resolution and listing pipeline.

use vstd::prelude::*;

verus! {

/// The broad class of a failure, which decides the hint shown to the user.
#[derive(Clone, Copy, Debug, PartialEq, Eq, Structural)]
pub enum ErrorKind {
    /// Bad command-line input, caught before any request is made.
    InvalidIdentifier,
    /// A refused or failed request; most often the client is geo-blocked.
    Upstream,
    /// A payload no longer has the expected shape; the upstream contract may have changed.
    Schema,
    /// A master playlist without any variant.
    NoVariants,
    /// The player process failed or ended abnormally.
    PlayerProcess,
}

/// A failure of one stage of the pipeline.
#[derive(Debug)]
pub enum CbcError {
    /// The input is neither an identifier nor a watch-page URL that ends in one.
    InvalidIdentifier,
    /// A URL that does not parse.
    InvalidUrl,
    /// A master playlist that does not parse.
    MalformedPlaylist,
    /// A master playlist without any variant stream.
    NoVariants,
    /// No asset descriptor of the wanted type; holds the type searched for.
    MissingAsset { wanted: String },
    /// The watch page carries no embedded initial state.
    MissingInitialState,
    /// The SMIL manifest holds no `<video src="...">` in its sequence.
    MissingVideoSource,
    /// The stream descriptor reports a non-zero error code.
    StreamUnavailable { error_code: i64 },
    /// A publication time that is not an epoch-millisecond count in range.
    BadTimestamp,
    /// The player process exited with the given code, or without one when killed.
    PlayerExit { code: Option<i32> },
}

/// The class of each failure.
pub open spec fn kind_of(e: CbcError) -> ErrorKind {
    match e {
        CbcError::InvalidIdentifier => ErrorKind::InvalidIdentifier,
        CbcError::StreamUnavailable { .. } => ErrorKind::Upstream,
        CbcError::NoVariants => ErrorKind::NoVariants,
        CbcError::PlayerExit { .. } => ErrorKind::PlayerProcess,
        _ => ErrorKind::Schema,
    }
}

impl CbcError {
    /// The class of this failure.
    pub fn kind(&self) -> (r: ErrorKind)
        ensures
            r == kind_of(*self),
    {
        match self {
            CbcError::InvalidIdentifier => ErrorKind::InvalidIdentifier,
            CbcError::StreamUnavailable { .. } => ErrorKind::Upstream,
            CbcError::NoVariants => ErrorKind::NoVariants,
            CbcError::PlayerExit { .. } => ErrorKind::PlayerProcess,
            _ => ErrorKind::Schema,
        }
    }
}

/// What a finished player process means: success on exit code 0, otherwise a
/// failure that keeps the exit code when there is one.
pub fn player_outcome(code: Option<i32>) -> (r: Result<(), CbcError>)
    ensures
        code == Some(0i32) ==> r is Ok,
        code != Some(0i32) ==> (r matches Err(CbcError::PlayerExit { code: c }) && c == code),
{
    match code {
        Some(0) => Ok(()),
        _ => Err(CbcError::PlayerExit { code }),
    }
}

} // verus!
