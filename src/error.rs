use vstd::prelude::*;

verus! {

/// The failures that end one invocation of the client.
#[derive(Debug, Clone, Copy, PartialEq, Eq, Structural)]
pub enum HttpieError {
    InvalidUrl,
    MalformedKeyValue,
    NetworkError,
    ResponseDecodeError,
    HighlightingUnavailable,
}

} // verus!
