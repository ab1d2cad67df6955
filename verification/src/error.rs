//! Why a reply could not be decoded.

use vstd::prelude::*;

verus! {

/// The reason for which a service's reply is refused.
#[derive(Debug, Clone, Copy, PartialEq, Eq, Structural)]
pub enum ReplyError {
    /// The reply is not JSON.
    Syntax,
    /// The reply is JSON of another shape than the one expected.
    Shape,
    /// The reply lists `found` entries where another number is expected.
    Count { found: usize },
    /// The audio payload is not base64.
    Encoding,
}

} // verus!
