//! The errors of page traversal.

use vstd::prelude::*;

verus! {

/// Why a traversal step produced no page.
#[derive(Debug, Clone, PartialEq, Eq)]
pub enum Error {
    /// No further page exists in the requested direction. Single steps report
    /// it to their caller; an aggregation takes it as the end of a direction.
    NoRemainingPages,
    /// The request for a page failed: the transport, the authentication or the
    /// decoding of the response. The text is the failure's message, which this
    /// library passes on unread.
    RequestFailed(String),
}

} // verus!
