//! The request and error shapes of the HTTP surface; the transport
//! itself lives outside the library.

use vstd::prelude::*;

verus! {

/// The error body of a failed request.
#[derive(Clone, Copy, Debug)]
pub struct HTTPErrorResponse {
    pub success: bool,
    pub message: &'static str,
}

/// The body of a damage-evaluation request: the game code, the
/// candidate tool, and whether a recommendation is wanted.
#[derive(Clone, Debug)]
pub struct LastByCodeRequest {
    pub code: String,
    pub item: String,
    pub rec: bool,
}

} // verus!
