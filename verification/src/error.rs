//! What can go wrong, as far as this library decides it.

use vstd::prelude::*;

verus! {

/// Why a listing or a downloader could not be set up.
#[derive(Clone, Copy, Debug, PartialEq, Eq, Structural)]
pub enum ConfigError {
    /// The base URL does not parse as an absolute URL.
    InvalidUrl,
    /// The URL would outgrow what the URL type can hold.
    TooLong,
}

/// Why what was read from a response is not a listing page.
#[derive(Clone, Copy, Debug, PartialEq, Eq, Structural)]
pub enum DecodeError {
    /// The timestamp of this row, counted from zero, is not in RFC 3339
    /// syntax.
    InvalidTimestamp { row: usize },
}

/// A response whose status is not in the 2xx class.
#[derive(Clone, Copy, Debug, PartialEq, Eq, Structural)]
pub struct BadStatus {
    pub code: u16,
}

/// Whether an HTTP status code denotes success: the 2xx class.
pub open spec fn status_is_success(code: u16) -> bool {
    200 <= code < 300
}

/// Accepts the status of a response if it is in the 2xx class. Any other
/// status is a failure that carries the code.
pub fn check_status(code: u16) -> (r: Result<(), BadStatus>)
    ensures
        r == if status_is_success(code) {
            Ok::<(), BadStatus>(())
        } else {
            Err::<(), BadStatus>(BadStatus { code })
        },
{
    if 200 <= code && code < 300 {
        Ok(())
    } else {
        Err(BadStatus { code })
    }
}

} // verus!
