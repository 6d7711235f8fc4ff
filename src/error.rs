//! The ways in which a call can fail.

use vstd::prelude::*;

verus! {

/// Why a call failed.
#[derive(Debug, Clone, PartialEq)]
pub enum Error {
    /// No HTTP response was had: the transport could not be set up, or the
    /// connection, name lookup or TLS failed. Holds the transport's message.
    Transport(String),
    /// The response's status was not in the 2xx range.
    HttpStatus(u16),
    /// A 2xx response whose body is not JSON of the expected shape.
    Decode,
}

} // verus!
