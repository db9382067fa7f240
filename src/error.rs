use vstd::prelude::*;

use crate::json::Json;

verus! {

/// Why a call, or the polling of an operation, did not produce its result.
#[derive(Debug)]
pub enum Error {
    /// The transport failed: connection, TLS or HTTP protocol.
    HyperError(String),
    /// A body could not be read as the type it should have held.
    SerdeJsonError(String),
    /// The service answered with a status other than 200 and this error body.
    ResponseError(u16, Json),
    /// A local protocol violation.
    Other(String),
}

} // verus!
