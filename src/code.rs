//! HTTP statuses the service answers with, one for each of its error codes.

use vstd::prelude::*;

verus! {

/// The call succeeded.
pub const OK: u16 = 200;

/// The operation was cancelled by the caller.
pub const CANCELLED: u16 = 499;

/// An error of unknown kind.
pub const UNKNOWN: u16 = 500;

/// The caller gave an invalid argument.
pub const INVALID_ARGUMENT: u16 = 400;

/// The deadline passed before the operation could finish.
pub const DEADLINE_EXCEEDED: u16 = 504;

/// A requested resource does not exist.
pub const NOT_FOUND: u16 = 404;

/// The resource the caller tried to create already exists.
pub const ALREADY_EXISTS: u16 = 409;

/// The caller may not perform the operation.
pub const PERMISSION_DENIED: u16 = 403;

/// The request carries no valid credentials.
pub const UNAUTHENTICATED: u16 = 401;

/// A quota or another resource ran out.
pub const RESOURCE_EXHAUSTED: u16 = 429;

/// The system is not in a state in which the operation can run.
pub const FAILED_PRECONDITION: u16 = 400;

/// The operation was aborted, typically by a concurrency conflict.
pub const ABORTED: u16 = 409;

/// The operation went past the valid range.
pub const OUT_OF_RANGE: u16 = 400;

/// The operation is not implemented or not supported.
pub const UNIMPLEMENTED: u16 = 501;

/// An internal error of the service.
pub const INTERNAL: u16 = 500;

/// The service is not available for now.
pub const UNAVAILABLE: u16 = 503;

/// Data was lost or corrupted beyond recovery.
pub const DATA_LOSS: u16 = 500;

} // verus!
