//! The HTTP status codes that the service answers with.

use vstd::prelude::*;

verus! {

/// `200 OK`.
pub const OK: u16 = 200;

/// `400 Bad Request`.
pub const BAD_REQUEST: u16 = 400;

/// `401 Unauthorized`.
pub const UNAUTHORIZED: u16 = 401;

/// `500 Internal Server Error`.
pub const INTERNAL_SERVER_ERROR: u16 = 500;

} // verus!
