pub mod auth;
pub mod health_check;

use vstd::prelude::*;

verus! {

/// HTTP 200 OK.
pub const STATUS_OK: u16 = 200;

/// HTTP 204 No Content.
pub const STATUS_NO_CONTENT: u16 = 204;

/// HTTP 400 Bad Request.
pub const STATUS_BAD_REQUEST: u16 = 400;

/// HTTP 401 Unauthorized.
pub const STATUS_UNAUTHORIZED: u16 = 401;

/// HTTP 403 Forbidden.
pub const STATUS_FORBIDDEN: u16 = 403;

/// HTTP 404 Not Found.
pub const STATUS_NOT_FOUND: u16 = 404;

/// HTTP 422 Unprocessable Entity.
pub const STATUS_UNPROCESSABLE_ENTITY: u16 = 422;

/// HTTP 500 Internal Server Error.
pub const STATUS_INTERNAL_SERVER_ERROR: u16 = 500;

} // verus!
