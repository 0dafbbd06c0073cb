//! HTTP status codes that the decisions of this crate produce.

use vstd::prelude::*;

verus! {

pub const NO_CONTENT: u16 = 204;

pub const UNAUTHORIZED: u16 = 401;

pub const FORBIDDEN: u16 = 403;

pub const TOO_MANY_REQUESTS: u16 = 429;

pub const INTERNAL_ERROR: u16 = 500;

} // verus!
