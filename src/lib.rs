//! Signed compact tokens (HS256) carrying JSON claims, with expiry checks,
//! and the plain-value logic of a C-callable boundary around them.
pub mod clock;
pub mod ffi;
pub mod json;
pub mod jwt;
