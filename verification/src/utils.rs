//! Plain values handed back to callers.

pub mod payload;
pub mod response_write_signed;
