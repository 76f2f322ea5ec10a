//! The operations on a stream.

pub mod create_stream;
pub mod redeem;
pub mod revoke;
