//! A length-prefixed JSON message codec for request/response exchanges over
//! a byte stream.
//!
//! * [`failure`] classifies what can go wrong and translates failures of the
//!   JSON backend into stream-level failures.
//! * [`frame`] lays a payload out on the wire and takes it back off.
//! * [`codec`] holds [`codec::LpJson`], the stateless codec itself.

pub mod failure;
pub mod frame;
pub mod codec;
