//! Error model of a client that talks to an evaluator process over a
//! MessagePack protocol and (de)serializes structured data.

pub mod codec;
pub mod error;

pub use error::PklError;
