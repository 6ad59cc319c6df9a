//! The MessagePack codec's error types, as the error model carries them.

use vstd::prelude::*;

verus! {

/// rmp_serde's serializer error, opaque: carried unchanged, never inspected.
#[verifier::external_type_specification]
#[verifier::external_body]
pub struct ExSerializeError(rmp_serde::encode::Error);

/// rmpv's decoder error, opaque: carried unchanged, and rendered through its
/// `Display` text.
#[verifier::external_type_specification]
#[verifier::external_body]
pub struct ExDecodeError(rmpv::decode::Error);

/// A failure of rmpv's value encoder, carried unchanged. Its type is generic
/// over a bound of rmp that Verus cannot take, so the value is held opaquely.
#[verifier::external_body]
#[derive(Debug)]
pub struct EncodeFailure(pub rmpv::encode::Error);

} // verus!
