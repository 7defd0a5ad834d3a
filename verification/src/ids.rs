//! Random identifiers.

use vstd::prelude::*;

verus! {

/// A lowercase hexadecimal digit.
pub open spec fn is_lower_hex(c: char) -> bool {
    ('0' <= c && c <= '9') || ('a' <= c && c <= 'f')
}

/// `uuid::Uuid::new_v4().simple()`, displayed: a random version-4 UUID as 32
/// lowercase hexadecimal digits without hyphens (uuid formats `Simple` through
/// its `LowerHex` encoding, 32 characters long). Which digits come out is
/// chance and is not stated.
#[verifier::external_body]
pub(crate) fn random_hex_id() -> (r: String)
    ensures
        r@.len() == 32,
        forall|i: int| 0 <= i < 32 ==> #[trigger] is_lower_hex(r@[i]),
{
    uuid::Uuid::new_v4().simple().to_string()
}

} // verus!
