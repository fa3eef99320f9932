//! Identifiers: random version-4 UUIDs, handled as their 128-bit values.
use vstd::prelude::*;

use uuid::Uuid;

verus! {

/// Lower-case hexadecimal digit of `d < 16`.
pub open spec fn hex_lower(d: nat) -> char {
    if d < 10 {
        (('0' as nat) + d) as char
    } else {
        (('a' as nat) + (d - 10)) as char
    }
}

/// The `width` lowest hexadecimal digits of `v`, most significant first.
pub open spec fn hex_fixed(v: nat, width: nat) -> Seq<char>
    decreases width,
{
    if width == 0 {
        Seq::empty()
    } else {
        hex_fixed(v / 16, (width - 1) as nat).push(hex_lower(v % 16))
    }
}

/// Hyphenated lower-case text of the UUID with value `v`: 8, 4, 4, 4 and 12
/// hexadecimal digits separated by hyphens.
pub open spec fn uuid_text(v: u128) -> Seq<char> {
    hex_fixed(v as nat / 0x1_0000_0000_0000_0000_0000_0000nat, 8) + seq!['-']
        + hex_fixed(v as nat / 0x1_0000_0000_0000_0000_0000nat, 4) + seq!['-']
        + hex_fixed(v as nat / 0x1_0000_0000_0000_0000nat, 4) + seq!['-']
        + hex_fixed(v as nat / 0x1_0000_0000_0000nat, 4) + seq!['-'] + hex_fixed(v as nat, 12)
}

/// The value of a fresh `Uuid::new_v4()`: random apart from the version
/// nibble, which reads 4, and the two variant bits, which read 10.
#[verifier::external_body]
pub(crate) fn new_uuid() -> (r: u128)
    ensures
        r & 0xF000_0000_0000_0000_0000u128 == 0x4000_0000_0000_0000_0000u128,
        r & 0xC000_0000_0000_0000u128 == 0x8000_0000_0000_0000u128,
{
    Uuid::new_v4().as_u128()
}

/// `Uuid::to_string` on `Uuid::from_u128(v)`: the hyphenated lower-case text.
#[verifier::external_body]
pub(crate) fn uuid_string(v: u128) -> (r: String)
    ensures
        r@ == uuid_text(v),
{
    Uuid::from_u128(v).to_string()
}

} // verus!
