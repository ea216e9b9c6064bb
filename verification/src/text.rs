//! Device names and window-class names.

use vstd::prelude::*;
use vstd::string::StringSliceAdditionalSpecFns;

verus! {

/// Raw-input device query for the device's name, in UTF-16.
pub const RIDI_DEVICENAME: u32 = 0x2000_0007;

/// A UTF-16 code unit that stands for itself (not a surrogate).
pub open spec fn is_plain_unit(u: u16) -> bool {
    u < 0xD800 || u > 0xDFFF
}

/// A UTF-16 code unit that opens a surrogate pair.
pub open spec fn is_high_surrogate(u: u16) -> bool {
    0xD800 <= u <= 0xDBFF
}

/// A UTF-16 code unit that closes a surrogate pair.
pub open spec fn is_low_surrogate(u: u16) -> bool {
    0xDC00 <= u <= 0xDFFF
}

/// The scalar value that a surrogate pair encodes.
pub open spec fn pair_scalar(high: u16, low: u16) -> int {
    0x10000 + (high - 0xD800) * 0x400 + (low - 0xDC00)
}

/// The text that a sequence of UTF-16 code units encodes, or `None`
/// where a surrogate stands unpaired.
pub open spec fn utf16_decode(units: Seq<u16>) -> Option<Seq<char>>
    decreases units.len(),
{
    if units.len() == 0 {
        Some(Seq::empty())
    } else if is_plain_unit(units[0]) {
        match utf16_decode(units.drop_first()) {
            Some(rest) => Some(seq![units[0] as char] + rest),
            None => None,
        }
    } else if is_high_surrogate(units[0]) && units.len() >= 2 && is_low_surrogate(units[1]) {
        match utf16_decode(units.subrange(2, units.len() as int)) {
            Some(rest) => Some(seq![pair_scalar(units[0], units[1]) as char] + rest),
            None => None,
        }
    } else {
        None
    }
}

/// `String::from_utf16` (std): decodes UTF-16 code units, failing
/// exactly where the units hold an unpaired surrogate. The contract
/// claims that its success and its text are those of `utf16_decode`.
#[verifier::external_body]
fn decode_utf16(units: &[u16]) -> (r: Option<String>)
    ensures
        r is Some <==> utf16_decode(units@) is Some,
        r matches Some(s) ==> s@ == utf16_decode(units@)->0,
{
    String::from_utf16(units).ok()
}

/// The device name held in the first `count` code units of the buffer
/// that the name query filled, or `None` where they are not valid UTF-16.
pub fn device_name(buffer: &[u16], count: u32) -> (r: Option<String>)
    requires
        count <= buffer@.len(),
    ensures
        r is Some <==> utf16_decode(buffer@.take(count as int)) is Some,
        r matches Some(s) ==> s@ == utf16_decode(buffer@.take(count as int))->0,
{
    let n = count as usize;
    let mut units: Vec<u16> = Vec::with_capacity(n);
    let mut i: usize = 0;
    while i < n
        invariant
            n == count,
            n <= buffer@.len(),
            i <= n,
            units@ == buffer@.take(i as int),
        decreases n - i,
    {
        units.push(buffer[i]);
        i = i + 1;
        assert(units@ =~= buffer@.take(i as int));
    }
    decode_utf16(units.as_slice())
}

/// The bytes of `text` followed by a NUL byte: the name that is handed to
/// the system as a wide string.
pub fn native_str(text: &str) -> (r: Vec<u8>)
    ensures
        r@ == text.spec_bytes().push(0u8),
{
    let bytes = text.as_bytes();
    let mut r: Vec<u8> = Vec::with_capacity(bytes.len());
    let mut i: usize = 0;
    while i < bytes.len()
        invariant
            bytes@ == text.spec_bytes(),
            i <= bytes@.len(),
            r@ == bytes@.take(i as int),
        decreases bytes@.len() - i,
    {
        r.push(bytes[i]);
        i = i + 1;
        assert(r@ =~= bytes@.take(i as int));
    }
    assert(r@ =~= bytes@);
    r.push(0u8);
    r
}

/// Code units that are all plain (no surrogates) decode one character
/// per unit, each the character with the unit's value.
pub proof fn plain_units_decode_unit_by_unit(units: Seq<u16>)
    requires
        forall|i: int| 0 <= i < units.len() ==> is_plain_unit(#[trigger] units[i]),
    ensures
        utf16_decode(units) == Some(units.map_values(|u: u16| u as char)),
    decreases units.len(),
{
    if units.len() > 0 {
        let rest = units.drop_first();
        assert forall|i: int| 0 <= i < rest.len() implies is_plain_unit(#[trigger] rest[i]) by {
            assert(rest[i] == units[i + 1]);
        }
        plain_units_decode_unit_by_unit(rest);
        assert(units.map_values(|u: u16| u as char) =~= seq![units[0] as char] + rest.map_values(
            |u: u16| u as char,
        ));
    } else {
        assert(units.map_values(|u: u16| u as char) =~= Seq::<char>::empty());
    }
}

} // verus!
