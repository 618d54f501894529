//! Text for the host: wide strings, which are sequences of 16-bit units
//! closed by a zero.

use vstd::prelude::*;

verus! {

/// The 16-bit units that stand for one character: the character's code
/// where it fits in 16 bits, else a high and a low surrogate that share the
/// code's excess over 0x10000, ten bits each.
pub open spec fn utf16_units(c: char) -> Seq<u16> {
    let code = c as u32 as int;
    if code < 0x10000 {
        seq![code as u16]
    } else {
        seq![
            (0xD800 + (code - 0x10000) / 0x400) as u16,
            (0xDC00 + (code - 0x10000) % 0x400) as u16,
        ]
    }
}

/// The units of every character of `text`, in order.
pub open spec fn wide_units(text: Seq<char>) -> Seq<u16>
    decreases text.len(),
{
    if text.len() == 0 {
        Seq::empty()
    } else {
        wide_units(text.drop_last()) + utf16_units(text.last())
    }
}

/// Encodes `value` as a wide string for the host: its characters as 16-bit
/// units, then the closing zero.
pub fn to_wstring(value: &str) -> (wide: Vec<u16>)
    ensures
        wide@ == wide_units(value@).push(0u16),
{
    let mut wide: Vec<u16> = Vec::new();
    for c in it: value.chars()
        invariant
            it.seq() == value@,
            wide@ == wide_units(value@.take(it.index() as int)),
    {
        let code: u32 = c as u32;
        if code < 0x10000 {
            wide.push(code as u16);
        } else {
            wide.push((0xD800 + (code - 0x10000) / 0x400) as u16);
            wide.push((0xDC00 + (code - 0x10000) % 0x400) as u16);
        }
        proof {
            let done = value@.take(it.index() as int + 1);
            assert(done.drop_last() == value@.take(it.index() as int));
            assert(done.last() == c);
        }
    }
    assert(value@.take(value@.len() as int) == value@);
    wide.push(0);
    wide
}

} // verus!
