//! Text payloads: the null-terminated UTF-16 buffers handed to the target.

use vstd::prelude::*;

verus! {

/// The UTF-16 code units that encode one character.
pub open spec fn utf16_of_char(c: char) -> Seq<u16> {
    let v = c as u32;
    if v < 0x10000 {
        seq![v as u16]
    } else {
        let w = (v - 0x10000) as u32;
        seq![(0xD800 + w / 0x400) as u16, (0xDC00 + w % 0x400) as u16]
    }
}

/// The UTF-16 encoding of a character sequence.
pub open spec fn utf16_of(s: Seq<char>) -> Seq<u16>
    decreases s.len(),
{
    if s.len() == 0 {
        Seq::empty()
    } else {
        utf16_of(s.drop_last()) + utf16_of_char(s.last())
    }
}

/// The terminator code unit that ends every payload.
pub const TERMINATOR: u16 = 0;

/// Relies on `str::encode_utf16`: the UTF-16 code units of the string, in order.
#[verifier::external_body]
fn encode_utf16(s: &str) -> (r: Vec<u16>)
    ensures
        r@ == utf16_of(s@),
{
    s.encode_utf16().collect()
}

/// The payload for text read from a piped input: its UTF-16 encoding followed
/// by one terminator.
pub fn piped_payload(text: &str) -> (r: Vec<u16>)
    ensures
        r@ == utf16_of(text@).push(TERMINATOR),
{
    let mut units = encode_utf16(text);
    units.push(TERMINATOR);
    units
}

/// The payload that stands for the empty string: the terminator alone.
pub fn empty_payload() -> (r: Vec<u16>)
    ensures
        r@ == seq![TERMINATOR],
{
    let r = vec![TERMINATOR];
    assert(r@ =~= seq![TERMINATOR]);
    r
}

} // verus!
