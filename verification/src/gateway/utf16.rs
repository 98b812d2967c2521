//! UTF-16 to text.

use vstd::prelude::*;

verus! {

/// `char::from_u32` gives the character with this code point, and `None` where
/// the number is above the last code point or is a surrogate.
pub assume_specification[ char::from_u32 ](i: u32) -> (r: Option<char>)
    ensures
        r is Some <==> (i < 0xd800 || 0xe000 <= i <= 0x10ffff),
        r matches Some(c) ==> c == i as char,
;

/// The first half of a surrogate pair.
pub open spec fn is_high(u: u16) -> bool {
    0xd800 <= u < 0xdc00
}

/// The second half of a surrogate pair.
pub open spec fn is_low(u: u16) -> bool {
    0xdc00 <= u < 0xe000
}

/// The text that UTF-16 units spell. A surrogate without its other half reads as
/// U+FFFD.
pub open spec fn decoded(units: Seq<u16>) -> Seq<char>
    decreases units.len(),
{
    if units.len() == 0 {
        seq![]
    } else {
        let u = units[0];
        if !is_high(u) && !is_low(u) {
            seq![u as char] + decoded(units.drop_first())
        } else if is_high(u) && units.len() > 1 && is_low(units[1]) {
            seq![(0x10000 + (u - 0xd800) * 0x400 + (units[1] - 0xdc00)) as char] + decoded(units.skip(2))
        } else {
            seq!['\u{fffd}'] + decoded(units.drop_first())
        }
    }
}

fn char_of(u: u32) -> (c: char)
    requires
        u < 0xd800 || 0xe000 <= u <= 0x10ffff,
    ensures
        c == u as char,
{
    match char::from_u32(u) {
        Some(c) => c,
        None => '\u{fffd}',
    }
}

/// The text that the first `n` units of `buf` spell.
pub fn decode_lossy(buf: &Vec<u16>, n: usize) -> (r: String)
    requires
        n <= buf.len(),
    ensures
        r@ == decoded(buf@.take(n as int)),
{
    let ghost all = buf@.take(n as int);
    let mut out = String::new();
    let mut i: usize = 0;
    assert(all.skip(0) =~= all);
    assert(out@ + decoded(all) =~= decoded(all));
    while i < n
        invariant
            i <= n <= buf.len(),
            all == buf@.take(n as int),
            out@ + decoded(all.skip(i as int)) == decoded(all),
        decreases n - i,
    {
        let u: u16 = buf[i];
        let ghost rest = all.skip(i as int);
        let ghost before = out@;
        assert(rest[0] == u);
        assert(rest.drop_first() =~= all.skip(i + 1));
        let lone = 0xd800 <= u && u < 0xe000;
        if !lone {
            out.push(char_of(u as u32));
            i = i + 1;
        } else if u < 0xdc00 && i + 1 < n && 0xdc00 <= buf[i + 1] && buf[i + 1] < 0xe000 {
            let low: u16 = buf[i + 1];
            assert(rest[1] == low);
            assert(rest.skip(2) =~= all.skip(i + 2));
            out.push(char_of(0x10000 + (u as u32 - 0xd800) * 0x400 + (low as u32 - 0xdc00)));
            i = i + 2;
        } else {
            out.push('\u{fffd}');
            i = i + 1;
        }
        assert(out@ + decoded(all.skip(i as int)) =~= before + decoded(rest));
    }
    assert(out@ =~= decoded(all));
    out
}

} // verus!
