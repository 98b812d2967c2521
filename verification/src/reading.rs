//! Reading text back.
//!
//! What a numeral, a separated list or an address stands for is said here by how it
//! is read, digit by digit and field by field. The laws then say of the texts that
//! the library writes what a reader finds in them.

use vstd::prelude::*;
use crate::ip::{groups, longest_zeros, zeros_from, IpAddr, Ipv4Addr, Ipv6Addr};
use crate::text::{
    behind, digit, first_at, first_field, is_white, line_end, lines, numeral, occurs, occurs_at, signed_numeral, trim,
    trim_end, trim_start, word,
};

verus! {

/// What a digit counts, in bases up to sixteen; no digit counts less than nothing.
pub open spec fn digit_value(c: char) -> int {
    let u = c as u32;
    if 0x30 <= u <= 0x39 {
        u - 0x30
    } else if 0x61 <= u <= 0x66 {
        u - 0x61 + 10
    } else {
        -1
    }
}

/// The number that digits stand for in a base.
pub open spec fn number(s: Seq<char>, base: int) -> int
    decreases s.len(),
{
    if s.len() == 0 {
        0
    } else {
        number(s.drop_last(), base) * base + digit_value(s.last())
    }
}

/// `c` does not stand in `s`.
pub open spec fn free_of(s: Seq<char>, c: char) -> bool {
    forall|i: int| 0 <= i < s.len() ==> s[i] != c
}

/// Every character is a digit of the base.
pub open spec fn all_digits(s: Seq<char>, base: int) -> bool {
    forall|i: int| 0 <= i < s.len() ==> 0 <= digit_value(#[trigger] s[i]) < base
}

proof fn lemma_digit(d: nat)
    requires
        d < 16,
    ensures
        digit_value(digit(d)) == d,
{
}

/// A numeral reads as the number it was made of. It has only digits, at least one,
/// and none that could be left out.
pub proof fn a_numeral_reads_back(n: nat, base: nat)
    requires
        2 <= base <= 16,
    ensures
        number(numeral(n, base), base as int) == n,
        all_digits(numeral(n, base), base as int),
        numeral(n, base).len() > 0,
        numeral(n, base)[0] == '0' ==> n == 0 && numeral(n, base).len() == 1,
    decreases n,
{
    if n < base {
        lemma_digit(n);
        assert(numeral(n, base) =~= seq![digit(n)]);
        assert(numeral(n, base).drop_last() =~= Seq::<char>::empty());
        assert(number(numeral(n, base), base as int) == number(Seq::empty(), base as int) * base + digit_value(digit(n)));
    } else {
        assert(n / base < n && n / base >= 1) by (nonlinear_arith)
            requires
                n >= base,
                base >= 2,
        ;
        assert(n % base < base) by (nonlinear_arith)
            requires
                base >= 2,
        ;
        assert((n / base) * base + n % base == n) by (nonlinear_arith)
            requires
                base >= 2,
        ;
        a_numeral_reads_back(n / base, base);
        lemma_digit(n % base);
        let front = numeral(n / base, base);
        assert(numeral(n, base) == front.push(digit(n % base)));
        assert(numeral(n, base).drop_last() =~= front);
        assert(numeral(n, base)[0] == front[0]);
    }
}

/// A signed numeral is a minus sign before the number's size, or the number itself.
pub proof fn a_signed_numeral_reads_back(n: int)
    ensures
        n >= 0 ==> number(signed_numeral(n), 10) == n && all_digits(signed_numeral(n), 10),
        n < 0 ==> signed_numeral(n)[0] == '-' && number(signed_numeral(n).skip(1), 10) == -n && all_digits(
            signed_numeral(n).skip(1),
            10,
        ),
{
    reveal_strlit("-");
    if n < 0 {
        a_numeral_reads_back((-n) as nat, 10);
        assert(signed_numeral(n).skip(1) =~= numeral((-n) as nat, 10));
    } else {
        a_numeral_reads_back(n as nat, 10);
    }
}

/// The fields of `s` that `sep` separates.
pub open spec fn fields(s: Seq<char>, sep: char) -> Seq<Seq<char>>
    decreases s.len(),
{
    if s.len() == 0 {
        seq![seq![]]
    } else {
        let before = fields(s.drop_last(), sep);
        if s.last() == sep {
            before.push(seq![])
        } else {
            before.drop_last().push(before.last().push(s.last()))
        }
    }
}

pub proof fn lemma_fields_some(s: Seq<char>, sep: char)
    ensures
        fields(s, sep).len() > 0,
    decreases s.len(),
{
    if s.len() > 0 {
        lemma_fields_some(s.drop_last(), sep);
    }
}

/// Text without the separator is one field.
pub proof fn lemma_one_field(s: Seq<char>, sep: char)
    requires
        free_of(s, sep),
    ensures
        fields(s, sep) == seq![s],
    decreases s.len(),
{
    if s.len() > 0 {
        assert(free_of(s.drop_last(), sep));
        lemma_one_field(s.drop_last(), sep);
        assert(s.drop_last().push(s.last()) =~= s);
        assert(s[s.len() - 1] != sep);
        assert(seq![s.drop_last()].drop_last() =~= Seq::<Seq<char>>::empty());
    } else {
        assert(s =~= seq![]);
    }
    assert(fields(s, sep) =~= seq![s]);
}

/// A separator between two texts separates their fields.
pub proof fn lemma_fields_join(a: Seq<char>, b: Seq<char>, sep: char)
    ensures
        fields(a.push(sep) + b, sep) == fields(a, sep) + fields(b, sep),
    decreases b.len(),
{
    let s = a.push(sep) + b;
    if b.len() == 0 {
        assert(s =~= a.push(sep));
        assert(s.drop_last() =~= a);
        assert(fields(s, sep) =~= fields(a, sep) + fields(b, sep));
    } else {
        lemma_fields_join(a, b.drop_last(), sep);
        lemma_fields_some(b.drop_last(), sep);
        assert(s.drop_last() =~= a.push(sep) + b.drop_last());
        assert(fields(s, sep) =~= fields(a, sep) + fields(b, sep));
    }
}

/// A field behind a separator is the last one.
pub proof fn lemma_last_field(a: Seq<char>, w: Seq<char>, sep: char)
    requires
        free_of(w, sep),
    ensures
        fields(a.push(sep) + w, sep) == fields(a, sep).push(w),
{
    lemma_fields_join(a, w, sep);
    lemma_one_field(w, sep);
    assert(fields(a, sep) + seq![w] =~= fields(a, sep).push(w));
}

proof fn lemma_digits_are_free(s: Seq<char>, base: int, sep: char)
    requires
        all_digits(s, base),
        digit_value(sep) < 0,
    ensures
        free_of(s, sep),
{
}

/// Four numbers between dots, each read in base ten.
pub open spec fn reads_dotted(s: Seq<char>, o: Seq<u8>) -> bool {
    &&& fields(s, '.').len() == 4
    &&& o.len() == 4
    &&& forall|i: int|
        0 <= i < 4 ==> number(#[trigger] fields(s, '.')[i], 10) == o[i] && all_digits(fields(s, '.')[i], 10)
}

pub proof fn lemma_dotted(a: u8, b: u8, c: u8, d: u8)
    ensures
        reads_dotted(
            numeral(a as nat, 10) + "."@ + numeral(b as nat, 10) + "."@ + numeral(c as nat, 10) + "."@ + numeral(
                d as nat,
                10,
            ),
            seq![a, b, c, d],
        ),
{
    reveal_strlit(".");
    let (na, nb, nc, nd) = (numeral(a as nat, 10), numeral(b as nat, 10), numeral(c as nat, 10), numeral(d as nat, 10));
    a_numeral_reads_back(a as nat, 10);
    a_numeral_reads_back(b as nat, 10);
    a_numeral_reads_back(c as nat, 10);
    a_numeral_reads_back(d as nat, 10);
    lemma_digits_are_free(na, 10, '.');
    lemma_digits_are_free(nb, 10, '.');
    lemma_digits_are_free(nc, 10, '.');
    lemma_digits_are_free(nd, 10, '.');
    lemma_one_field(na, '.');
    lemma_last_field(na, nb, '.');
    let ab = na.push('.') + nb;
    lemma_last_field(ab, nc, '.');
    let abc = ab.push('.') + nc;
    lemma_last_field(abc, nd, '.');
    let s = abc.push('.') + nd;
    assert("."@ =~= seq!['.']);
    assert(s =~= na + "."@ + nb + "."@ + nc + "."@ + nd);
    assert(fields(s, '.') =~= seq![na, nb, nc, nd]);
}

/// An IPv4 address reads as its octets, the first one first.
pub proof fn an_ipv4_text_reads_back(ip: Ipv4Addr)
    ensures
        reads_dotted(ip.text(), ip.octets@),
{
    let o = ip.octets@;
    lemma_dotted(o[0], o[1], o[2], o[3]);
    assert(o =~= seq![o[0], o[1], o[2], o[3]]);
}

/// Numbers between colons, each read in base sixteen; no text for no number.
pub open spec fn reads_groups(s: Seq<char>, segments: Seq<u16>) -> bool {
    if segments.len() == 0 {
        s.len() == 0
    } else {
        &&& fields(s, ':').len() == segments.len()
        &&& forall|i: int|
            0 <= i < segments.len() ==> number(#[trigger] fields(s, ':')[i], 16) == segments[i] && all_digits(
                fields(s, ':')[i],
                16,
            ) && fields(s, ':')[i].len() > 0
    }
}

/// `n` segments from the `i`-th on are zero.
pub open spec fn zero_run(s: Seq<u16>, i: int, n: int) -> bool {
    0 <= i && 0 <= n && i + n <= s.len() && forall|k: int| i <= k < i + n ==> s[k] == 0
}

/// The run is the one that is left out of the text: it is as long as any, and none
/// as long starts before it.
pub open spec fn elided(s: Seq<u16>, start: int, len: int) -> bool {
    &&& zero_run(s, start, len)
    &&& forall|i: int, n: int| #[trigger] zero_run(s, i, n) && n > 0 ==> n < len || (n == len && start <= i)
}

/// The double colon at `cut` stands for the elided run, and what is before and behind
/// it reads as the other segments.
pub open spec fn reads_elided(s: Seq<char>, segments: Seq<u16>, cut: int, start: int, len: int) -> bool {
    &&& 0 <= cut && cut + 2 <= s.len() && s[cut] == ':' && s[cut + 1] == ':'
    &&& len >= 2 && elided(segments, start, len)
    &&& reads_groups(s.take(cut), segments.take(start))
    &&& reads_groups(s.skip(cut + 2), segments.skip(start + len))
}

/// An IPv6 text reads as these segments: eight numbers between colons, or numbers on
/// both sides of a double colon where two zero segments stand together.
pub open spec fn reads_colons(s: Seq<char>, segments: Seq<u16>) -> bool {
    if exists|i: int| #[trigger] zero_run(segments, i, 2) {
        exists|cut: int, start: int, len: int| #[trigger] reads_elided(s, segments, cut, start, len)
    } else {
        reads_groups(s, segments)
    }
}

proof fn lemma_groups(s: Seq<u16>)
    ensures
        reads_groups(groups(s), s),
    decreases s.len(),
{
    if s.len() > 0 {
        let last = numeral(s.last() as nat, 16);
        a_numeral_reads_back(s.last() as nat, 16);
        lemma_digits_are_free(last, 16, ':');
        if s.len() == 1 {
            lemma_one_field(last, ':');
        } else {
            let front = s.drop_last();
            lemma_groups(front);
            reveal_strlit(":");
            assert(":"@ =~= seq![':']);
            assert(groups(s) =~= groups(front).push(':') + last);
            lemma_last_field(groups(front), last, ':');
        }
    }
}

proof fn lemma_zeros_from(s: Seq<u16>, i: int, n: int)
    requires
        0 <= i <= s.len(),
    ensures
        zero_run(s, i, zeros_from(s, i) as int),
        zero_run(s, i, n) ==> n <= zeros_from(s, i),
    decreases s.len() - i,
{
    if i < s.len() && s[i] == 0 {
        lemma_zeros_from(s, i + 1, n - 1);
        if zero_run(s, i, n) && n > 0 {
            assert(zero_run(s, i + 1, n - 1));
        }
    }
}

proof fn lemma_longest(s: Seq<u16>, n: nat)
    requires
        n <= s.len(),
    ensures
        zero_run(s, longest_zeros(s, n).0, longest_zeros(s, n).1 as int),
        longest_zeros(s, n).1 == 0 || longest_zeros(s, n).0 < n,
        forall|i: int, m: int| #[trigger]
            zero_run(s, i, m) && m > 0 && i < n ==> m < longest_zeros(s, n).1 || (m == longest_zeros(s, n).1
                && longest_zeros(s, n).0 <= i),
    decreases n,
{
    if n > 0 {
        lemma_longest(s, (n - 1) as nat);
        assert forall|i: int, m: int| #[trigger] zero_run(s, i, m) && m > 0 && i < n implies m < longest_zeros(s, n).1
            || (m == longest_zeros(s, n).1 && longest_zeros(s, n).0 <= i) by {
            if i == n - 1 {
                lemma_zeros_from(s, n - 1, m);
            }
        }
        lemma_zeros_from(s, n - 1, 0);
    }
}

/// An IPv6 address reads as its segments, the first one first; of an IPv4-mapped one
/// the last two read as four octets.
pub proof fn an_ipv6_text_reads_back(ip: Ipv6Addr)
    ensures
        ({
            let s = ip.segments@;
            if zero_run(s, 0, 5) && s[5] == 0xffff {
                exists|o: Seq<u8>|
                    {
                        &&& ip.text().take(7) == seq![':', ':', 'f', 'f', 'f', 'f', ':']
                        &&& #[trigger] reads_dotted(ip.text().skip(7), o)
                        &&& s[6] == 256 * o[0] + o[1]
                        &&& s[7] == 256 * o[2] + o[3]
                    }
            } else {
                reads_colons(ip.text(), s)
            }
        }),
{
    let s = ip.segments@;
    if zero_run(s, 0, 5) && s[5] == 0xffff {
        assert(ip.mapped());
        let o = ip.mapped_octets();
        reveal_strlit("::ffff:");
        lemma_dotted(o[0], o[1], o[2], o[3]);
        assert(o =~= seq![o[0], o[1], o[2], o[3]]);
        assert("::ffff:"@ =~= seq![':', ':', 'f', 'f', 'f', 'f', ':']);
        let dotted = numeral(o[0] as nat, 10) + "."@ + numeral(o[1] as nat, 10) + "."@ + numeral(o[2] as nat, 10) + "."@
            + numeral(o[3] as nat, 10);
        assert(ip.text() =~= "::ffff:"@ + dotted);
        assert(ip.text().skip(7) =~= dotted);
        assert(ip.text().take(7) =~= "::ffff:"@);
        assert(reads_dotted(ip.text().skip(7), o));
    } else {
        assert(!ip.mapped()) by {
            if ip.mapped() {
                assert forall|k: int| 0 <= k < 5 implies s[k] == 0 by {
                    assert(k == 0 || k == 1 || k == 2 || k == 3 || k == 4);
                }
            }
        }
        let (start, len) = longest_zeros(s, 8);
        lemma_longest(s, 8);
        if exists|i: int| #[trigger] zero_run(s, i, 2) {
            assert(len >= 2);
            let left = groups(s.take(start));
            let right = groups(s.skip(start + len));
            lemma_groups(s.take(start));
            lemma_groups(s.skip(start + len));
            reveal_strlit("::");
            assert("::"@ =~= seq![':', ':']);
            assert(elided(s, start, len as int)) by {
                assert forall|i: int, n: int| #[trigger] zero_run(s, i, n) && n > 0 implies n < len || (n == len && start
                    <= i) by {}
            }
            assert(ip.text() == left + "::"@ + right);
            let cut = left.len() as int;
            assert(ip.text().take(cut) =~= left);
            assert(ip.text().skip(cut + 2) =~= right);
            assert(reads_elided(ip.text(), s, cut, start, len as int));
        } else {
            if len >= 2 {
                assert(zero_run(s, start, 2));
            }
            lemma_groups(s);
        }
    }
}

/// The text of an address of one family is never that of the other: an IPv6 text has
/// a colon and an IPv4 text has none.
pub proof fn an_address_text_shows_its_family(ip: IpAddr)
    ensures
        match ip {
            IpAddr::V4(v4) => free_of(ip.text(), ':') && ip.text() == v4.text(),
            IpAddr::V6(v6) => !free_of(ip.text(), ':') && ip.text() == v6.text(),
        },
        free_of(ip.text(), ' '),
        free_of(ip.text(), '\n'),
        ip.text().len() > 0,
{
    match ip {
        IpAddr::V4(v4) => {
            let o = v4.octets@;
            lemma_dotted_chars(o[0], o[1], o[2], o[3]);
        }
        IpAddr::V6(v6) => {
            lemma_ipv6_chars(v6);
        }
    }
}

/// Every character is a digit of the base, a dot or a colon.
spec fn address_chars(s: Seq<char>, colon: bool) -> bool {
    forall|i: int|
        0 <= i < s.len() ==> 0 <= digit_value(#[trigger] s[i]) < 16 || s[i] == '.' || (colon && s[i] == ':')
}

proof fn lemma_dotted_chars(a: u8, b: u8, c: u8, d: u8)
    ensures
        ({
            let s = numeral(a as nat, 10) + "."@ + numeral(b as nat, 10) + "."@ + numeral(c as nat, 10) + "."@
                + numeral(d as nat, 10);
            address_chars(s, false) && s.len() > 0
        }),
{
    reveal_strlit(".");
    a_numeral_reads_back(a as nat, 10);
    a_numeral_reads_back(b as nat, 10);
    a_numeral_reads_back(c as nat, 10);
    a_numeral_reads_back(d as nat, 10);
    let s1 = numeral(a as nat, 10) + "."@ + numeral(b as nat, 10);
    assert(address_chars(s1, false));
    let s2 = s1 + "."@ + numeral(c as nat, 10);
    assert(address_chars(s2, false));
    let s3 = s2 + "."@ + numeral(d as nat, 10);
    assert(address_chars(s3, false));
}

proof fn lemma_groups_chars(s: Seq<u16>)
    ensures
        address_chars(groups(s), true),
        s.len() > 0 ==> groups(s).len() > 0,
        s.len() > 1 ==> groups(s).contains(':'),
    decreases s.len(),
{
    if s.len() > 0 {
        a_numeral_reads_back(s.last() as nat, 16);
        if s.len() > 1 {
            lemma_groups_chars(s.drop_last());
            reveal_strlit(":");
            assert(groups(s)[groups(s.drop_last()).len() as int] == ':');
        }
    }
}

proof fn lemma_ipv6_chars(ip: Ipv6Addr)
    ensures
        address_chars(ip.text(), true),
        ip.text().contains(':'),
{
    let s = ip.segments@;
    let run = longest_zeros(s, 8);
    lemma_longest(s, 8);
    reveal_strlit("::");
    reveal_strlit("::ffff:");
    if ip.mapped() {
        let o = ip.mapped_octets();
        lemma_dotted_chars(o[0], o[1], o[2], o[3]);
        assert(ip.text()[0] == ':');
    } else if run.1 >= 2 {
        lemma_groups_chars(s.take(run.0));
        lemma_groups_chars(s.skip(run.0 + run.1));
        assert(ip.text()[groups(s.take(run.0)).len() as int] == ':');
    } else {
        lemma_groups_chars(s);
    }
}

/// Every character is white space.
pub open spec fn all_white(s: Seq<char>) -> bool {
    forall|i: int| 0 <= i < s.len() ==> is_white(#[trigger] s[i])
}

/// No character is white space.
pub open spec fn none_white(s: Seq<char>) -> bool {
    forall|i: int| 0 <= i < s.len() ==> !is_white(#[trigger] s[i])
}

/// White space is what Unicode lists: the five controls from the tab to the carriage
/// return, the space, the next-line control, and the spaces and separators beyond.
pub proof fn white_space_is_what_unicode_lists(c: char)
    ensures
        is_white(c) <==> seq![
            '\u{9}',
            '\u{a}',
            '\u{b}',
            '\u{c}',
            '\u{d}',
            '\u{20}',
            '\u{85}',
            '\u{a0}',
            '\u{1680}',
            '\u{2000}',
            '\u{2001}',
            '\u{2002}',
            '\u{2003}',
            '\u{2004}',
            '\u{2005}',
            '\u{2006}',
            '\u{2007}',
            '\u{2008}',
            '\u{2009}',
            '\u{200a}',
            '\u{2028}',
            '\u{2029}',
            '\u{202f}',
            '\u{205f}',
            '\u{3000}',
        ].contains(c),
{
    let all = seq![
        '\u{9}',
        '\u{a}',
        '\u{b}',
        '\u{c}',
        '\u{d}',
        '\u{20}',
        '\u{85}',
        '\u{a0}',
        '\u{1680}',
        '\u{2000}',
        '\u{2001}',
        '\u{2002}',
        '\u{2003}',
        '\u{2004}',
        '\u{2005}',
        '\u{2006}',
        '\u{2007}',
        '\u{2008}',
        '\u{2009}',
        '\u{200a}',
        '\u{2028}',
        '\u{2029}',
        '\u{202f}',
        '\u{205f}',
        '\u{3000}',
    ];
    if is_white(c) {
        let u = c as u32;
        let k: int = if u <= 0xd {
            u - 9
        } else if u == 0x20 {
            5
        } else if u == 0x85 {
            6
        } else if u == 0xa0 {
            7
        } else if u == 0x1680 {
            8
        } else if u <= 0x200a {
            9 + u - 0x2000
        } else if u == 0x2028 {
            20
        } else if u == 0x2029 {
            21
        } else if u == 0x202f {
            22
        } else if u == 0x205f {
            23
        } else {
            24
        };
        assert(0 <= k < 25 && all[k] as u32 == u);
        assert(all[k] == c);
    }
}

proof fn lemma_trim_start(s: Seq<char>)
    ensures
        trim_start(s).len() <= s.len(),
        trim_start(s) == s.skip(s.len() - trim_start(s).len()),
        all_white(s.take(s.len() - trim_start(s).len())),
        trim_start(s).len() > 0 ==> !is_white(trim_start(s)[0]),
    decreases s.len(),
{
    let t = trim_start(s);
    if s.len() > 0 && is_white(s[0]) {
        let d = s.drop_first();
        lemma_trim_start(d);
        assert(t =~= s.skip(s.len() - t.len()));
        assert forall|i: int| 0 <= i < s.len() - t.len() implies is_white(#[trigger] s.take(s.len() - t.len())[i]) by {
            if i > 0 {
                assert(d.take(d.len() - t.len())[i - 1] == s[i]);
            }
        }
    } else {
        assert(t =~= s.skip(0));
    }
}

proof fn lemma_trim_end(s: Seq<char>)
    ensures
        trim_end(s).len() <= s.len(),
        trim_end(s) == s.take(trim_end(s).len() as int),
        all_white(s.skip(trim_end(s).len() as int)),
        trim_end(s).len() > 0 ==> !is_white(trim_end(s).last()),
    decreases s.len(),
{
    let t = trim_end(s);
    if s.len() > 0 && is_white(s.last()) {
        let d = s.drop_last();
        lemma_trim_end(d);
        assert(t =~= s.take(t.len() as int));
        assert forall|i: int| 0 <= i < s.len() - t.len() implies is_white(#[trigger] s.skip(t.len() as int)[i]) by {
            if i < d.len() - t.len() {
                assert(d.skip(t.len() as int)[i] == s[t.len() + i]);
            }
        }
    } else {
        assert(t =~= s.take(s.len() as int));
    }
}

/// Trimming takes white space off both ends and nothing else: what is left stands in
/// the text, begins and ends in no white space, and has only white space around it.
pub proof fn trimming_takes_white_space_alone(s: Seq<char>)
    ensures
        exists|from: int, to: int|
            {
                &&& 0 <= from <= to <= s.len()
                &&& trim(s) == #[trigger] s.subrange(from, to)
                &&& all_white(s.take(from))
                &&& all_white(s.skip(to))
            },
        trim(s).len() > 0 ==> !is_white(trim(s)[0]) && !is_white(trim(s).last()),
{
    lemma_trim_start(s);
    let a = trim_start(s);
    lemma_trim_end(a);
    let t = trim(s);
    let from = s.len() - a.len();
    let to = from + t.len();
    assert(t =~= s.subrange(from, to));
    assert forall|i: int| 0 <= i < s.len() - to implies is_white(#[trigger] s.skip(to)[i]) by {
        assert(a.skip(t.len() as int)[i] == s[to + i]);
    }
    if t.len() > 0 {
        assert(t[0] == a[0]);
    }
}

proof fn lemma_line_end(l: Seq<char>, rest: Seq<char>)
    requires
        free_of(l, '\n'),
        rest.len() == 0 || rest[0] == '\n',
    ensures
        line_end(l + rest) == l.len(),
    decreases l.len(),
{
    let s = l + rest;
    if l.len() > 0 {
        assert(s[0] == l[0]);
        assert(s.drop_first() =~= l.drop_first() + rest);
        assert(free_of(l.drop_first(), '\n')) by {
            assert forall|i: int| 0 <= i < l.drop_first().len() implies l.drop_first()[i] != '\n' by {
                assert(l.drop_first()[i] == l[i + 1]);
            }
        }
        lemma_line_end(l.drop_first(), rest);
    } else {
        assert(s =~= rest);
    }
}

/// A newline ends a line, and takes one carriage return before it with it. What
/// follows has its own lines.
pub proof fn a_newline_ends_a_line(l: Seq<char>, rest: Seq<char>)
    requires
        free_of(l, '\n'),
    ensures
        !(l.len() > 0 && l.last() == '\r') ==> lines(l.push('\n') + rest) == seq![l] + lines(rest),
        lines(l.push('\r').push('\n') + rest) == seq![l] + lines(rest),
{
    let s = l.push('\n') + rest;
    let tail = seq!['\n'] + rest;
    assert(s =~= l + tail);
    lemma_line_end(l, tail);
    assert(s.take(l.len() as int) =~= l);
    assert(s.skip(l.len() as int + 1) =~= rest);
    let c = l.push('\r');
    let t = c.push('\n') + rest;
    assert(t =~= c + tail);
    lemma_line_end(c, tail);
    assert(t.take(c.len() as int) =~= c);
    assert(c.drop_last() =~= l);
    assert(t.skip(c.len() as int + 1) =~= rest);
}

/// Text that no newline ends is one line as it stands, and no text is no line.
pub proof fn an_unended_line_is_kept(l: Seq<char>)
    requires
        free_of(l, '\n'),
    ensures
        lines(l) == if l.len() == 0 {
            Seq::<Seq<char>>::empty()
        } else {
            seq![l]
        },
{
    lemma_line_end(l, seq![]);
    assert(l + Seq::<char>::empty() =~= l);
}

proof fn lemma_word(w: Seq<char>, rest: Seq<char>)
    requires
        none_white(w),
        rest.len() == 0 || is_white(rest[0]),
    ensures
        word(w + rest) == w,
    decreases w.len(),
{
    let s = w + rest;
    if w.len() > 0 {
        assert(s[0] == w[0]);
        assert(s.drop_first() =~= w.drop_first() + rest);
        assert(none_white(w.drop_first())) by {
            assert forall|i: int| 0 <= i < w.drop_first().len() implies !is_white(#[trigger] w.drop_first()[i]) by {
                assert(w.drop_first()[i] == w[i + 1]);
            }
        }
        lemma_word(w.drop_first(), rest);
        assert(seq![w[0]] + w.drop_first() =~= w);
    } else {
        assert(s =~= rest);
        assert(word(s) =~= w);
    }
}

/// White space before a text is trimmed off it, and nothing else.
pub proof fn lemma_leading_white(a: Seq<char>, s: Seq<char>)
    requires
        all_white(a),
        s.len() == 0 || !is_white(s[0]),
    ensures
        trim_start(a + s) == s,
    decreases a.len(),
{
    let t = a + s;
    if a.len() > 0 {
        assert(t[0] == a[0]);
        assert(t.drop_first() =~= a.drop_first() + s);
        assert(all_white(a.drop_first())) by {
            assert forall|i: int| 0 <= i < a.drop_first().len() implies is_white(#[trigger] a.drop_first()[i]) by {
                assert(a.drop_first()[i] == a[i + 1]);
            }
        }
        lemma_leading_white(a.drop_first(), s);
    } else {
        assert(t =~= s);
    }
}

/// The first field is the first unbroken run of what is not white space: all of it,
/// and nothing behind the white space that ends it. White space alone has none.
pub proof fn the_first_field_is_the_first_run(before: Seq<char>, w: Seq<char>, after: Seq<char>)
    requires
        all_white(before),
        none_white(w),
        after.len() == 0 || is_white(after[0]),
    ensures
        w.len() > 0 ==> first_field((before + w) + after) == Some(w),
        first_field(before) is None,
{
    assert((before + w) + after =~= before + (w + after));
    if w.len() > 0 {
        assert((w + after)[0] == w[0]);
        lemma_leading_white(before, w + after);
        lemma_word(w, after);
    }
    assert(before + Seq::<char>::empty() =~= before);
    lemma_leading_white(before, Seq::empty());
}

/// A text stands in another where each of its characters does, one by one.
pub proof fn a_text_stands_character_by_character(s: Seq<char>, p: Seq<char>, i: int)
    ensures
        occurs_at(s, p, i) <==> 0 <= i && i + p.len() <= s.len() && forall|k: int|
            0 <= k < p.len() ==> #[trigger] p[k] == s[i + k],
        occurs_at(s, p, i) ==> occurs(s, p),
{
    if 0 <= i && i + p.len() <= s.len() {
        let part = s.subrange(i, i + p.len());
        if forall|k: int| 0 <= k < p.len() ==> #[trigger] p[k] == s[i + k] {
            assert(part =~= p);
        }
        if part == p {
            assert forall|k: int| 0 <= k < p.len() implies #[trigger] p[k] == s[i + k] by {
                assert(part[k] == s[i + k]);
            }
        }
    }
}

/// What stands behind the first occurrence of a text is all that follows it, an earlier
/// occurrence ruled out.
pub proof fn what_is_behind_follows_the_first(s: Seq<char>, p: Seq<char>, i: int, j: int)
    requires
        first_at(s, p, i),
    ensures
        behind(s, p) == s.skip(i + p.len()),
        occurs_at(s, p, j) ==> i <= j,
{
    let k = choose|k: int| first_at(s, p, k);
    assert(first_at(s, p, k));
    if k < i {
        assert(!occurs_at(s, p, k));
    }
    if i < k {
        assert(!occurs_at(s, p, i));
    }
    if occurs_at(s, p, j) && j < i {
        assert(!occurs_at(s, p, j));
    }
}

} // verus!
