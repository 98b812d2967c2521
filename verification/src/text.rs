//! Text primitives: numbers in a base, lines, fields and substring search,
//! all over the characters of a string.

use vstd::prelude::*;

verus! {

/// `String::push` appends one character to the end of the string.
pub assume_specification[ String::push ](s: &mut String, c: char)
    ensures
        final(s)@ == old(s)@.push(c),
;

/// The character that stands for the value `d` in bases up to sixteen, letters
/// in lower case.
pub open spec fn digit(d: nat) -> char {
    if d < 10 {
        (48 + d) as char
    } else {
        (87 + d) as char
    }
}

/// The numeral of `n` in `base`, most significant digit first and without
/// leading zeros.
pub open spec fn numeral(n: nat, base: nat) -> Seq<char>
    decreases n,
{
    if n < base || base < 2 {
        seq![digit(n)]
    } else {
        proof {
            assert(n / base < n) by (nonlinear_arith)
                requires
                    n >= base,
                    base >= 2,
            ;
        }
        numeral(n / base, base).push(digit(n % base))
    }
}

fn digit_char(d: u64) -> (c: char)
    requires
        d < 16,
    ensures
        c == digit(d as nat),
{
    let b: u8 = d as u8;
    if d < 10 {
        (48 + b) as char
    } else {
        (87 + b) as char
    }
}

/// Append the numeral of `n` in `base`.
pub fn push_numeral(out: &mut String, n: u64, base: u64)
    requires
        2 <= base <= 16,
    ensures
        final(out)@ == old(out)@ + numeral(n as nat, base as nat),
    decreases n,
{
    if n < base {
        out.push(digit_char(n));
        assert(out@ =~= old(out)@ + numeral(n as nat, base as nat));
    } else {
        assert(n / base < n) by (nonlinear_arith)
            requires
                n >= base,
                base >= 2,
        ;
        push_numeral(out, n / base, base);
        out.push(digit_char(n % base));
        assert(out@ =~= old(out)@ + numeral(n as nat, base as nat));
    }
}

/// The numeral of a signed number, a minus sign before a negative one.
pub open spec fn signed_numeral(n: int) -> Seq<char> {
    if n < 0 {
        "-"@ + numeral((-n) as nat, 10)
    } else {
        numeral(n as nat, 10)
    }
}

/// Append the decimal numeral of `n`.
pub fn push_signed(out: &mut String, n: i32)
    ensures
        final(out)@ == old(out)@ + signed_numeral(n as int),
{
    let wide: i64 = n as i64;
    if wide < 0 {
        out.append("-");
        push_numeral(out, (-wide) as u64, 10);
        assert(out@ =~= old(out)@ + signed_numeral(n as int));
    } else {
        push_numeral(out, wide as u64, 10);
    }
}

/// The characters of a string, by position.
pub fn chars_of(s: &str) -> (r: Vec<char>)
    ensures
        r@ == s@,
{
    let mut out: Vec<char> = Vec::new();
    for c in it: s.chars()
        invariant
            it.seq() == s@,
            out@ == s@.take(it.index() as int),
    {
        out.push(c);
        assert(out@ =~= s@.take(it.index() + 1));
    }
    assert(out@ =~= s@);
    out
}

/// The string that the characters `from..to` spell.
pub fn string_of(v: &Vec<char>, from: usize, to: usize) -> (r: String)
    requires
        from <= to <= v.len(),
    ensures
        r@ == v@.subrange(from as int, to as int),
{
    let mut out = String::new();
    let mut i: usize = from;
    while i < to
        invariant
            from <= i <= to <= v.len(),
            out@ == v@.subrange(from as int, i as int),
        decreases to - i,
    {
        out.push(v[i]);
        i = i + 1;
        assert(out@ =~= v@.subrange(from as int, i as int));
    }
    out
}

/// Unicode white space.
pub open spec fn is_white(c: char) -> bool {
    let u = c as u32;
    ||| 0x9 <= u <= 0xd
    ||| u == 0x20
    ||| u == 0x85
    ||| u == 0xa0
    ||| u == 0x1680
    ||| 0x2000 <= u <= 0x200a
    ||| u == 0x2028
    ||| u == 0x2029
    ||| u == 0x202f
    ||| u == 0x205f
    ||| u == 0x3000
}

fn white(c: char) -> (r: bool)
    ensures
        r == is_white(c),
{
    let u: u32 = c as u32;
    (0x9 <= u && u <= 0xd) || u == 0x20 || u == 0x85 || u == 0xa0 || u == 0x1680 || (0x2000 <= u && u <= 0x200a)
        || u == 0x2028 || u == 0x2029 || u == 0x202f || u == 0x205f || u == 0x3000
}

/// `s` without its leading white space.
pub open spec fn trim_start(s: Seq<char>) -> Seq<char>
    decreases s.len(),
{
    if s.len() > 0 && is_white(s[0]) {
        trim_start(s.drop_first())
    } else {
        s
    }
}

/// `s` without its trailing white space.
pub open spec fn trim_end(s: Seq<char>) -> Seq<char>
    decreases s.len(),
{
    if s.len() > 0 && is_white(s.last()) {
        trim_end(s.drop_last())
    } else {
        s
    }
}

pub open spec fn trim(s: Seq<char>) -> Seq<char> {
    trim_end(trim_start(s))
}

/// `s` up to its first white space.
pub open spec fn word(s: Seq<char>) -> Seq<char>
    decreases s.len(),
{
    if s.len() == 0 || is_white(s[0]) {
        seq![]
    } else {
        seq![s[0]] + word(s.drop_first())
    }
}

/// The first of the fields that white space separates.
pub open spec fn first_field(s: Seq<char>) -> Option<Seq<char>> {
    let t = trim_start(s);
    if t.len() == 0 {
        None
    } else {
        Some(word(t))
    }
}

/// `p` stands in `s` at index `i`.
pub open spec fn occurs_at(s: Seq<char>, p: Seq<char>, i: int) -> bool {
    0 <= i && i + p.len() <= s.len() && s.subrange(i, i + p.len()) == p
}

/// `p` stands somewhere in `s`.
pub open spec fn occurs(s: Seq<char>, p: Seq<char>) -> bool {
    exists|i: int| occurs_at(s, p, i)
}

/// What stands between two texts stands in the whole.
pub proof fn lemma_occurs_inside(before: Seq<char>, p: Seq<char>, after: Seq<char>)
    ensures
        occurs((before + p) + after, p),
{
    let s = (before + p) + after;
    assert(s.subrange(before.len() as int, (before.len() + p.len()) as int) =~= p);
    assert(occurs_at(s, p, before.len() as int));
}

/// `i` is where `p` first stands in `s`.
pub open spec fn first_at(s: Seq<char>, p: Seq<char>, i: int) -> bool {
    &&& occurs_at(s, p, i)
    &&& forall|j: int| 0 <= j < i ==> !occurs_at(s, p, j)
}

/// What stands in `s` behind the first `p`.
pub open spec fn behind(s: Seq<char>, p: Seq<char>) -> Seq<char> {
    s.skip((choose|i: int| first_at(s, p, i)) + p.len())
}

/// Where the first line of `s` ends: at a newline or at the end.
pub open spec fn line_end(s: Seq<char>) -> nat
    decreases s.len(),
{
    if s.len() == 0 || s[0] == '\n' {
        0
    } else {
        1 + line_end(s.drop_first())
    }
}

/// A newline-terminated line without the carriage return before the newline.
pub open spec fn strip_return(line: Seq<char>) -> Seq<char> {
    if line.len() > 0 && line.last() == '\r' {
        line.drop_last()
    } else {
        line
    }
}

/// The lines of `s`. A newline ends a line, so none follows the last newline;
/// a carriage return belongs to the newline after it and to no other.
pub open spec fn lines(s: Seq<char>) -> Seq<Seq<char>>
    decreases s.len(),
{
    let n = line_end(s);
    if s.len() == 0 {
        seq![]
    } else if n >= s.len() {
        seq![s]
    } else {
        seq![strip_return(s.take(n as int))] + lines(s.skip(n as int + 1))
    }
}

fn skip_white(v: &Vec<char>) -> (from: usize)
    ensures
        from <= v.len(),
        v@.skip(from as int) == trim_start(v@),
{
    let mut i: usize = 0;
    assert(v@.skip(0) =~= v@);
    while i < v.len() && white(v[i])
        invariant
            i <= v.len(),
            trim_start(v@.skip(i as int)) == trim_start(v@),
        decreases v.len() - i,
    {
        assert(v@.skip(i as int).drop_first() =~= v@.skip(i + 1));
        i = i + 1;
    }
    i
}

/// A string without the white space around it.
pub fn trimmed(s: &str) -> (r: String)
    ensures
        r@ == trim(s@),
{
    let v = chars_of(s);
    assert(v@.skip(0) =~= s@);
    trimmed_from(&v, 0)
}

/// The characters from index `from` on, without the white space around them.
pub fn trimmed_from(v: &Vec<char>, from: usize) -> (r: String)
    requires
        from <= v.len(),
    ensures
        r@ == trim(v@.skip(from as int)),
{
    let mut i: usize = from;
    while i < v.len() && white(v[i])
        invariant
            from <= i <= v.len(),
            trim_start(v@.skip(i as int)) == trim_start(v@.skip(from as int)),
        decreases v.len() - i,
    {
        assert(v@.skip(i as int).drop_first() =~= v@.skip(i + 1));
        i = i + 1;
    }
    let ghost body = trim_start(v@.skip(from as int));
    let mut j: usize = v.len();
    assert(v@.subrange(i as int, j as int) =~= body);
    while j > i && white(v[j - 1])
        invariant
            i <= j <= v.len(),
            trim_end(v@.subrange(i as int, j as int)) == trim_end(body),
        decreases j,
    {
        assert(v@.subrange(i as int, j as int).drop_last() =~= v@.subrange(i as int, j - 1));
        j = j - 1;
    }
    string_of(v, i, j)
}

fn matches_at(v: &Vec<char>, p: &Vec<char>, at: usize) -> (r: bool)
    requires
        at <= v.len(),
    ensures
        r == occurs_at(v@, p@, at as int),
{
    if p.len() > v.len() - at {
        return false;
    }
    let mut i: usize = 0;
    while i < p.len()
        invariant
            i <= p.len(),
            at + p.len() <= v.len(),
            forall|j: int| 0 <= j < i ==> v@[at + j] == p@[j],
        decreases p.len() - i,
    {
        if v[at + i] != p[i] {
            assert(v@.subrange(at as int, at + p.len())[i as int] != p@[i as int]);
            return false;
        }
        i = i + 1;
    }
    assert(v@.subrange(at as int, at + p.len()) =~= p@);
    true
}

/// Where `p` first stands in `v`.
pub fn find(v: &Vec<char>, p: &str) -> (r: Option<usize>)
    ensures
        match r {
            Some(i) => first_at(v@, p@, i as int),
            None => !occurs(v@, p@),
        },
{
    let pat = chars_of(p);
    let mut i: usize = 0;
    while i <= v.len()
        invariant
            i <= v.len() + 1,
            pat@ == p@,
            forall|j: int| 0 <= j < i ==> !occurs_at(v@, p@, j),
        decreases v.len() + 1 - i,
    {
        if matches_at(v, &pat, i) {
            return Some(i);
        }
        if i == v.len() {
            return None;
        }
        i = i + 1;
    }
    None
}

/// What stands in `v` behind the first `p`, without the white space around it.
/// `None` where `p` does not stand in `v`.
pub fn find_behind(v: &Vec<char>, p: &str) -> (r: Option<String>)
    ensures
        match r {
            Some(t) => occurs(v@, p@) && t@ == trim(behind(v@, p@)),
            None => !occurs(v@, p@),
        },
{
    match find(v, p) {
        Some(i) => {
            let n: usize = p.unicode_len();
            let total: usize = v.len();
            assert(i + n <= total);
            proof {
                let j = choose|j: int| first_at(v@, p@, j);
                assert(first_at(v@, p@, j));
                assert(!(i < j)) by {
                    assert(occurs_at(v@, p@, i as int));
                }
                assert(!(j < i));
                assert(occurs_at(v@, p@, i as int));
            }
            Some(trimmed_from(v, i + n))
        }
        None => None,
    }
}

/// Whether `v`, past its leading white space, starts with `p`.
pub fn starts_with_trimmed(v: &Vec<char>, p: &str) -> (r: bool)
    ensures
        r == occurs_at(trim_start(v@), p@, 0),
{
    let pat = chars_of(p);
    let from: usize = skip_white(v);
    let r = matches_at(v, &pat, from);
    let ghost t = trim_start(v@);
    assert(from + p@.len() <= v.len() ==> v@.subrange(from as int, from + p@.len()) =~= t.subrange(0, p@.len() as int));
    r
}

/// Whether the first field of `v` is `p`.
pub fn first_field_is(v: &Vec<char>, p: &str) -> (r: bool)
    ensures
        r == (first_field(v@) == Some(p@)),
{
    let from: usize = skip_white(v);
    let ghost t = trim_start(v@);
    if from == v.len() {
        assert(t.len() == 0);
        return false;
    }
    let mut to: usize = from;
    assert(v@.subrange(from as int, to as int) + word(v@.skip(to as int)) =~= word(t));
    while to < v.len() && !white(v[to])
        invariant
            from <= to <= v.len(),
            v@.subrange(from as int, to as int) + word(v@.skip(to as int)) == word(t),
        decreases v.len() - to,
    {
        assert(v@.skip(to as int).drop_first() =~= v@.skip(to + 1));
        assert(v@.subrange(from as int, to as int) + word(v@.skip(to as int)) =~= v@.subrange(from as int, to + 1)
            + word(v@.skip(to + 1)));
        to = to + 1;
    }
    assert(v@.subrange(from as int, to as int) =~= word(t));
    let field = string_of(v, from, to);
    let want = p.to_owned();
    field == want
}

fn end_of_line(v: &Vec<char>, from: usize) -> (n: usize)
    requires
        from <= v.len(),
    ensures
        from <= n <= v.len(),
        n == from + line_end(v@.skip(from as int)),
        n < v.len() ==> v@[n as int] == '\n',
{
    let mut i: usize = from;
    while i < v.len() && v[i] != '\n'
        invariant
            from <= i <= v.len(),
            i + line_end(v@.skip(i as int)) == from + line_end(v@.skip(from as int)),
        decreases v.len() - i,
    {
        assert(v@.skip(i as int).drop_first() =~= v@.skip(i + 1));
        i = i + 1;
    }
    i
}

/// The lines of a string, as characters.
pub fn lines_of(s: &str) -> (r: Vec<Vec<char>>)
    ensures
        r.len() == lines(s@).len(),
        forall|i: int| 0 <= i < r.len() ==> (#[trigger] r[i])@ == lines(s@)[i],
{
    let v = chars_of(s);
    let mut out: Vec<Vec<char>> = Vec::new();
    let mut from: usize = 0;
    assert(v@.skip(0) =~= v@);
    assert(Seq::<Seq<char>>::empty() + lines(v@) =~= lines(v@));
    let ghost mut done: Seq<Seq<char>> = Seq::empty();
    while from < v.len()
        invariant
            from <= v.len(),
            v@ == s@,
            done.len() == out.len(),
            forall|i: int| 0 <= i < out.len() ==> (#[trigger] out[i])@ == done[i],
            done + lines(v@.skip(from as int)) == lines(s@),
        decreases v.len() - from,
    {
        let ghost rest = v@.skip(from as int);
        let end: usize = end_of_line(&v, from);
        let mut to: usize = end;
        if end < v.len() && end > from && v[end - 1] == '\r' {
            to = end - 1;
        }
        let line = copy_chars(&v, from, to);
        proof {
            let n = line_end(rest);
            if n >= rest.len() {
                assert(line@ =~= rest);
                assert(lines(rest) == seq![rest]);
            } else {
                assert(line@ =~= strip_return(rest.take(n as int)));
                assert(rest.skip(n as int + 1) =~= v@.skip(end + 1));
            }
            done = done.push(line@);
        }
        out.push(line);
        if end < v.len() {
            from = end + 1;
        } else {
            from = end;
        }
        assert(done + lines(v@.skip(from as int)) =~= lines(s@));
    }
    assert(done =~= lines(s@));
    out
}

fn copy_chars(v: &Vec<char>, from: usize, to: usize) -> (r: Vec<char>)
    requires
        from <= to <= v.len(),
    ensures
        r@ == v@.subrange(from as int, to as int),
{
    let mut out: Vec<char> = Vec::new();
    let mut i: usize = from;
    while i < to
        invariant
            from <= i <= to <= v.len(),
            out@ == v@.subrange(from as int, i as int),
        decreases to - i,
    {
        out.push(v[i]);
        i = i + 1;
        assert(out@ =~= v@.subrange(from as int, i as int));
    }
    out
}

} // verus!
