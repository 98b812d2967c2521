//! IP addresses as plain values, with the classification the routing logic asks
//! for and the canonical text form that route and firewall commands take.

use vstd::prelude::*;
use crate::text::{numeral, push_numeral};

verus! {

/// An IPv4 address, octets in the order they are written.
#[derive(Debug, Clone, Copy, PartialEq, Eq)]
pub struct Ipv4Addr {
    pub octets: [u8; 4],
}

/// An IPv6 address, 16-bit segments in the order they are written.
#[derive(Debug, Clone, Copy, PartialEq, Eq)]
pub struct Ipv6Addr {
    pub segments: [u16; 8],
}

/// An address of either family.
#[derive(Debug, Clone, Copy, PartialEq, Eq)]
pub enum IpAddr {
    V4(Ipv4Addr),
    V6(Ipv6Addr),
}

impl Ipv4Addr {
    pub open spec fn loopback(self) -> bool {
        self.octets@[0] == 127
    }

    pub open spec fn unspecified(self) -> bool {
        forall|i: int| 0 <= i < 4 ==> self.octets@[i] == 0
    }

    /// Dotted decimal.
    pub open spec fn text(self) -> Seq<char> {
        numeral(self.octets@[0] as nat, 10) + "."@ + numeral(self.octets@[1] as nat, 10) + "."@
            + numeral(self.octets@[2] as nat, 10) + "."@ + numeral(self.octets@[3] as nat, 10)
    }

    pub fn new(a: u8, b: u8, c: u8, d: u8) -> (r: Self)
        ensures
            r.octets@ == seq![a, b, c, d],
    {
        Ipv4Addr { octets: [a, b, c, d] }
    }

    /// Inside `127.0.0.0/8`.
    pub fn is_loopback(&self) -> (r: bool)
        ensures
            r == self.loopback(),
    {
        self.octets[0] == 127
    }

    /// `0.0.0.0`.
    pub fn is_unspecified(&self) -> (r: bool)
        ensures
            r == self.unspecified(),
    {
        let r = self.octets[0] == 0 && self.octets[1] == 0 && self.octets[2] == 0 && self.octets[3] == 0;
        assert(r ==> self.unspecified()) by {
            if r {
                assert forall|i: int| 0 <= i < 4 implies self.octets@[i] == 0 by {
                    assert(i == 0 || i == 1 || i == 2 || i == 3);
                }
            }
        }
        r
    }

    pub fn to_text(&self) -> (r: String)
        ensures
            r@ == self.text(),
    {
        let mut out = String::new();
        push_numeral(&mut out, self.octets[0] as u64, 10);
        out.append(".");
        push_numeral(&mut out, self.octets[1] as u64, 10);
        out.append(".");
        push_numeral(&mut out, self.octets[2] as u64, 10);
        out.append(".");
        push_numeral(&mut out, self.octets[3] as u64, 10);
        assert(out@ =~= self.text());
        out
    }
}

/// How many segments of `s`, from index `i` on, are zero without a break.
pub open spec fn zeros_from(s: Seq<u16>, i: int) -> nat
    decreases s.len() - i,
{
    if 0 <= i < s.len() && s[i] == 0 {
        1 + zeros_from(s, i + 1)
    } else {
        0
    }
}

/// The first of the longest zero runs that start before index `n`, as its start
/// and its length.
pub open spec fn longest_zeros(s: Seq<u16>, n: nat) -> (int, nat)
    decreases n,
{
    if n == 0 {
        (0, 0)
    } else {
        let best = longest_zeros(s, (n - 1) as nat);
        let here = zeros_from(s, n - 1);
        if here > best.1 {
            (n - 1, here)
        } else {
            best
        }
    }
}

/// Segments in lower-case hexadecimal, separated by colons.
pub open spec fn groups(s: Seq<u16>) -> Seq<char>
    decreases s.len(),
{
    if s.len() == 0 {
        seq![]
    } else if s.len() == 1 {
        numeral(s[0] as nat, 16)
    } else {
        groups(s.drop_last()) + ":"@ + numeral(s.last() as nat, 16)
    }
}

proof fn lemma_zeros_bound(s: Seq<u16>, i: int)
    requires
        0 <= i <= s.len(),
    ensures
        i + zeros_from(s, i) <= s.len(),
    decreases s.len() - i,
{
    if i < s.len() && s[i] == 0 {
        lemma_zeros_bound(s, i + 1);
    }
}

proof fn lemma_longest_bound(s: Seq<u16>, n: nat)
    requires
        n <= s.len(),
    ensures
        0 <= longest_zeros(s, n).0,
        longest_zeros(s, n).0 + longest_zeros(s, n).1 <= s.len(),
    decreases n,
{
    if n > 0 {
        lemma_longest_bound(s, (n - 1) as nat);
        lemma_zeros_bound(s, n - 1);
    }
}

impl Ipv6Addr {
    /// The embedded IPv4 octets lie in segments six and seven: `::ffff:a.b.c.d`.
    pub open spec fn mapped(self) -> bool {
        &&& self.segments@[0] == 0
        &&& self.segments@[1] == 0
        &&& self.segments@[2] == 0
        &&& self.segments@[3] == 0
        &&& self.segments@[4] == 0
        &&& self.segments@[5] == 0xffff
    }

    pub open spec fn mapped_octets(self) -> Seq<u8> {
        seq![
            (self.segments@[6] / 256) as u8,
            (self.segments@[6] % 256) as u8,
            (self.segments@[7] / 256) as u8,
            (self.segments@[7] % 256) as u8,
        ]
    }

    pub open spec fn loopback(self) -> bool {
        &&& forall|i: int| 0 <= i < 7 ==> self.segments@[i] == 0
        &&& self.segments@[7] == 1
    }

    pub open spec fn unspecified(self) -> bool {
        forall|i: int| 0 <= i < 8 ==> self.segments@[i] == 0
    }

    /// An IPv4-mapped address keeps its dotted part; otherwise the first of the
    /// longest runs of at least two zero segments is written `::`.
    pub open spec fn text(self) -> Seq<char> {
        let s = self.segments@;
        let run = longest_zeros(s, 8);
        if self.mapped() {
            let o = self.mapped_octets();
            "::ffff:"@ + (numeral(o[0] as nat, 10) + "."@ + numeral(o[1] as nat, 10) + "."@
                + numeral(o[2] as nat, 10) + "."@ + numeral(o[3] as nat, 10))
        } else if run.1 >= 2 {
            groups(s.take(run.0)) + "::"@ + groups(s.skip(run.0 + run.1))
        } else {
            groups(s)
        }
    }

    pub fn new(a: u16, b: u16, c: u16, d: u16, e: u16, f: u16, g: u16, h: u16) -> (r: Self)
        ensures
            r.segments@ == seq![a, b, c, d, e, f, g, h],
    {
        Ipv6Addr { segments: [a, b, c, d, e, f, g, h] }
    }

    /// The address whose sixteen octets, most significant first, are given.
    pub fn from_octets(o: [u8; 16]) -> (r: Self)
        ensures
            forall|i: int| 0 <= i < 8 ==> r.segments@[i] == 256 * o@[2 * i] + o@[2 * i + 1],
    {
        let r = Ipv6Addr::new(
            o[0] as u16 * 256 + o[1] as u16,
            o[2] as u16 * 256 + o[3] as u16,
            o[4] as u16 * 256 + o[5] as u16,
            o[6] as u16 * 256 + o[7] as u16,
            o[8] as u16 * 256 + o[9] as u16,
            o[10] as u16 * 256 + o[11] as u16,
            o[12] as u16 * 256 + o[13] as u16,
            o[14] as u16 * 256 + o[15] as u16,
        );
        assert forall|i: int| 0 <= i < 8 implies r.segments@[i] == 256 * o@[2 * i] + o@[2 * i + 1] by {
            assert(i == 0 || i == 1 || i == 2 || i == 3 || i == 4 || i == 5 || i == 6 || i == 7);
        }
        r
    }

    /// The sixteen octets, most significant first.
    pub fn octets(&self) -> (r: [u8; 16])
        ensures
            forall|i: int| 0 <= i < 8 ==> self.segments@[i] == 256 * r@[2 * i] + r@[2 * i + 1],
    {
        let s = &self.segments;
        let r: [u8; 16] = [
            (s[0] / 256) as u8,
            (s[0] % 256) as u8,
            (s[1] / 256) as u8,
            (s[1] % 256) as u8,
            (s[2] / 256) as u8,
            (s[2] % 256) as u8,
            (s[3] / 256) as u8,
            (s[3] % 256) as u8,
            (s[4] / 256) as u8,
            (s[4] % 256) as u8,
            (s[5] / 256) as u8,
            (s[5] % 256) as u8,
            (s[6] / 256) as u8,
            (s[6] % 256) as u8,
            (s[7] / 256) as u8,
            (s[7] % 256) as u8,
        ];
        assert forall|i: int| 0 <= i < 8 implies self.segments@[i] == 256 * r@[2 * i] + r@[2 * i + 1] by {
            assert(i == 0 || i == 1 || i == 2 || i == 3 || i == 4 || i == 5 || i == 6 || i == 7);
        }
        r
    }

    /// `::1`.
    pub fn is_loopback(&self) -> (r: bool)
        ensures
            r == self.loopback(),
    {
        let mut i: usize = 0;
        while i < 7
            invariant
                i <= 7,
                forall|j: int| 0 <= j < i ==> self.segments@[j] == 0,
            decreases 7 - i,
        {
            if self.segments[i] != 0 {
                return false;
            }
            i = i + 1;
        }
        self.segments[7] == 1
    }

    /// `::`.
    pub fn is_unspecified(&self) -> (r: bool)
        ensures
            r == self.unspecified(),
    {
        let mut i: usize = 0;
        while i < 8
            invariant
                i <= 8,
                forall|j: int| 0 <= j < i ==> self.segments@[j] == 0,
            decreases 8 - i,
        {
            if self.segments[i] != 0 {
                return false;
            }
            i = i + 1;
        }
        true
    }

    /// The IPv4 address that `::ffff:a.b.c.d` stands for.
    pub fn to_ipv4_mapped(&self) -> (r: Option<Ipv4Addr>)
        ensures
            r is Some <==> self.mapped(),
            r matches Some(v4) ==> v4.octets@ == self.mapped_octets(),
    {
        let s = &self.segments;
        if s[0] == 0 && s[1] == 0 && s[2] == 0 && s[3] == 0 && s[4] == 0 && s[5] == 0xffff {
            Some(Ipv4Addr::new((s[6] / 256) as u8, (s[6] % 256) as u8, (s[7] / 256) as u8, (s[7] % 256) as u8))
        } else {
            None
        }
    }

    fn zero_run_at(&self, start: usize) -> (len: usize)
        requires
            start <= 8,
        ensures
            len == zeros_from(self.segments@, start as int),
        decreases 8 - start,
    {
        if start < 8 && self.segments[start] == 0 {
            proof {
                lemma_zeros_bound(self.segments@, start + 1);
            }
            1 + self.zero_run_at(start + 1)
        } else {
            0
        }
    }

    fn push_groups(&self, out: &mut String, from: usize, to: usize)
        requires
            from <= to <= 8,
        ensures
            final(out)@ == old(out)@ + groups(self.segments@.subrange(from as int, to as int)),
        decreases to,
    {
        if from < to {
            let ghost part = self.segments@.subrange(from as int, to as int);
            if from + 1 < to {
                self.push_groups(out, from, to - 1);
                out.append(":");
                assert(part.drop_last() =~= self.segments@.subrange(from as int, to - 1));
            }
            push_numeral(out, self.segments[to - 1] as u64, 16);
            assert(out@ =~= old(out)@ + groups(part));
        } else {
            assert(out@ =~= old(out)@ + groups(self.segments@.subrange(from as int, to as int)));
        }
    }

    pub fn to_text(&self) -> (r: String)
        ensures
            r@ == self.text(),
    {
        let mut out = String::new();
        if let Some(v4) = self.to_ipv4_mapped() {
            out.append("::ffff:");
            out.append(v4.to_text().as_str());
            assert(out@ =~= self.text());
            return out;
        }
        let mut start: usize = 0;
        let mut len: usize = 0;
        let mut i: usize = 0;
        while i < 8
            invariant
                i <= 8,
                (start as int, len as nat) == longest_zeros(self.segments@, i as nat),
            decreases 8 - i,
        {
            let here: usize = self.zero_run_at(i);
            if here > len {
                start = i;
                len = here;
            }
            i = i + 1;
        }
        proof {
            lemma_longest_bound(self.segments@, 8);
        }
        if len >= 2 {
            self.push_groups(&mut out, 0, start);
            out.append("::");
            self.push_groups(&mut out, start + len, 8);
            assert(self.segments@.take(start as int) =~= self.segments@.subrange(0, start as int));
            assert(self.segments@.skip(start + len) =~= self.segments@.subrange(start + len, 8));
        } else {
            self.push_groups(&mut out, 0, 8);
            assert(self.segments@.subrange(0, 8) =~= self.segments@);
        }
        assert(out@ =~= self.text());
        out
    }
}

impl IpAddr {
    /// A loopback destination, an IPv4-mapped one counted as the IPv4 address
    /// it stands for.
    pub open spec fn canonical_loopback(self) -> bool {
        match self {
            IpAddr::V4(v4) => v4.loopback(),
            IpAddr::V6(v6) => if v6.mapped() {
                v6.mapped_octets()[0] == 127
            } else {
                v6.loopback()
            },
        }
    }

    pub open spec fn unspecified(self) -> bool {
        match self {
            IpAddr::V4(v4) => v4.unspecified(),
            IpAddr::V6(v6) => v6.unspecified(),
        }
    }

    pub open spec fn text(self) -> Seq<char> {
        match self {
            IpAddr::V4(v4) => v4.text(),
            IpAddr::V6(v6) => v6.text(),
        }
    }

    /// The IPv4 address behind an IPv4-mapped one, every other address as it is.
    pub fn to_canonical(&self) -> (r: Self)
        ensures
            match *self {
                IpAddr::V6(v6) if v6.mapped() => r matches IpAddr::V4(v4) && v4.octets@ == v6.mapped_octets(),
                _ => r == *self,
            },
    {
        if let IpAddr::V6(v6) = self {
            if let Some(v4) = v6.to_ipv4_mapped() {
                return IpAddr::V4(v4);
            }
        }
        *self
    }

    pub fn is_loopback(&self) -> (r: bool)
        ensures
            r == match *self {
                IpAddr::V4(v4) => v4.loopback(),
                IpAddr::V6(v6) => v6.loopback(),
            },
    {
        match self {
            IpAddr::V4(v4) => v4.is_loopback(),
            IpAddr::V6(v6) => v6.is_loopback(),
        }
    }

    pub fn is_unspecified(&self) -> (r: bool)
        ensures
            r == self.unspecified(),
    {
        match self {
            IpAddr::V4(v4) => v4.is_unspecified(),
            IpAddr::V6(v6) => v6.is_unspecified(),
        }
    }

    pub fn to_text(&self) -> (r: String)
        ensures
            r@ == self.text(),
    {
        match self {
            IpAddr::V4(v4) => v4.to_text(),
            IpAddr::V6(v6) => v6.to_text(),
        }
    }
}

} // verus!
