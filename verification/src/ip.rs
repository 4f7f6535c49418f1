//! Internet addresses, networks and routes, and their canonical text.

use vstd::prelude::*;
use crate::text::{decimal_text, hex_text, push_decimal, push_hex};

verus! {

/// The four octets `o` in dotted decimal.
pub open spec fn dotted_quad_text(o: Seq<u8>) -> Seq<char>
    recommends
        o.len() == 4,
{
    decimal_text(o[0] as nat) + "."@ + decimal_text(o[1] as nat) + "."@ + decimal_text(o[2] as nat)
        + "."@ + decimal_text(o[3] as nat)
}

/// The segments `s`, each in hexadecimal without leading zeros, with a colon
/// between neighbours.
pub open spec fn hex_groups_text(s: Seq<u16>) -> Seq<char>
    decreases s.len(),
{
    if s.len() == 0 {
        Seq::empty()
    } else if s.len() == 1 {
        hex_text(s[0] as nat)
    } else {
        hex_groups_text(s.drop_last()) + ":"@ + hex_text(s.last() as nat)
    }
}

/// How many segments in a row are zero, counted from index `i` on.
pub open spec fn zeros_from(s: Seq<u16>, i: int) -> nat
    decreases s.len() - i,
{
    if 0 <= i < s.len() && s[i] == 0 {
        1 + zeros_from(s, i + 1)
    } else {
        0
    }
}

/// Start and length of the longest run of zero segments that starts at index
/// `i` or later, the leftmost of them where several are as long; `(0, 0)`
/// where no segment from `i` on is zero.
pub open spec fn longest_zero_run_from(s: Seq<u16>, i: int) -> (int, nat)
    decreases s.len() - i,
{
    if 0 <= i < s.len() {
        let later = longest_zero_run_from(s, i + 1);
        let here = zeros_from(s, i);
        if here > 0 && here >= later.1 {
            (i, here)
        } else {
            later
        }
    } else {
        (0, 0)
    }
}

/// Start and length of the leftmost longest run of zero segments in `s`.
pub open spec fn longest_zero_run(s: Seq<u16>) -> (int, nat) {
    longest_zero_run_from(s, 0)
}

/// Whether the eight segments `s` hold an IPv4 address mapped into IPv6:
/// five zero segments and then `ffff`.
pub open spec fn is_ipv4_mapped(s: Seq<u16>) -> bool
    recommends
        s.len() == 8,
{
    s[0] == 0 && s[1] == 0 && s[2] == 0 && s[3] == 0 && s[4] == 0 && s[5] == 0xffff
}

/// The octets of the IPv4 address in the last two of the eight segments `s`.
pub open spec fn mapped_octets(s: Seq<u16>) -> Seq<u8>
    recommends
        s.len() == 8,
{
    seq![(s[6] / 256) as u8, (s[6] % 256) as u8, (s[7] / 256) as u8, (s[7] % 256) as u8]
}

/// The canonical text of the IPv6 address with the eight segments `s`.
///
/// A mapped IPv4 address is `::ffff:` and the IPv4 address in dotted decimal.
/// Otherwise the leftmost longest run of zero segments, where it is longer
/// than one segment, is replaced by `::`, and the segments before and after
/// it are written in hexadecimal with colons between them.
pub open spec fn ipv6_text(s: Seq<u16>) -> Seq<char>
    recommends
        s.len() == 8,
{
    if is_ipv4_mapped(s) {
        "::ffff:"@ + dotted_quad_text(mapped_octets(s))
    } else {
        let (start, len) = longest_zero_run(s);
        if len > 1 {
            hex_groups_text(s.take(start)) + "::"@ + hex_groups_text(s.skip(start + len))
        } else {
            hex_groups_text(s)
        }
    }
}

/// Whether `len` zero segments stand in a row from index `start` on, no run
/// of zeros in `s` is longer, and none that starts further left is as long.
/// Where `s` holds no zero, only `start == 0` with `len == 0` is such a run.
pub open spec fn is_leftmost_longest_zero_run(s: Seq<u16>, start: int, len: nat) -> bool {
    &&& 0 <= start <= s.len()
    &&& zeros_from(s, start) == len
    &&& forall|j: int| 0 <= j < s.len() ==> zeros_from(s, j) <= len
    &&& forall|j: int| 0 <= j < start ==> zeros_from(s, j) < len
}

/// `longest_zero_run` names the leftmost longest run of zeros, and nothing
/// else is one.
pub proof fn lemma_longest_zero_run(s: Seq<u16>)
    ensures
        is_leftmost_longest_zero_run(s, longest_zero_run(s).0, longest_zero_run(s).1),
        longest_zero_run(s).0 + longest_zero_run(s).1 <= s.len(),
        forall|start: int, len: nat|
            is_leftmost_longest_zero_run(s, start, len) ==> (start, len) == longest_zero_run(s),
{
    lemma_longest_zero_run_from(s, 0);
    let found = longest_zero_run(s);
    assert forall|start: int, len: nat| is_leftmost_longest_zero_run(s, start, len) implies (
        start,
        len,
    ) == found by {
        if start < s.len() {
            assert(zeros_from(s, start) <= found.1);
        }
        if found.0 < s.len() {
            assert(zeros_from(s, found.0) <= len);
        }
        assert(len == found.1);
        if start < found.0 {
            assert(zeros_from(s, start) < found.1);
        }
        if found.0 < start {
            assert(zeros_from(s, found.0) < len);
        }
    }
}

proof fn lemma_zeros_from_bound(s: Seq<u16>, i: int)
    requires
        0 <= i <= s.len(),
    ensures
        i + zeros_from(s, i) <= s.len(),
    decreases s.len() - i,
{
    if i < s.len() && s[i] == 0 {
        lemma_zeros_from_bound(s, i + 1);
    }
}

proof fn lemma_longest_zero_run_from(s: Seq<u16>, i: int)
    requires
        0 <= i <= s.len(),
    ensures
        longest_zero_run_from(s, i).1 == 0 ==> longest_zero_run_from(s, i).0 == 0,
        longest_zero_run_from(s, i).1 > 0 ==> i <= longest_zero_run_from(s, i).0 < s.len(),
        longest_zero_run_from(s, i).0 + longest_zero_run_from(s, i).1 <= s.len(),
        longest_zero_run_from(s, i).1 > 0 ==> zeros_from(s, longest_zero_run_from(s, i).0)
            == longest_zero_run_from(s, i).1,
        forall|j: int| i <= j < s.len() ==> zeros_from(s, j) <= longest_zero_run_from(s, i).1,
        forall|j: int|
            i <= j < longest_zero_run_from(s, i).0 ==> zeros_from(s, j) < longest_zero_run_from(
                s,
                i,
            ).1,
    decreases s.len() - i,
{
    if i < s.len() {
        lemma_longest_zero_run_from(s, i + 1);
        lemma_zeros_from_bound(s, i);
    }
}

/// An IPv4 address: four octets, the first of them first in the text.
#[derive(Clone, Copy, Debug)]
pub struct Ipv4Addr {
    pub octets: [u8; 4],
}

impl Ipv4Addr {
    /// The address `a.b.c.d`.
    pub fn new(a: u8, b: u8, c: u8, d: u8) -> (r: Ipv4Addr)
        ensures
            r.octets@ == seq![a, b, c, d],
    {
        let r = Ipv4Addr { octets: [a, b, c, d] };
        assert(r.octets@ =~= seq![a, b, c, d]);
        r
    }

    /// The address in dotted decimal.
    pub open spec fn text(self) -> Seq<char> {
        dotted_quad_text(self.octets@)
    }

    /// Appends the address in dotted decimal.
    pub fn push_to(&self, out: &mut String)
        ensures
            final(out)@ == old(out)@ + self.text(),
    {
        push_decimal(out, self.octets[0] as u32);
        out.append(".");
        push_decimal(out, self.octets[1] as u32);
        out.append(".");
        push_decimal(out, self.octets[2] as u32);
        out.append(".");
        push_decimal(out, self.octets[3] as u32);
        assert(out@ =~= old(out)@ + self.text());
    }

    /// The address in dotted decimal.
    pub fn to_string(&self) -> (s: String)
        ensures
            s@ == self.text(),
    {
        let mut s = String::new();
        self.push_to(&mut s);
        assert(s@ =~= self.text());
        s
    }
}

/// An IPv6 address: eight segments of sixteen bits, the first of them first
/// in the text.
#[derive(Clone, Copy, Debug)]
pub struct Ipv6Addr {
    pub segments: [u16; 8],
}

impl Ipv6Addr {
    /// The address with the segments `a` to `h`.
    pub fn new(a: u16, b: u16, c: u16, d: u16, e: u16, f: u16, g: u16, h: u16) -> (r: Ipv6Addr)
        ensures
            r.segments@ == seq![a, b, c, d, e, f, g, h],
    {
        let r = Ipv6Addr { segments: [a, b, c, d, e, f, g, h] };
        assert(r.segments@ =~= seq![a, b, c, d, e, f, g, h]);
        r
    }

    /// The address in its canonical text.
    pub open spec fn text(self) -> Seq<char> {
        ipv6_text(self.segments@)
    }

    /// Whether the address holds an IPv4 address mapped into IPv6.
    pub fn is_ipv4_mapped(&self) -> (r: bool)
        ensures
            r == is_ipv4_mapped(self.segments@),
    {
        self.segments[0] == 0 && self.segments[1] == 0 && self.segments[2] == 0 && self.segments[3]
            == 0 && self.segments[4] == 0 && self.segments[5] == 0xffff
    }

    /// The IPv4 address in the last two segments.
    pub fn mapped_ipv4(&self) -> (r: Ipv4Addr)
        ensures
            r.octets@ == mapped_octets(self.segments@),
    {
        let hi = self.segments[6];
        let lo = self.segments[7];
        Ipv4Addr::new((hi / 256) as u8, (hi % 256) as u8, (lo / 256) as u8, (lo % 256) as u8)
    }

    /// Start and length of the leftmost longest run of zero segments.
    pub fn longest_zero_run(&self) -> (r: (usize, usize))
        ensures
            (r.0 as int, r.1 as nat) == longest_zero_run(self.segments@),
            r.0 + r.1 <= 8,
    {
        let mut start: usize = 0;
        let mut len: usize = 0;
        let mut run: usize = 0;
        let mut i: usize = 8;
        while i > 0
            invariant
                i <= 8,
                run <= 8 - i,
                start + len <= 8,
                run == zeros_from(self.segments@, i as int),
                (start as int, len as nat) == longest_zero_run_from(self.segments@, i as int),
            decreases i,
        {
            i -= 1;
            if self.segments[i] == 0 {
                run += 1;
            } else {
                run = 0;
            }
            if run > 0 && run >= len {
                start = i;
                len = run;
            }
        }
        (start, len)
    }

    /// Appends the segments from index `lo` up to `hi`, in hexadecimal with
    /// colons between them.
    pub fn push_groups(&self, out: &mut String, lo: usize, hi: usize)
        requires
            lo <= hi <= 8,
        ensures
            final(out)@ == old(out)@ + hex_groups_text(
                self.segments@.subrange(lo as int, hi as int),
            ),
    {
        let mut i: usize = lo;
        assert(out@ =~= old(out)@ + hex_groups_text(self.segments@.subrange(lo as int, i as int)));
        while i < hi
            invariant
                lo <= i <= hi <= 8,
                out@ == old(out)@ + hex_groups_text(self.segments@.subrange(lo as int, i as int)),
            decreases hi - i,
        {
            if i > lo {
                out.append(":");
            }
            push_hex(out, self.segments[i]);
            proof {
                let done = self.segments@.subrange(lo as int, i as int);
                let next = self.segments@.subrange(lo as int, i + 1);
                assert(next.drop_last() =~= done);
                assert(next.last() == self.segments@[i as int]);
                assert(out@ =~= old(out)@ + hex_groups_text(next));
            }
            i += 1;
        }
    }

    /// Appends the address in its canonical text.
    pub fn push_to(&self, out: &mut String)
        ensures
            final(out)@ == old(out)@ + self.text(),
    {
        if self.is_ipv4_mapped() {
            out.append("::ffff:");
            self.mapped_ipv4().push_to(out);
        } else {
            let (start, len) = self.longest_zero_run();
            if len > 1 {
                self.push_groups(out, 0, start);
                out.append("::");
                self.push_groups(out, start + len, 8);
            } else {
                self.push_groups(out, 0, 8);
                assert(self.segments@.subrange(0, 8) =~= self.segments@);
            }
        }
        assert(out@ =~= old(out)@ + self.text());
    }

    /// The address in its canonical text.
    pub fn to_string(&self) -> (s: String)
        ensures
            s@ == self.text(),
    {
        let mut s = String::new();
        self.push_to(&mut s);
        assert(s@ =~= self.text());
        s
    }
}

/// An address of either family.
#[derive(Clone, Copy, Debug)]
pub enum IpAddr {
    V4(Ipv4Addr),
    V6(Ipv6Addr),
}

impl IpAddr {
    /// The address in the canonical text of its family.
    pub open spec fn text(self) -> Seq<char> {
        match self {
            IpAddr::V4(a) => a.text(),
            IpAddr::V6(a) => a.text(),
        }
    }

    /// Appends the address in its canonical text.
    pub fn push_to(&self, out: &mut String)
        ensures
            final(out)@ == old(out)@ + self.text(),
    {
        match self {
            IpAddr::V4(a) => a.push_to(out),
            IpAddr::V6(a) => a.push_to(out),
        }
    }

    /// The address in its canonical text.
    pub fn to_string(&self) -> (s: String)
        ensures
            s@ == self.text(),
    {
        let mut s = String::new();
        self.push_to(&mut s);
        assert(s@ =~= self.text());
        s
    }
}

/// An address with the length of its network prefix.
#[derive(Clone, Copy, Debug)]
pub struct IpNetwork {
    pub addr: IpAddr,
    pub prefix: u8,
}

impl IpNetwork {
    /// The network as text: the address, a slash, the prefix length in decimal.
    pub open spec fn text(self) -> Seq<char> {
        self.addr.text() + "/"@ + decimal_text(self.prefix as nat)
    }

    /// Appends the network as text.
    pub fn push_to(&self, out: &mut String)
        ensures
            final(out)@ == old(out)@ + self.text(),
    {
        self.addr.push_to(out);
        out.append("/");
        push_decimal(out, self.prefix as u32);
        assert(out@ =~= old(out)@ + self.text());
    }

    /// The network as text.
    pub fn to_string(&self) -> (s: String)
        ensures
            s@ == self.text(),
    {
        let mut s = String::new();
        self.push_to(&mut s);
        assert(s@ =~= self.text());
        s
    }
}

/// A route: the network it leads to and the gateway it goes through.
#[derive(Clone, Copy, Debug)]
pub struct NetworkRoute {
    pub destination: IpNetwork,
    pub gateway: IpAddr,
}

} // verus!
