//! Socket addresses as plain values, and how they are written out.

use crate::text::{decimal, hexadecimal, push_decimal, push_hexadecimal};
use vstd::prelude::*;
use vstd::string::*;

verus! {

/// An IPv4 address and a port. The address is held as its four octets in one
/// `u32`, most significant octet first.
#[derive(Clone, Copy, Debug, PartialEq, Eq, Hash, Structural)]
pub struct SocketAddressV4 {
    pub ip: u32,
    pub port: u16,
}

/// An IPv6 address and a port, with the flow information and the scope that
/// go with them. The address is held as its eight segments in one `u128`, most
/// significant segment first.
#[derive(Clone, Copy, Debug, PartialEq, Eq, Hash, Structural)]
pub struct SocketAddressV6 {
    pub ip: u128,
    pub port: u16,
    pub flowinfo: u32,
    pub scope_id: u32,
}

/// The address of one end of a datagram exchange. Two addresses are equal
/// when they are of the same family and all their fields are equal.
#[derive(Clone, Copy, Debug, PartialEq, Eq, Hash, Structural)]
pub enum SocketAddress {
    V4(SocketAddressV4),
    V6(SocketAddressV6),
}

/// The four octets of an IPv4 address, first octet first.
pub open spec fn octets(ip: u32) -> Seq<nat> {
    seq![
        (ip / 0x100_0000) as nat,
        (ip / 0x1_0000 % 0x100) as nat,
        (ip / 0x100 % 0x100) as nat,
        (ip % 0x100) as nat,
    ]
}

/// An IPv4 address in dotted decimal notation.
pub open spec fn ipv4_text(ip: u32) -> Seq<char> {
    decimal(octets(ip)[0]) + seq!['.'] + decimal(octets(ip)[1]) + seq!['.'] + decimal(
        octets(ip)[2],
    ) + seq!['.'] + decimal(octets(ip)[3])
}

/// The eight segments of an IPv6 address, first segment first.
pub open spec fn segments(ip: u128) -> Seq<nat> {
    seq![
        (ip / 0x1_0000_0000_0000_0000_0000_0000_0000 % 0x1_0000) as nat,
        (ip / 0x1_0000_0000_0000_0000_0000_0000 % 0x1_0000) as nat,
        (ip / 0x1_0000_0000_0000_0000_0000 % 0x1_0000) as nat,
        (ip / 0x1_0000_0000_0000_0000 % 0x1_0000) as nat,
        (ip / 0x1_0000_0000_0000 % 0x1_0000) as nat,
        (ip / 0x1_0000_0000 % 0x1_0000) as nat,
        (ip / 0x1_0000 % 0x1_0000) as nat,
        (ip % 0x1_0000) as nat,
    ]
}

/// How many segments in a row are zero in `segs`, counted from place `i` on.
pub open spec fn zeros_from(segs: Seq<nat>, i: int) -> nat
    decreases segs.len() - i,
{
    if 0 <= i < segs.len() && segs[i] == 0 {
        1 + zeros_from(segs, i + 1)
    } else {
        0
    }
}

/// Among the first `n` places of `segs`, the leftmost of those from which the
/// most zero segments follow in a row.
pub open spec fn longest_zeros(segs: Seq<nat>, n: int) -> int
    decreases n,
{
    if n <= 1 {
        0
    } else {
        let best = longest_zeros(segs, n - 1);
        if zeros_from(segs, n - 1) > zeros_from(segs, best) {
            n - 1
        } else {
            best
        }
    }
}

/// Segments in hexadecimal notation, with a colon between each two.
pub open spec fn groups(segs: Seq<nat>) -> Seq<char>
    decreases segs.len(),
{
    if segs.len() == 0 {
        Seq::empty()
    } else if segs.len() == 1 {
        hexadecimal(segs[0])
    } else {
        groups(segs.drop_last()) + seq![':'] + hexadecimal(segs.last())
    }
}

/// An IPv6 address in its shortest usual notation.
///
/// An address that stands for an IPv4 address (`::ffff:0:0/96`) is written
/// as `::ffff:` and that address in dotted decimal notation. In any other
/// address the longest run of zero segments, the leftmost if there are
/// several, is left out and written `::`, provided it has two segments or more;
/// the other segments are written in hexadecimal without leading zeros.
pub open spec fn ipv6_text(ip: u128) -> Seq<char> {
    let segs = segments(ip);
    let start = longest_zeros(segs, 8);
    let len = zeros_from(segs, start);
    if ip / 0x1_0000_0000 == 0xffff {
        seq![':', ':', 'f', 'f', 'f', 'f', ':'] + ipv4_text((ip % 0x1_0000_0000) as u32)
    } else if len >= 2 {
        groups(segs.subrange(0, start)) + seq![':', ':'] + groups(segs.subrange(start + len, 8))
    } else {
        groups(segs)
    }
}

/// What [`longest_zeros`] picks: a place before `n` from which at least as many
/// zero segments follow as from any other place before `n`, and more than
/// from any place to its left.
pub proof fn lemma_longest_zeros(segs: Seq<nat>, n: int)
    requires
        1 <= n,
    ensures
        0 <= longest_zeros(segs, n) < n,
        forall|j: int|
            0 <= j < n ==> #[trigger] zeros_from(segs, j) <= zeros_from(
                segs,
                longest_zeros(segs, n),
            ),
        forall|j: int|
            0 <= j < longest_zeros(segs, n) ==> #[trigger] zeros_from(segs, j) < zeros_from(
                segs,
                longest_zeros(segs, n),
            ),
    decreases n,
{
    if n > 1 {
        lemma_longest_zeros(segs, n - 1);
    }
}

impl SocketAddressV4 {
    /// The address written out: `a.b.c.d:port`.
    pub open spec fn text(self) -> Seq<char> {
        ipv4_text(self.ip) + seq![':'] + decimal(self.port as nat)
    }
}

impl SocketAddressV6 {
    /// The address written out: `[address]:port`, with `%` and the scope after
    /// the address where the scope is not zero. The flow information is not
    /// written.
    pub open spec fn text(self) -> Seq<char> {
        seq!['['] + ipv6_text(self.ip) + (if self.scope_id != 0 {
            seq!['%'] + decimal(self.scope_id as nat)
        } else {
            Seq::empty()
        }) + seq![']', ':'] + decimal(self.port as nat)
    }
}

impl SocketAddress {
    /// The address written out, as its family writes it.
    pub open spec fn text(self) -> Seq<char> {
        match self {
            SocketAddress::V4(v4) => v4.text(),
            SocketAddress::V6(v6) => v6.text(),
        }
    }

    /// The address written out.
    pub fn to_string(&self) -> (s: String)
        ensures
            s@ == self.text(),
    {
        let mut out = String::new();
        match *self {
            SocketAddress::V4(v4) => {
                proof {
                    reveal_strlit(":");
                }
                push_ipv4(&mut out, v4.ip);
                out.append(":");
                push_decimal(&mut out, v4.port as u32);
                assert(out@ =~= v4.text());
            },
            SocketAddress::V6(v6) => {
                proof {
                    reveal_strlit("[");
                    reveal_strlit("%");
                    reveal_strlit("]:");
                }
                out.append("[");
                push_ipv6(&mut out, v6.ip);
                if v6.scope_id != 0 {
                    out.append("%");
                    push_decimal(&mut out, v6.scope_id);
                }
                out.append("]:");
                push_decimal(&mut out, v6.port as u32);
                assert(out@ =~= v6.text());
            },
        }
        out
    }
}

/// Appends an IPv4 address in dotted decimal notation to `out`.
fn push_ipv4(out: &mut String, ip: u32)
    ensures
        final(out)@ == old(out)@ + ipv4_text(ip),
{
    proof {
        reveal_strlit(".");
    }
    push_decimal(out, ip / 0x100_0000);
    out.append(".");
    push_decimal(out, ip / 0x1_0000 % 0x100);
    out.append(".");
    push_decimal(out, ip / 0x100 % 0x100);
    out.append(".");
    push_decimal(out, ip % 0x100);
    assert(out@ =~= old(out)@ + ipv4_text(ip));
}

/// Segment `i` of an IPv6 address.
fn segment(ip: u128, i: usize) -> (seg: u32)
    requires
        i < 8,
    ensures
        seg == segments(ip)[i as int],
{
    let shifted: u128 = match i {
        0 => ip / 0x1_0000_0000_0000_0000_0000_0000_0000,
        1 => ip / 0x1_0000_0000_0000_0000_0000_0000,
        2 => ip / 0x1_0000_0000_0000_0000_0000,
        3 => ip / 0x1_0000_0000_0000_0000,
        4 => ip / 0x1_0000_0000_0000,
        5 => ip / 0x1_0000_0000,
        6 => ip / 0x1_0000,
        _ => ip,
    };
    (shifted % 0x1_0000) as u32
}

/// How many segments in a row are zero, counted from segment `i` on.
fn count_zeros(ip: u128, i: usize) -> (n: usize)
    requires
        i <= 8,
    ensures
        n == zeros_from(segments(ip), i as int),
        i + n <= 8,
    decreases 8 - i,
{
    if i < 8 && segment(ip, i) == 0 {
        1 + count_zeros(ip, i + 1)
    } else {
        0
    }
}

/// One more segment at the end of a run of segments adds a colon, unless the
/// run was empty, and that segment in hexadecimal notation.
proof fn lemma_groups_next(segs: Seq<nat>, from: int, i: int)
    requires
        0 <= from <= i < segs.len(),
    ensures
        groups(segs.subrange(from, i + 1)) == if i == from {
            hexadecimal(segs[i])
        } else {
            groups(segs.subrange(from, i)) + seq![':'] + hexadecimal(segs[i])
        },
{
    assert(segs.subrange(from, i + 1).drop_last() =~= segs.subrange(from, i));
}

/// Appends the segments from `from` up to, not including, `to` to `out`, in
/// hexadecimal notation with a colon between each two.
fn push_groups(out: &mut String, ip: u128, from: usize, to: usize)
    requires
        from <= to <= 8,
    ensures
        final(out)@ == old(out)@ + groups(segments(ip).subrange(from as int, to as int)),
{
    let ghost segs = segments(ip);
    let mut i: usize = from;
    while i < to
        invariant
            from <= i <= to <= 8,
            segs == segments(ip),
            out@ == old(out)@ + groups(segs.subrange(from as int, i as int)),
        decreases to - i,
    {
        if i > from {
            proof {
                reveal_strlit(":");
            }
            out.append(":");
        }
        let seg = segment(ip, i);
        push_hexadecimal(out, seg);
        proof {
            lemma_groups_next(segs, from as int, i as int);
            assert(out@ =~= old(out)@ + groups(segs.subrange(from as int, i + 1)));
        }
        i += 1;
    }
}

/// Appends an IPv6 address in its shortest usual notation to `out`.
fn push_ipv6(out: &mut String, ip: u128)
    ensures
        final(out)@ == old(out)@ + ipv6_text(ip),
{
    if ip / 0x1_0000_0000 == 0xffff {
        proof {
            reveal_strlit("::ffff:");
        }
        out.append("::ffff:");
        push_ipv4(out, (ip % 0x1_0000_0000) as u32);
        assert(out@ =~= old(out)@ + ipv6_text(ip));
        return ;
    }
    let ghost segs = segments(ip);
    let mut start: usize = 0;
    let mut len: usize = count_zeros(ip, 0);
    let mut i: usize = 1;
    while i < 8
        invariant
            1 <= i <= 8,
            segs == segments(ip),
            start == longest_zeros(segs, i as int),
            len == zeros_from(segs, start as int),
            start < i,
            start + len <= 8,
        decreases 8 - i,
    {
        let here = count_zeros(ip, i);
        if here > len {
            start = i;
            len = here;
        }
        i += 1;
    }
    if len >= 2 {
        proof {
            reveal_strlit("::");
        }
        push_groups(out, ip, 0, start);
        out.append("::");
        push_groups(out, ip, start + len, 8);
        assert(out@ =~= old(out)@ + ipv6_text(ip));
    } else {
        push_groups(out, ip, 0, 8);
        assert(segs.subrange(0, 8) =~= segs);
    }
}

} // verus!
