//! Text forms of numbers and addresses.

use crate::addr::IpAddr;
use crate::addr::Ipv4Addr;
use crate::addr::Ipv6Addr;
use vstd::prelude::*;
use vstd::string::StringExecFns;

verus! {

/// The character that stands for the digit `d` in base 16 (and, below ten, in
/// base 10), in lower case.
pub open spec fn digit_char(d: int) -> char {
    if d == 0 {
        '0'
    } else if d == 1 {
        '1'
    } else if d == 2 {
        '2'
    } else if d == 3 {
        '3'
    } else if d == 4 {
        '4'
    } else if d == 5 {
        '5'
    } else if d == 6 {
        '6'
    } else if d == 7 {
        '7'
    } else if d == 8 {
        '8'
    } else if d == 9 {
        '9'
    } else if d == 10 {
        'a'
    } else if d == 11 {
        'b'
    } else if d == 12 {
        'c'
    } else if d == 13 {
        'd'
    } else if d == 14 {
        'e'
    } else {
        'f'
    }
}

/// `n` in decimal, most significant digit first, without leading zeros;
/// zero is the single digit `0`.
pub open spec fn decimal_text(n: nat) -> Seq<char>
    decreases n,
{
    if n < 10 {
        seq![digit_char(n as int)]
    } else {
        decimal_text(n / 10).push(digit_char((n % 10) as int))
    }
}

/// `n` in lower-case hexadecimal, most significant digit first, without
/// leading zeros; zero is the single digit `0`.
pub open spec fn hex_text(n: nat) -> Seq<char>
    decreases n,
{
    if n < 16 {
        seq![digit_char(n as int)]
    } else {
        hex_text(n / 16).push(digit_char((n % 16) as int))
    }
}

/// Appends one character to a string (`String::push`): the string afterwards
/// is the string before followed by `c`.
#[verifier::external_body]
fn push_char(s: &mut String, c: char)
    ensures
        final(s)@ == old(s)@.push(c),
{
    s.push(c);
}

fn digit_of(d: u32) -> (c: char)
    requires
        d < 16,
    ensures
        c == digit_char(d as int),
{
    if d == 0 {
        '0'
    } else if d == 1 {
        '1'
    } else if d == 2 {
        '2'
    } else if d == 3 {
        '3'
    } else if d == 4 {
        '4'
    } else if d == 5 {
        '5'
    } else if d == 6 {
        '6'
    } else if d == 7 {
        '7'
    } else if d == 8 {
        '8'
    } else if d == 9 {
        '9'
    } else if d == 10 {
        'a'
    } else if d == 11 {
        'b'
    } else if d == 12 {
        'c'
    } else if d == 13 {
        'd'
    } else if d == 14 {
        'e'
    } else {
        'f'
    }
}

/// Appends `n` in decimal to `out`.
pub fn push_decimal(out: &mut String, n: u32)
    ensures
        final(out)@ == old(out)@ + decimal_text(n as nat),
    decreases n,
{
    if n >= 10 {
        push_decimal(out, n / 10);
    }
    push_char(out, digit_of(n % 10));
    assert(out@ =~= old(out)@ + decimal_text(n as nat));
}

/// Appends `n` in lower-case hexadecimal to `out`.
pub fn push_hex(out: &mut String, n: u32)
    ensures
        final(out)@ == old(out)@ + hex_text(n as nat),
    decreases n,
{
    if n >= 16 {
        push_hex(out, n / 16);
    }
    push_char(out, digit_of(n % 16));
    assert(out@ =~= old(out)@ + hex_text(n as nat));
}

/// The dotted-decimal form of an IPv4 address.
pub open spec fn ipv4_text(a: Ipv4Addr) -> Seq<char> {
    decimal_text(a.a as nat).push('.') + decimal_text(a.b as nat).push('.') + decimal_text(
        a.c as nat,
    ).push('.') + decimal_text(a.d as nat)
}

/// The number of consecutive zero segments that start at position `i`.
pub open spec fn zero_run(segs: Seq<u16>, i: int) -> int
    decreases segs.len() - i,
{
    if 0 <= i < segs.len() && segs[i] == 0 {
        1 + zero_run(segs, i + 1)
    } else {
        0
    }
}

/// Start and length of the longest run of zero segments among the runs that
/// start before position `k`; of two runs of the same length the earlier one.
/// With no zero segment before `k` the length is 0.
pub open spec fn longest_zero_run(segs: Seq<u16>, k: int) -> (int, int)
    decreases k,
{
    if k <= 0 {
        (0, 0)
    } else {
        let best = longest_zero_run(segs, k - 1);
        let here = zero_run(segs, k - 1);
        if here > best.1 {
            (k - 1, here)
        } else {
            best
        }
    }
}

/// The segments at positions `from..to` in hexadecimal, with a colon between
/// neighbours.
pub open spec fn groups_text(segs: Seq<u16>, from: int, to: int) -> Seq<char>
    decreases to - from,
{
    if from >= to {
        Seq::empty()
    } else if from + 1 == to {
        hex_text(segs[from] as nat)
    } else {
        groups_text(segs, from, to - 1).push(':') + hex_text(segs[to - 1] as nat)
    }
}

/// True iff the address is an IPv4 address mapped into IPv6 (`::ffff:a.b.c.d`).
pub open spec fn is_v4_mapped(a: Ipv6Addr) -> bool {
    a.s0 == 0 && a.s1 == 0 && a.s2 == 0 && a.s3 == 0 && a.s4 == 0 && a.s5 == 0xffff
}

/// The IPv4 address held in the last two segments of `a`.
pub open spec fn embedded_v4(a: Ipv6Addr) -> Ipv4Addr {
    Ipv4Addr {
        a: crate::addr::high_byte(a.s6),
        b: crate::addr::low_byte(a.s6),
        c: crate::addr::high_byte(a.s7),
        d: crate::addr::low_byte(a.s7),
    }
}

/// The canonical text form of an IPv6 address: lower-case hexadecimal
/// segments without leading zeros, the longest run of two or more zero
/// segments (the first of them, if several are as long) written as `::`, and
/// an IPv4-mapped address with its last four octets in dotted decimal.
pub open spec fn ipv6_text(a: Ipv6Addr) -> Seq<char> {
    let segs = a.segments_spec();
    let run = longest_zero_run(segs, 8);
    if is_v4_mapped(a) {
        Seq::<char>::empty().push(':').push(':').push('f').push('f').push('f').push('f').push(':')
            + ipv4_text(embedded_v4(a))
    } else if run.1 >= 2 {
        groups_text(segs, 0, run.0).push(':').push(':') + groups_text(segs, run.0 + run.1, 8)
    } else {
        groups_text(segs, 0, 8)
    }
}

/// The text form of an address of either family.
pub open spec fn ip_text(a: IpAddr) -> Seq<char> {
    match a {
        IpAddr::V4(v4) => ipv4_text(v4),
        IpAddr::V6(v6) => ipv6_text(v6),
    }
}

/// Appends the dotted-decimal form of `a` to `out`.
pub fn push_ipv4(out: &mut String, a: &Ipv4Addr)
    ensures
        final(out)@ == old(out)@ + ipv4_text(*a),
{
    push_decimal(out, a.a as u32);
    push_char(out, '.');
    push_decimal(out, a.b as u32);
    push_char(out, '.');
    push_decimal(out, a.c as u32);
    push_char(out, '.');
    push_decimal(out, a.d as u32);
    assert(out@ =~= old(out)@ + ipv4_text(*a));
}

fn zero_run_at(segs: &[u16; 8], i: usize) -> (n: usize)
    requires
        i <= 8,
    ensures
        n == zero_run(segs@, i as int),
        i + n <= 8,
{
    let mut j: usize = i;
    while j < 8 && segs[j] == 0
        invariant
            i <= j <= 8,
            zero_run(segs@, i as int) == (j - i) + zero_run(segs@, j as int),
        decreases 8 - j,
    {
        j += 1;
    }
    j - i
}

fn find_longest_zero_run(segs: &[u16; 8]) -> (r: (usize, usize))
    ensures
        (r.0 as int, r.1 as int) == longest_zero_run(segs@, 8),
        r.0 + r.1 <= 8,
{
    let mut start: usize = 0;
    let mut len: usize = 0;
    let mut k: usize = 0;
    while k < 8
        invariant
            k <= 8,
            start + len <= 8,
            (start as int, len as int) == longest_zero_run(segs@, k as int),
        decreases 8 - k,
    {
        let here: usize = zero_run_at(segs, k);
        if here > len {
            start = k;
            len = here;
        }
        k += 1;
    }
    (start, len)
}

fn push_groups(out: &mut String, segs: &[u16; 8], from: usize, to: usize)
    requires
        from <= to <= 8,
    ensures
        final(out)@ == old(out)@ + groups_text(segs@, from as int, to as int),
{
    let mut i: usize = from;
    assert(out@ =~= old(out)@ + groups_text(segs@, from as int, i as int));
    while i < to
        invariant
            from <= i <= to <= 8,
            out@ == old(out)@ + groups_text(segs@, from as int, i as int),
        decreases to - i,
    {
        if i > from {
            push_char(out, ':');
        }
        push_hex(out, segs[i] as u32);
        i += 1;
        assert(out@ =~= old(out)@ + groups_text(segs@, from as int, i as int));
    }
}

/// Appends the canonical text form of `a` to `out`.
pub fn push_ipv6(out: &mut String, a: &Ipv6Addr)
    ensures
        final(out)@ == old(out)@ + ipv6_text(*a),
{
    if a.s0 == 0 && a.s1 == 0 && a.s2 == 0 && a.s3 == 0 && a.s4 == 0 && a.s5 == 0xffff {
        push_char(out, ':');
        push_char(out, ':');
        push_char(out, 'f');
        push_char(out, 'f');
        push_char(out, 'f');
        push_char(out, 'f');
        push_char(out, ':');
        let v4 = Ipv4Addr::new(
            (a.s6 / 256) as u8,
            (a.s6 % 256) as u8,
            (a.s7 / 256) as u8,
            (a.s7 % 256) as u8,
        );
        push_ipv4(out, &v4);
        assert(out@ =~= old(out)@ + ipv6_text(*a));
    } else {
        let segs = a.segments();
        let run = find_longest_zero_run(&segs);
        if run.1 >= 2 {
            push_groups(out, &segs, 0, run.0);
            push_char(out, ':');
            push_char(out, ':');
            push_groups(out, &segs, run.0 + run.1, 8);
        } else {
            push_groups(out, &segs, 0, 8);
        }
        assert(out@ =~= old(out)@ + ipv6_text(*a));
    }
}

/// Appends the text form of `a` to `out`.
pub fn push_ip(out: &mut String, a: &IpAddr)
    ensures
        final(out)@ == old(out)@ + ip_text(*a),
{
    match a {
        IpAddr::V4(v4) => push_ipv4(out, v4),
        IpAddr::V6(v6) => push_ipv6(out, v6),
    }
}

impl Ipv4Addr {
    /// The address in dotted decimal.
    pub fn to_text(&self) -> (s: String)
        ensures
            s@ == ipv4_text(*self),
    {
        let mut s = String::new();
        push_ipv4(&mut s, self);
        assert(s@ =~= ipv4_text(*self));
        s
    }
}

impl Ipv6Addr {
    /// The address in its canonical text form.
    pub fn to_text(&self) -> (s: String)
        ensures
            s@ == ipv6_text(*self),
    {
        let mut s = String::new();
        push_ipv6(&mut s, self);
        assert(s@ =~= ipv6_text(*self));
        s
    }
}

impl IpAddr {
    /// The address as text: dotted decimal for version 4, the canonical
    /// colon form for version 6.
    pub fn to_text(&self) -> (s: String)
        ensures
            s@ == ip_text(*self),
    {
        let mut s = String::new();
        push_ip(&mut s, self);
        assert(s@ =~= ip_text(*self));
        s
    }
}

} // verus!
