//! Addresses as plain values.
//!
//! The admin listener's address is decided here and bound elsewhere, so an
//! address is held as the numbers it is made of.

use crate::text::{fields, fields_are_some, parse_unsigned, split, texts, unsigned};
use vstd::prelude::*;

verus! {

/// An IP address, version 4 or 6, by its octets or its eight 16-bit groups.
#[derive(Clone, Copy, Debug, PartialEq, Eq, Structural)]
pub enum IpAddr {
    /// The four octets of an IPv4 address, most significant first.
    V4(u8, u8, u8, u8),
    /// The eight groups of an IPv6 address, most significant first.
    V6(u16, u16, u16, u16, u16, u16, u16, u16),
}

/// An IP address together with a port.
#[derive(Clone, Copy, Debug, PartialEq, Eq, Structural)]
pub struct SocketAddr {
    /// The host part.
    pub ip: IpAddr,
    /// The port part.
    pub port: u16,
}

/// The IPv4 loopback address, `127.0.0.1`.
pub open spec fn spec_localhost() -> IpAddr {
    IpAddr::V4(127, 0, 0, 1)
}

/// Returns the IPv4 loopback address, `127.0.0.1`.
pub fn localhost_addr() -> (ip: IpAddr)
    ensures
        ip == spec_localhost(),
{
    IpAddr::V4(127, 0, 0, 1)
}

impl SocketAddr {
    /// Pairs an address with a port.
    pub fn new(ip: IpAddr, port: u16) -> (addr: SocketAddr)
        ensures
            addr == (SocketAddr { ip, port }),
    {
        SocketAddr { ip, port }
    }
}

/// The octet that a field of a dotted address denotes: one to three
/// decimal digits, without a leading zero before another digit, of a value
/// up to 255.
pub open spec fn octet(field: Seq<char>) -> Option<u8> {
    if field.len() <= 3 && (field.len() == 1 || field[0] != '0') {
        match unsigned(field, 255) {
            Some(n) => Some(n as u8),
            None => None,
        }
    } else {
        None
    }
}

/// The IPv4 address that a text denotes: four octets with a dot between
/// each two.
pub open spec fn ipv4(text: Seq<char>) -> Option<IpAddr> {
    let parts = fields(text, '.');
    if parts.len() == 4 && octet(parts[0]) is Some && octet(parts[1]) is Some && octet(
        parts[2],
    ) is Some && octet(parts[3]) is Some {
        Some(IpAddr::V4(octet(parts[0])->0, octet(parts[1])->0, octet(parts[2])->0, octet(parts[3])->0))
    } else {
        None
    }
}

/// Reads one field of a dotted address as an octet.
pub fn parse_octet(field: &str) -> (r: Option<u8>)
    ensures
        r == octet(field@),
{
    let len = field.unicode_len();
    if len > 3 {
        return None;
    }
    if len != 1 && len > 0 && field.get_char(0) == '0' {
        return None;
    }
    match parse_unsigned(field, 255) {
        Some(n) => Some(n as u8),
        None => None,
    }
}

/// Reads a text as an IPv4 address.
pub fn parse_ipv4(text: &str) -> (r: Option<IpAddr>)
    ensures
        r == ipv4(text@),
{
    let parts = split(text, '.');
    if parts.len() != 4 {
        return None;
    }
    proof {
        assert(texts(parts@)[0] == parts@[0]@);
        assert(texts(parts@)[1] == parts@[1]@);
        assert(texts(parts@)[2] == parts@[2]@);
        assert(texts(parts@)[3] == parts@[3]@);
    }
    let a = match parse_octet(parts[0]) {
        Some(a) => a,
        None => return None,
    };
    let b = match parse_octet(parts[1]) {
        Some(b) => b,
        None => return None,
    };
    let c = match parse_octet(parts[2]) {
        Some(c) => c,
        None => return None,
    };
    let d = match parse_octet(parts[3]) {
        Some(d) => d,
        None => return None,
    };
    Some(IpAddr::V4(a, b, c, d))
}

/// Whether a character is a hexadecimal digit, in either case.
pub open spec fn is_hex_digit(c: char) -> bool {
    ('0' <= c <= '9') || ('a' <= c <= 'f') || ('A' <= c <= 'F')
}

/// The value of a hexadecimal digit.
pub open spec fn hex_value(c: char) -> nat {
    if '0' <= c <= '9' {
        (c as int - '0' as int) as nat
    } else if 'a' <= c <= 'f' {
        (c as int - 'a' as int + 10) as nat
    } else {
        (c as int - 'A' as int + 10) as nat
    }
}

/// The number that a text of hexadecimal digits denotes.
pub open spec fn hex_number(digits: Seq<char>) -> nat
    decreases digits.len(),
{
    if digits.len() == 0 {
        0
    } else {
        hex_number(digits.drop_last()) * 16 + hex_value(digits.last())
    }
}

/// The group that a field of an IPv6 address denotes: one to four
/// hexadecimal digits.
pub open spec fn hex_group(field: Seq<char>) -> Option<u16> {
    if 1 <= field.len() <= 4 && (forall|i: int|
        0 <= i < field.len() ==> is_hex_digit(#[trigger] field[i])) {
        Some(hex_number(field) as u16)
    } else {
        None
    }
}

/// The groups that fields denote, where each is a group.
pub open spec fn hex_groups(parts: Seq<Seq<char>>) -> Option<Seq<u16>> {
    if forall|i: int| 0 <= i < parts.len() ==> hex_group(#[trigger] parts[i]) is Some {
        Some(Seq::new(parts.len(), |i: int| hex_group(parts[i])->0))
    } else {
        None
    }
}

/// The two groups that an IPv4 address fills at the end of an IPv6
/// address.
pub open spec fn embedded(ip: IpAddr) -> Seq<u16> {
    match ip {
        IpAddr::V4(a, b, c, d) => seq![(a * 256 + b) as u16, (c * 256 + d) as u16],
        _ => Seq::empty(),
    }
}

/// The groups that fields denote: each field is a group, but for the last,
/// which may be a dotted quad where that is allowed and then stands for two
/// groups.
pub open spec fn groups_of(parts: Seq<Seq<char>>, quad_last: bool) -> Option<Seq<u16>> {
    if quad_last && parts.len() > 0 && ipv4(parts.last()) is Some {
        match hex_groups(parts.drop_last()) {
            Some(groups) => Some(groups + embedded(ipv4(parts.last())->0)),
            None => None,
        }
    } else {
        hex_groups(parts)
    }
}

/// This many groups of zero.
pub open spec fn zero_groups(n: int) -> Seq<u16> {
    Seq::new(n as nat, |i: int| 0u16)
}

/// The eight groups of an address written with a gap: the groups before
/// the gap, the groups after it, and between them as many groups of zero
/// as are missing, which is at least one.
pub open spec fn with_gap(head: Seq<Seq<char>>, tail: Seq<Seq<char>>) -> Option<Seq<u16>> {
    match (groups_of(head, false), groups_of(tail, true)) {
        (Some(h), Some(t)) => if h.len() + t.len() <= 7 {
            Some(h + zero_groups(8 - h.len() - t.len()) + t)
        } else {
            None
        },
        _ => None,
    }
}

/// The eight groups of an address written without a gap.
pub open spec fn without_gap(parts: Seq<Seq<char>>) -> Option<Seq<u16>> {
    match groups_of(parts, true) {
        Some(groups) => if groups.len() == 8 {
            Some(groups)
        } else {
            None
        },
        None => None,
    }
}

/// The eight groups that a text denotes as an IPv6 address.
///
/// The text is groups with a colon between each two. Two colons in a row
/// may stand once, at the start, at the end or between groups, for one or
/// more groups of zero. The last two groups may be written as a dotted
/// quad.
pub open spec fn ipv6_groups(text: Seq<char>) -> Option<Seq<u16>> {
    let parts = fields(text, ':');
    let n = parts.len() as int;
    if n == 3 && parts[0].len() == 0 && parts[1].len() == 0 && parts[2].len() == 0 {
        Some(zero_groups(8))
    } else if n >= 3 && parts[0].len() == 0 && parts[1].len() == 0 {
        with_gap(Seq::empty(), parts.subrange(2, n))
    } else if n >= 3 && parts[n - 1].len() == 0 && parts[n - 2].len() == 0 {
        with_gap(parts.subrange(0, n - 2), Seq::empty())
    } else {
        match parts.index_of_first(Seq::empty()) {
            None => without_gap(parts),
            Some(k) => if 0 < k < n - 1 {
                with_gap(parts.subrange(0, k), parts.subrange(k + 1, n))
            } else {
                None
            },
        }
    }
}

/// The IPv6 address that a text denotes.
pub open spec fn ipv6(text: Seq<char>) -> Option<IpAddr> {
    match ipv6_groups(text) {
        Some(g) => if g.len() == 8 {
            Some(IpAddr::V6(g[0], g[1], g[2], g[3], g[4], g[5], g[6], g[7]))
        } else {
            None
        },
        None => None,
    }
}

/// The address that a text denotes: an IPv4 address, or else an IPv6
/// address.
pub open spec fn ip_of(text: Seq<char>) -> Option<IpAddr> {
    match ipv4(text) {
        Some(ip) => Some(ip),
        None => ipv6(text),
    }
}

/// The least number that this many hexadecimal digits cannot denote.
pub open spec fn hex_limit(digits: nat) -> nat
    decreases digits,
{
    if digits == 0 {
        1
    } else {
        16 * hex_limit((digits - 1) as nat)
    }
}

/// Reads one field of an IPv6 address as a group.
pub fn parse_hex_group(field: &str) -> (r: Option<u16>)
    ensures
        r == hex_group(field@),
{
    let len = field.unicode_len();
    if len == 0 || len > 4 {
        return None;
    }
    let mut value: u32 = 0;
    let mut i: usize = 0;
    while i < len
        invariant
            i <= len <= 4,
            len == field@.len(),
            value == hex_number(field@.subrange(0, i as int)),
            value < hex_limit(i as nat),
            forall|j: int| 0 <= j < i ==> is_hex_digit(#[trigger] field@[j]),
        decreases len - i,
    {
        let c = field.get_char(i);
        let digit: u32 = if c >= '0' && c <= '9' {
            c as u32 - '0' as u32
        } else if c >= 'a' && c <= 'f' {
            c as u32 - 'a' as u32 + 10
        } else if c >= 'A' && c <= 'F' {
            c as u32 - 'A' as u32 + 10
        } else {
            return None;
        };
        proof {
            let longer = field@.subrange(0, i + 1);
            assert(longer.drop_last() =~= field@.subrange(0, i as int));
            assert(longer.last() == c);
            reveal_with_fuel(hex_limit, 6);
        }
        value = value * 16 + digit;
        i += 1;
    }
    proof {
        assert(field@.subrange(0, len as int) =~= field@);
        reveal_with_fuel(hex_limit, 6);
    }
    Some(value as u16)
}

/// Reads some fields of an IPv6 address as groups: those from `from` up
/// to, not including, `to`.
pub fn parse_hex_groups(pieces: &Vec<&str>, from: usize, to: usize) -> (r: Option<Vec<u16>>)
    requires
        from <= to <= pieces@.len(),
    ensures
        match r {
            Some(groups) => hex_groups(texts(pieces@).subrange(from as int, to as int)) == Some(
                groups@,
            ),
            None => hex_groups(texts(pieces@).subrange(from as int, to as int)) is None,
        },
{
    let ghost parts = texts(pieces@).subrange(from as int, to as int);
    let mut groups: Vec<u16> = Vec::new();
    let mut i: usize = from;
    while i < to
        invariant
            from <= i <= to <= pieces@.len(),
            parts == texts(pieces@).subrange(from as int, to as int),
            groups@.len() == i - from,
            forall|j: int| 0 <= j < i - from ==> hex_group(#[trigger] parts[j]) == Some(groups@[j]),
        decreases to - i,
    {
        assert(parts[i - from] == pieces@[i as int]@);
        match parse_hex_group(pieces[i]) {
            Some(group) => {
                groups.push(group);
            },
            None => {
                return None;
            },
        }
        i += 1;
    }
    proof {
        assert(groups@ =~= Seq::new(parts.len(), |i: int| hex_group(parts[i])->0));
    }
    Some(groups)
}

/// Reads some fields of an IPv6 address as groups, the last of them as a
/// dotted quad if it is one and that is allowed.
pub fn parse_groups(pieces: &Vec<&str>, from: usize, to: usize, quad_last: bool) -> (r: Option<
    Vec<u16>,
>)
    requires
        from <= to <= pieces@.len(),
    ensures
        match r {
            Some(groups) => groups_of(texts(pieces@).subrange(from as int, to as int), quad_last)
                == Some(groups@),
            None => groups_of(texts(pieces@).subrange(from as int, to as int), quad_last) is None,
        },
{
    let ghost parts = texts(pieces@).subrange(from as int, to as int);
    if quad_last && from < to {
        assert(parts.last() == pieces@[to - 1]@);
        if let Some(IpAddr::V4(a, b, c, d)) = parse_ipv4(pieces[to - 1]) {
            assert(parts.drop_last() =~= texts(pieces@).subrange(from as int, to - 1));
            let mut groups = match parse_hex_groups(pieces, from, to - 1) {
                Some(groups) => groups,
                None => return None,
            };
            let ghost before = groups@;
            groups.push((a as u16) * 256 + (b as u16));
            groups.push((c as u16) * 256 + (d as u16));
            assert(groups@ =~= before + embedded(IpAddr::V4(a, b, c, d)));
            return Some(groups);
        }
    }
    parse_hex_groups(pieces, from, to)
}

/// Reads the fields before and after a gap as the eight groups of an
/// address: the fields from `head_from` up to `head_to` stand before the
/// gap, those from `tail_from` up to `tail_to` after it.
pub fn parse_with_gap(
    pieces: &Vec<&str>,
    head_from: usize,
    head_to: usize,
    tail_from: usize,
    tail_to: usize,
) -> (r: Option<Vec<u16>>)
    requires
        head_from <= head_to <= pieces@.len(),
        tail_from <= tail_to <= pieces@.len(),
    ensures
        match r {
            Some(groups) => with_gap(
                texts(pieces@).subrange(head_from as int, head_to as int),
                texts(pieces@).subrange(tail_from as int, tail_to as int),
            ) == Some(groups@),
            None => with_gap(
                texts(pieces@).subrange(head_from as int, head_to as int),
                texts(pieces@).subrange(tail_from as int, tail_to as int),
            ) is None,
        },
{
    let head = match parse_groups(pieces, head_from, head_to, false) {
        Some(head) => head,
        None => return None,
    };
    let tail = match parse_groups(pieces, tail_from, tail_to, true) {
        Some(tail) => tail,
        None => return None,
    };
    if head.len() > 7 || tail.len() > 7 - head.len() {
        return None;
    }
    let missing: usize = 8 - head.len() - tail.len();
    let mut groups = head;
    let ghost h = groups@;
    let mut k: usize = 0;
    while k < missing
        invariant
            k <= missing,
            groups@ == h + zero_groups(k as int),
        decreases missing - k,
    {
        groups.push(0u16);
        assert(groups@ =~= h + zero_groups(k + 1));
        k += 1;
    }
    let mut j: usize = 0;
    while j < tail.len()
        invariant
            j <= tail@.len(),
            groups@ == h + zero_groups(missing as int) + tail@.subrange(0, j as int),
        decreases tail@.len() - j,
    {
        groups.push(tail[j]);
        assert(groups@ =~= h + zero_groups(missing as int) + tail@.subrange(0, j + 1));
        j += 1;
    }
    assert(tail@.subrange(0, tail@.len() as int) =~= tail@);
    Some(groups)
}

/// Finds the first empty field.
pub fn first_empty(pieces: &Vec<&str>) -> (r: Option<usize>)
    ensures
        match r {
            Some(k) => texts(pieces@).index_of_first(Seq::empty()) == Some(k as int),
            None => texts(pieces@).index_of_first(Seq::empty()) is None,
        },
{
    let ghost parts = texts(pieces@);
    let mut k: usize = 0;
    while k < pieces.len()
        invariant
            k <= pieces@.len(),
            parts == texts(pieces@),
            forall|j: int| 0 <= j < k ==> (#[trigger] parts[j]).len() > 0,
        decreases pieces@.len() - k,
    {
        if pieces[k].unicode_len() == 0 {
            proof {
                assert(parts[k as int] == pieces@[k as int]@);
                assert(parts[k as int] =~= Seq::<char>::empty());
                parts.index_of_first_ensures(Seq::empty());
                let found = parts.index_of_first(Seq::empty());
                assert(parts.contains(Seq::empty()));
                if found->0 < k {
                    assert(parts[found->0].len() > 0);
                }
            }
            return Some(k);
        }
        assert(parts[k as int] == pieces@[k as int]@);
        k += 1;
    }
    proof {
        parts.index_of_first_ensures(Seq::empty());
        if parts.contains(Seq::empty()) {
            let j = choose|j: int| 0 <= j < parts.len() && parts[j] == Seq::<char>::empty();
            assert(parts[j].len() > 0);
        }
    }
    None
}

/// Reads a text as the eight groups of an IPv6 address.
pub fn parse_ipv6_groups(text: &str) -> (r: Option<Vec<u16>>)
    ensures
        match r {
            Some(groups) => ipv6_groups(text@) == Some(groups@),
            None => ipv6_groups(text@) is None,
        },
{
    let pieces = split(text, ':');
    let n = pieces.len();
    let ghost parts = texts(pieces@);
    proof {
        fields_are_some(text@, ':');
        assert forall|i: int| 0 <= i < n implies #[trigger] parts[i] == pieces@[i]@ by {}
    }
    if n >= 3 {
        let starts = pieces[0].unicode_len() == 0 && pieces[1].unicode_len() == 0;
        let ends = pieces[n - 1].unicode_len() == 0 && pieces[n - 2].unicode_len() == 0;
        if n == 3 && starts && pieces[2].unicode_len() == 0 {
            let zeros = vec![0u16; 8];
            assert(zeros@ =~= zero_groups(8));
            return Some(zeros);
        }
        if starts {
            assert(parts.subrange(0, 0) =~= Seq::<Seq<char>>::empty());
            return parse_with_gap(&pieces, 0, 0, 2, n);
        }
        if ends {
            assert(parts.subrange(0, 0) =~= Seq::<Seq<char>>::empty());
            return parse_with_gap(&pieces, 0, n - 2, 0, 0);
        }
    }
    match first_empty(&pieces) {
        None => {
            assert(parts.subrange(0, n as int) =~= parts);
            match parse_groups(&pieces, 0, n, true) {
                Some(groups) => if groups.len() == 8 {
                    Some(groups)
                } else {
                    None
                },
                None => None,
            }
        },
        Some(k) => {
            if 0 < k && k < n - 1 {
                parse_with_gap(&pieces, 0, k, k + 1, n)
            } else {
                None
            }
        },
    }
}

/// Reads a text as an IPv6 address.
pub fn parse_ipv6(text: &str) -> (r: Option<IpAddr>)
    ensures
        r == ipv6(text@),
{
    match parse_ipv6_groups(text) {
        Some(g) => if g.len() == 8 {
            Some(IpAddr::V6(g[0], g[1], g[2], g[3], g[4], g[5], g[6], g[7]))
        } else {
            None
        },
        None => None,
    }
}

/// Reads a text as an address: an IPv4 address, or else an IPv6 address.
pub fn parse_ip(text: &str) -> (r: Option<IpAddr>)
    ensures
        r == ip_of(text@),
{
    match parse_ipv4(text) {
        Some(ip) => Some(ip),
        None => parse_ipv6(text),
    }
}

} // verus!
