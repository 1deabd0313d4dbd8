//! IPv6-only address parsing.
//!
//! The accepted syntaxes are `[ipv6]:port`, a bare IPv6 literal with the
//! default port, a bare port on the IPv6 loopback, and `localhost:port` on
//! the loopback. IPv4 socket addresses are
//! recognised and rejected as such; anything else is invalid. Inputs longer
//! than 64 characters are rejected out of hand: an implementation bound that
//! every accepted syntax fits unless a numeral is padded with dozens of
//! leading zeros.
//!
//! The grammar is stated as spec functions (`spec_parse_ipv6` and the
//! address-level functions) and both parsers are proved to decide it
//! exactly.
use vstd::prelude::*;

use vstd::slice::{slice_subrange, slice_to_vec};

use crate::json::chars_of;

verus! {

/// The port used when a syntax leaves it out.
pub const DEFAULT_PORT: u16 = 8080;

/// The longest accepted input, in characters: an implementation bound that
/// every accepted syntax fits unless a numeral carries dozens of leading
/// zeros.
pub const MAX_ADDRESS_LEN: usize = 64;

/// An IPv6 address as its eight 16-bit segments.
#[derive(Debug, Clone, Copy, PartialEq, Eq)]
pub struct Ipv6Address {
    /// The eight segments, most significant first.
    pub segments: [u16; 8],
}

/// An IPv6 address with a port.
#[derive(Debug, Clone, Copy, PartialEq, Eq)]
pub struct SocketAddressV6 {
    /// The address.
    pub address: Ipv6Address,
    /// The port.
    pub port: u16,
}

/// Why an address was refused.
#[derive(Debug, Clone, Copy, PartialEq, Eq, Structural)]
pub enum AddressError {
    /// The input is an IPv4 socket address, which this transport refuses.
    Ipv4NotSupported,
    /// The input fits no accepted syntax.
    Invalid,
}

impl AddressError {
    /// A short human-readable account of the error.
    pub fn message(&self) -> (r: String)
        ensures
            *self == AddressError::Ipv4NotSupported ==> r@ == "IPv4 addresses are not supported"@,
            *self == AddressError::Invalid ==> r@ == "invalid IPv6 address"@,
    {
        match self {
            AddressError::Ipv4NotSupported => String::from_str("IPv4 addresses are not supported"),
            AddressError::Invalid => String::from_str("invalid IPv6 address"),
        }
    }
}

/// The value of a hex digit, if the character is one.
pub open spec fn spec_hex_val(c: char) -> Option<u8> {
    let v = c as int;
    if 48 <= v <= 57 {
        Some((v - 48) as u8)
    } else if 97 <= v <= 102 {
        Some((v - 87) as u8)
    } else if 65 <= v <= 70 {
        Some((v - 55) as u8)
    } else {
        None
    }
}

/// The value of a hex numeral, if every character is a hex digit.
pub open spec fn spec_hex_int(s: Seq<char>) -> Option<int>
    decreases s.len(),
{
    if s.len() == 0 {
        Some(0)
    } else {
        match (spec_hex_int(s.drop_last()), spec_hex_val(s.last())) {
            (Some(hi), Some(d)) => Some(hi * 16 + d),
            _ => None,
        }
    }
}

/// A hex numeral's value is below 16 to the power of its length.
proof fn lemma_hex_int_bound(s: Seq<char>)
    requires
        s.len() <= 4,
    ensures
        spec_hex_int(s) matches Some(v) ==> 0 <= v < 0x10000,
        s.len() <= 3 ==> (spec_hex_int(s) matches Some(v) ==> 0 <= v < 0x1000),
        s.len() <= 2 ==> (spec_hex_int(s) matches Some(v) ==> 0 <= v < 0x100),
        s.len() <= 1 ==> (spec_hex_int(s) matches Some(v) ==> 0 <= v < 0x10),
    decreases s.len(),
{
    if s.len() > 0 {
        lemma_hex_int_bound(s.drop_last());
    }
}

/// One invalid character makes the whole numeral invalid.
proof fn lemma_hex_int_none(s: Seq<char>, i: int)
    requires
        0 <= i < s.len(),
        spec_hex_val(s[i]) is None,
    ensures
        spec_hex_int(s) is None,
    decreases s.len(),
{
    if i < s.len() - 1 {
        lemma_hex_int_none(s.drop_last(), i);
    }
}

/// The value of one group of an IPv6 literal: one to four hex digits.
pub open spec fn spec_hex_group(s: Seq<char>) -> Option<u16> {
    if 1 <= s.len() <= 4 {
        match spec_hex_int(s) {
            Some(v) => Some(v as u16),
            None => None,
        }
    } else {
        None
    }
}

/// The value of a hex digit, if the character is one.
fn hex_val(c: char) -> (r: Option<u8>)
    ensures
        r == spec_hex_val(c),
{
    let v = c as u32;
    if 48 <= v && v <= 57 {
        Some((v - 48) as u8)
    } else if 97 <= v && v <= 102 {
        Some((v - 87) as u8)
    } else if 65 <= v && v <= 70 {
        Some((v - 55) as u8)
    } else {
        None
    }
}

/// Parses one group of an IPv6 literal.
fn parse_hex_group(s: &[char]) -> (r: Option<u16>)
    ensures
        r == spec_hex_group(s@),
{
    if s.len() < 1 || s.len() > 4 {
        return None;
    }
    let mut acc: u32 = 0;
    let mut i: usize = 0;
    while i < s.len()
        invariant
            i <= s@.len() <= 4,
            spec_hex_int(s@.subrange(0, i as int)) == Some(acc as int),
            acc < 0x10000,
            i <= 3 ==> acc < 0x1000,
            i <= 2 ==> acc < 0x100,
            i <= 1 ==> acc < 0x10,
        decreases s@.len() - i,
    {
        match hex_val(s[i]) {
            Some(d) => {
                proof {
                    assert(s@.subrange(0, i + 1).drop_last() =~= s@.subrange(0, i as int));
                    assert(s@.subrange(0, i + 1).last() == s@[i as int]);
                    lemma_hex_int_bound(s@.subrange(0, i + 1));
                }
                acc = acc * 16 + d as u32;
            },
            None => {
                proof {
                    lemma_hex_int_none(s@, i as int);
                }
                return None;
            },
        }
        i = i + 1;
    }
    proof {
        assert(s@.subrange(0, s@.len() as int) =~= s@);
    }
    Some(acc as u16)
}

/// The value of a decimal digit, if the character is one.
pub open spec fn spec_dec_val(c: char) -> Option<u8> {
    let v = c as int;
    if 48 <= v <= 57 {
        Some((v - 48) as u8)
    } else {
        None
    }
}

/// The value of a decimal numeral, if every character is a decimal digit.
pub open spec fn spec_dec_int(s: Seq<char>) -> Option<int>
    decreases s.len(),
{
    if s.len() == 0 {
        Some(0)
    } else {
        match (spec_dec_int(s.drop_last()), spec_dec_val(s.last())) {
            (Some(hi), Some(d)) => Some(hi * 10 + d),
            _ => None,
        }
    }
}

/// A port: a nonempty decimal numeral no larger than 65535.
pub open spec fn spec_port(s: Seq<char>) -> Option<u16> {
    if s.len() >= 1 {
        match spec_dec_int(s) {
            Some(v) => if v <= 65535 {
                Some(v as u16)
            } else {
                None
            },
            None => None,
        }
    } else {
        None
    }
}

/// One invalid character makes the whole numeral invalid.
proof fn lemma_dec_int_none(s: Seq<char>, i: int)
    requires
        0 <= i < s.len(),
        spec_dec_val(s[i]) is None,
    ensures
        spec_dec_int(s) is None,
    decreases s.len(),
{
    if i < s.len() - 1 {
        lemma_dec_int_none(s.drop_last(), i);
    }
}

/// A numeral is at least as large as any of its prefixes.
proof fn lemma_dec_int_monotone(s: Seq<char>, i: int)
    requires
        0 <= i <= s.len(),
    ensures
        spec_dec_int(s) matches Some(v) ==> spec_dec_int(s.subrange(0, i)) matches Some(p) && p
            <= v && v >= 0,
    decreases s.len() - i,
{
    if i < s.len() {
        lemma_dec_int_monotone(s, i + 1);
        if spec_dec_int(s) is Some {
            assert(s.subrange(0, i + 1).drop_last() =~= s.subrange(0, i));
        }
    } else {
        assert(s.subrange(0, i) =~= s);
        if spec_dec_int(s) is Some {
            lemma_dec_int_nonneg(s);
        }
    }
}

/// A valid numeral's value is not negative.
proof fn lemma_dec_int_nonneg(s: Seq<char>)
    ensures
        spec_dec_int(s) matches Some(v) ==> v >= 0,
    decreases s.len(),
{
    if s.len() > 0 {
        lemma_dec_int_nonneg(s.drop_last());
    }
}

/// The value of a decimal digit, if the character is one.
fn dec_val(c: char) -> (r: Option<u8>)
    ensures
        r == spec_dec_val(c),
{
    let v = c as u32;
    if 48 <= v && v <= 57 {
        Some((v - 48) as u8)
    } else {
        None
    }
}

/// Parses a port.
pub fn parse_port(s: &[char]) -> (r: Option<u16>)
    ensures
        r == spec_port(s@),
{
    if s.len() < 1 {
        return None;
    }
    let mut acc: u32 = 0;
    let mut i: usize = 0;
    while i < s.len()
        invariant
            i <= s@.len(),
            spec_dec_int(s@.subrange(0, i as int)) == Some(acc as int),
            acc <= 65535,
        decreases s@.len() - i,
    {
        match dec_val(s[i]) {
            Some(d) => {
                proof {
                    assert(s@.subrange(0, i + 1).drop_last() =~= s@.subrange(0, i as int));
                    assert(s@.subrange(0, i + 1).last() == s@[i as int]);
                }
                let next: u32 = acc * 10 + d as u32;
                if next > 65535 {
                    proof {
                        lemma_dec_int_monotone(s@, i + 1);
                    }
                    return None;
                }
                acc = next;
            },
            None => {
                proof {
                    lemma_dec_int_none(s@, i as int);
                }
                return None;
            },
        }
        i = i + 1;
    }
    proof {
        assert(s@.subrange(0, s@.len() as int) =~= s@);
    }
    Some(acc as u16)
}

/// The first position of `c` in `s`.
pub open spec fn spec_find(s: Seq<char>, c: char) -> Option<int>
    decreases s.len(),
{
    if s.len() == 0 {
        None
    } else if s[0] == c {
        Some(0)
    } else {
        match spec_find(s.skip(1), c) {
            Some(i) => Some(i + 1),
            None => None,
        }
    }
}

/// What `spec_find` finds: the first occurrence, or none at all.
proof fn lemma_find_characterized(s: Seq<char>, c: char)
    ensures
        spec_find(s, c) matches Some(i) ==> 0 <= i < s.len() && s[i] == c && (forall|j: int|
            0 <= j < i ==> s[j] != c),
        spec_find(s, c) is None ==> forall|j: int| 0 <= j < s.len() ==> s[j] != c,
    decreases s.len(),
{
    if s.len() > 0 && s[0] != c {
        lemma_find_characterized(s.skip(1), c);
        if spec_find(s.skip(1), c) is Some {
            let i = spec_find(s.skip(1), c)->Some_0;
            assert(s.skip(1)[i] == s[i + 1]);
            assert forall|j: int| 0 <= j < i + 1 implies s[j] != c by {
                if j >= 1 {
                    assert(s.skip(1)[j - 1] == s[j]);
                }
            }
        } else {
            assert forall|j: int| 0 <= j < s.len() implies s[j] != c by {
                if j >= 1 {
                    assert(s.skip(1)[j - 1] == s[j]);
                }
            }
        }
    }
}

/// Finds the first position of `c`.
fn find_char(s: &[char], c: char) -> (r: Option<usize>)
    ensures
        r matches Some(i) ==> spec_find(s@, c) == Some(i as int),
        r is None ==> spec_find(s@, c) is None,
{
    let mut i: usize = 0;
    proof {
        lemma_find_characterized(s@, c);
    }
    while i < s.len()
        invariant
            i <= s@.len(),
            forall|j: int| 0 <= j < i ==> s@[j] != c,
            spec_find(s@, c) matches Some(k) ==> 0 <= k < s@.len() && s@[k] == c && (forall|j: int|
                0 <= j < k ==> s@[j] != c),
            spec_find(s@, c) is None ==> forall|j: int| 0 <= j < s@.len() ==> s@[j] != c,
        decreases s@.len() - i,
    {
        if s[i] == c {
            proof {
                if spec_find(s@, c) is None {
                    assert(false);
                }
                let k = spec_find(s@, c)->Some_0;
                if k < i {
                    assert(s@[k] == c);
                    assert(false);
                }
                if k > i {
                    assert(s@[i as int] != c);
                    assert(false);
                }
            }
            return Some(i);
        }
        i = i + 1;
    }
    proof {
        if spec_find(s@, c) is Some {
            assert(s@[spec_find(s@, c)->Some_0] == c);
            assert(false);
        }
    }
    None
}

/// The parts of `s` between occurrences of `sep`: splitting never fails and
/// keeps empty parts.
pub open spec fn spec_split(s: Seq<char>, sep: char) -> Seq<Seq<char>>
    decreases s.len(),
{
    match spec_find(s, sep) {
        Some(i) => if 0 <= i < s.len() {
            seq![s.take(i)] + spec_split(s.skip(i + 1), sep)
        } else {
            seq![s]
        },
        None => seq![s],
    }
}

/// Splits `s` at every occurrence of `sep`.
fn split_chars(s: &[char], sep: char) -> (r: Vec<Vec<char>>)
    ensures
        r.deep_view() == spec_split(s@, sep),
    decreases s@.len(),
{
    match find_char(s, sep) {
        Some(i) => {
            proof {
                lemma_find_characterized(s@, sep);
            }
            assert(i < s.len());
            let head = slice_to_vec(slice_subrange(s, 0, i));
            let tail_slice = slice_subrange(s, i + 1, s.len());
            let mut rest = split_chars(tail_slice, sep);
            let ghost rest_view = rest.deep_view();
            let ghost rest_seq = rest@;
            let mut out: Vec<Vec<char>> = Vec::new();
            out.push(head);
            out.append(&mut rest);
            proof {
                assert(tail_slice@ =~= s@.skip(i + 1));
                let expected = spec_split(s@, sep);
                assert(expected == seq![s@.take(i as int)] + spec_split(s@.skip(i + 1), sep));
                assert(out.deep_view().len() == expected.len());
                assert forall|m: int| 0 <= m < out@.len() implies out.deep_view()[m] == expected[m] by {
                    assert(out.deep_view()[m] == out@[m].deep_view());
                    if m == 0 {
                        assert(out@[0] == head);
                        assert(head.deep_view() =~= s@.take(i as int));
                    } else {
                        assert(out@[m] == rest_seq[m - 1]);
                        assert(rest_view[m - 1] == rest_seq[m - 1].deep_view());
                    }
                }
                assert(out.deep_view() =~= expected);
            }
            out
        },
        None => {
            let mut out: Vec<Vec<char>> = Vec::new();
            out.push(slice_to_vec(s));
            proof {
                assert(out.deep_view() =~~= spec_split(s@, sep));
            }
            out
        },
    }
}

/// The values of a run of groups; `None` when any group is invalid (an
/// empty group included).
pub open spec fn spec_all_groups(parts: Seq<Seq<char>>) -> Option<Seq<u16>>
    decreases parts.len(),
{
    if parts.len() == 0 {
        Some(Seq::empty())
    } else {
        match (spec_all_groups(parts.drop_last()), spec_hex_group(parts.last())) {
            (Some(init), Some(g)) => Some(init.push(g)),
            _ => None,
        }
    }
}

/// Parses a run of groups.
fn all_groups(parts: &[Vec<char>]) -> (r: Option<Vec<u16>>)
    ensures
        r matches Some(v) ==> spec_all_groups(parts.deep_view()) == Some(v@),
        r is None ==> spec_all_groups(parts.deep_view()) is None,
{
    let mut out: Vec<u16> = Vec::new();
    let mut i: usize = 0;
    while i < parts.len()
        invariant
            i <= parts@.len(),
            spec_all_groups(parts.deep_view().take(i as int)) == Some(out@),
        decreases parts@.len() - i,
    {
        proof {
            assert(parts.deep_view().take(i + 1 as int).drop_last() =~= parts.deep_view().take(
                i as int,
            ));
            assert(parts.deep_view().take(i + 1 as int).last() == parts.deep_view()[i as int]);
            assert(parts.deep_view()[i as int] == parts@[i as int]@);
        }
        match parse_hex_group(parts[i].as_slice()) {
            Some(g) => {
                out.push(g);
            },
            None => {
                proof {
                    lemma_all_groups_none(parts.deep_view(), i as int);
                }
                return None;
            },
        }
        i = i + 1;
    }
    proof {
        assert(parts.deep_view().take(parts.deep_view().len() as int) =~= parts.deep_view());
    }
    Some(out)
}

/// One invalid group makes the whole run invalid.
proof fn lemma_all_groups_none(parts: Seq<Seq<char>>, i: int)
    requires
        0 <= i < parts.len(),
        spec_hex_group(parts[i]) is None,
    ensures
        spec_all_groups(parts) is None,
    decreases parts.len(),
{
    if i < parts.len() - 1 {
        lemma_all_groups_none(parts.drop_last(), i);
    }
}

/// The two segments an embedded IPv4 tail stands for: four dot-separated
/// octets packed high and low.
pub open spec fn spec_quad_segments(s: Seq<char>) -> Option<Seq<u16>> {
    let parts = spec_split(s, '.');
    if parts.len() == 4 && spec_ipv4_octet(parts[0]) && spec_ipv4_octet(parts[1])
        && spec_ipv4_octet(parts[2]) && spec_ipv4_octet(parts[3]) {
        let o0 = spec_dec_int(parts[0])->Some_0;
        let o1 = spec_dec_int(parts[1])->Some_0;
        let o2 = spec_dec_int(parts[2])->Some_0;
        let o3 = spec_dec_int(parts[3])->Some_0;
        Some(seq![(o0 * 256 + o1) as u16, (o2 * 256 + o3) as u16])
    } else {
        None
    }
}

/// Parses an embedded IPv4 tail to its two segments.
fn parse_quad(s: &[char]) -> (r: Option<(u16, u16)>)
    ensures
        r matches Some(two) ==> spec_quad_segments(s@) == Some(seq![two.0, two.1]),
        r is None ==> spec_quad_segments(s@) is None,
{
    let parts = split_chars(s, '.');
    let ghost pv = parts.deep_view();
    proof {
        assert(pv.len() == parts@.len());
    }
    if parts.len() != 4 {
        return None;
    }
    proof {
        assert(pv[0] =~= parts@[0]@);
        assert(pv[1] =~= parts@[1]@);
        assert(pv[2] =~= parts@[2]@);
        assert(pv[3] =~= parts@[3]@);
    }
    let o0 = match parse_octet(parts[0].as_slice()) {
        Some(v) => v,
        None => {
            return None;
        },
    };
    let o1 = match parse_octet(parts[1].as_slice()) {
        Some(v) => v,
        None => {
            return None;
        },
    };
    let o2 = match parse_octet(parts[2].as_slice()) {
        Some(v) => v,
        None => {
            return None;
        },
    };
    let o3 = match parse_octet(parts[3].as_slice()) {
        Some(v) => v,
        None => {
            return None;
        },
    };
    let hi: u16 = (o0 as u16) * 256 + (o1 as u16);
    let lo: u16 = (o2 as u16) * 256 + (o3 as u16);
    Some((hi, lo))
}

/// The values of a tail run of groups whose last part may be an embedded
/// IPv4 quad standing for two segments.
pub open spec fn spec_all_groups_v4(parts: Seq<Seq<char>>) -> Option<Seq<u16>> {
    if parts.len() == 0 {
        Some(Seq::empty())
    } else if spec_find(parts.last(), '.') is Some {
        match (spec_all_groups(parts.drop_last()), spec_quad_segments(parts.last())) {
            (Some(init), Some(two)) => Some(init + two),
            _ => None,
        }
    } else {
        spec_all_groups(parts)
    }
}

/// Parses a tail run of groups, an embedded IPv4 quad included.
fn all_groups_v4(parts: &[Vec<char>]) -> (r: Option<Vec<u16>>)
    ensures
        r matches Some(v) ==> spec_all_groups_v4(parts.deep_view()) == Some(v@),
        r is None ==> spec_all_groups_v4(parts.deep_view()) is None,
{
    let ghost pv = parts.deep_view();
    if parts.len() == 0 {
        let empty: Vec<u16> = Vec::new();
        proof {
            assert(empty@ =~= Seq::<u16>::empty());
        }
        return Some(empty);
    }
    proof {
        assert(pv[pv.len() - 1] =~= parts@[parts@.len() - 1]@);
        assert(pv.last() == pv[pv.len() - 1]);
    }
    let last_part = &parts[parts.len() - 1];
    match find_char(last_part.as_slice(), '.') {
        Some(_) => {
            let head = slice_subrange(parts, 0, parts.len() - 1);
            proof {
                assert(head.deep_view() =~~= pv.drop_last());
            }
            let init = match all_groups(head) {
                Some(v) => v,
                None => {
                    return None;
                },
            };
            match parse_quad(last_part.as_slice()) {
                Some((hi, lo)) => {
                    let mut out = init;
                    let ghost init_view = out@;
                    out.push(hi);
                    out.push(lo);
                    proof {
                        assert(out@ =~= init_view + seq![hi, lo]);
                    }
                    Some(out)
                },
                None => None,
            }
        },
        None => all_groups(parts),
    }
}

/// Eight zero segments.
pub open spec fn spec_zeros(n: nat) -> Seq<u16> {
    Seq::new(n, |i: int| 0u16)
}

/// The segments an IPv6 literal's colon-split parts stand for.
///
/// With no empty part the groups must yield exactly eight segments. A `::`
/// shows up in the split as two leading empties, two trailing empties, or
/// one inner empty; it stands for enough zero segments to make eight, at
/// least one. The last group of the address may be an embedded IPv4 quad
/// standing for two segments.
pub open spec fn spec_segments_of_parts(parts: Seq<Seq<char>>) -> Option<Seq<u16>> {
    let n = parts.len() as int;
    if n == 3 && parts[0].len() == 0 && parts[1].len() == 0 && parts[2].len() == 0 {
        // The bare "::".
        Some(spec_zeros(8))
    } else if n >= 3 && parts[0].len() == 0 && parts[1].len() == 0 {
        // "::tail"
        match spec_all_groups_v4(parts.skip(2)) {
            Some(right) => if right.len() <= 7 {
                Some(spec_zeros((8 - right.len()) as nat) + right)
            } else {
                None
            },
            None => None,
        }
    } else if n >= 3 && parts[n - 1].len() == 0 && parts[n - 2].len() == 0 {
        // "head::"
        match spec_all_groups(parts.take(n - 2)) {
            Some(left) => if left.len() <= 7 {
                Some(left + spec_zeros((8 - left.len()) as nat))
            } else {
                None
            },
            None => None,
        }
    } else if spec_find_empty(parts) is Some && 1 <= spec_find_empty(parts)->Some_0 <= n - 2 {
        // "head::tail"
        let k = spec_find_empty(parts)->Some_0;
        match (spec_all_groups(parts.take(k)), spec_all_groups_v4(parts.skip(k + 1))) {
            (Some(left), Some(right)) => if left.len() + right.len() <= 7 {
                Some(left + spec_zeros((8 - left.len() - right.len()) as nat) + right)
            } else {
                None
            },
            _ => None,
        }
    } else {
        // No compression: the groups must yield exactly eight segments.
        match spec_all_groups_v4(parts) {
            Some(segs) => if segs.len() == 8 {
                Some(segs)
            } else {
                None
            },
            None => None,
        }
    }
}

/// The first empty part.
pub open spec fn spec_find_empty(parts: Seq<Seq<char>>) -> Option<int>
    decreases parts.len(),
{
    if parts.len() == 0 {
        None
    } else if parts[0].len() == 0 {
        Some(0)
    } else {
        match spec_find_empty(parts.skip(1)) {
            Some(i) => Some(i + 1),
            None => None,
        }
    }
}

/// What `spec_find_empty` finds: the first empty part, or none at all.
proof fn lemma_find_empty_characterized(parts: Seq<Seq<char>>)
    ensures
        spec_find_empty(parts) matches Some(i) ==> 0 <= i < parts.len() && parts[i].len() == 0 && (
        forall|j: int| 0 <= j < i ==> parts[j].len() != 0),
        spec_find_empty(parts) is None ==> forall|j: int|
            0 <= j < parts.len() ==> parts[j].len() != 0,
    decreases parts.len(),
{
    if parts.len() > 0 && parts[0].len() != 0 {
        lemma_find_empty_characterized(parts.skip(1));
        if spec_find_empty(parts.skip(1)) is Some {
            let i = spec_find_empty(parts.skip(1))->Some_0;
            assert(parts.skip(1)[i] == parts[i + 1]);
            assert forall|j: int| 0 <= j < i + 1 implies parts[j].len() != 0 by {
                if j >= 1 {
                    assert(parts.skip(1)[j - 1] == parts[j]);
                }
            }
        } else {
            assert forall|j: int| 0 <= j < parts.len() implies parts[j].len() != 0 by {
                if j >= 1 {
                    assert(parts.skip(1)[j - 1] == parts[j]);
                }
            }
        }
    }
}

/// Finds the first empty part.
fn find_empty(parts: &[Vec<char>]) -> (r: Option<usize>)
    ensures
        r matches Some(i) ==> spec_find_empty(parts.deep_view()) == Some(i as int),
        r is None ==> spec_find_empty(parts.deep_view()) is None,
{
    proof {
        lemma_find_empty_characterized(parts.deep_view());
    }
    let mut i: usize = 0;
    while i < parts.len()
        invariant
            i <= parts@.len(),
            forall|j: int| 0 <= j < i ==> parts.deep_view()[j].len() != 0,
            spec_find_empty(parts.deep_view()) matches Some(k) ==> 0 <= k < parts.deep_view().len()
                && parts.deep_view()[k].len() == 0 && (forall|j: int|
                0 <= j < k ==> parts.deep_view()[j].len() != 0),
            spec_find_empty(parts.deep_view()) is None ==> forall|j: int|
                0 <= j < parts.deep_view().len() ==> parts.deep_view()[j].len() != 0,
        decreases parts@.len() - i,
    {
        proof {
            assert(parts.deep_view()[i as int] == parts@[i as int]@);
        }
        if parts[i].len() == 0 {
            proof {
                if spec_find_empty(parts.deep_view()) is None {
                    assert(false);
                }
                let k = spec_find_empty(parts.deep_view())->Some_0;
                if k < i {
                    assert(false);
                }
                if k > i {
                    assert(parts.deep_view()[i as int].len() != 0);
                    assert(false);
                }
            }
            return Some(i);
        }
        i = i + 1;
    }
    proof {
        if spec_find_empty(parts.deep_view()) is Some {
            assert(parts.deep_view()[spec_find_empty(parts.deep_view())->Some_0].len() == 0);
            assert(false);
        }
    }
    None
}

/// The segments an IPv6 literal stands for.
pub open spec fn spec_parse_ipv6(s: Seq<char>) -> Option<Seq<u16>> {
    spec_segments_of_parts(spec_split(s, ':'))
}

/// Builds the address from exactly eight segments.
fn segments_into_address(segs: &Vec<u16>) -> (r: Ipv6Address)
    requires
        segs@.len() == 8,
    ensures
        r.segments@ == segs@,
{
    let address = Ipv6Address {
        segments: [
            segs[0],
            segs[1],
            segs[2],
            segs[3],
            segs[4],
            segs[5],
            segs[6],
            segs[7],
        ],
    };
    proof {
        assert(address.segments@ =~= segs@);
    }
    address
}

/// Parses an IPv6 literal into its eight segments.
pub fn parse_ipv6(s: &[char]) -> (r: Option<Ipv6Address>)
    ensures
        r matches Some(a) ==> spec_parse_ipv6(s@) == Some(a.segments@),
        r is None ==> spec_parse_ipv6(s@) is None,
{
    let parts = split_chars(s, ':');
    let ghost pv = parts.deep_view();
    let n = parts.len();
    proof {
        assert(pv.len() == n);
    }
    if n == 3 && parts[0].len() == 0 && parts[1].len() == 0 && parts[2].len() == 0 {
        proof {
            assert(pv[0] =~= parts@[0]@);
            assert(pv[1] =~= parts@[1]@);
            assert(pv[2] =~= parts@[2]@);
        }
        let zeros: Vec<u16> = vec![0, 0, 0, 0, 0, 0, 0, 0];
        proof {
            assert(zeros@ =~= spec_zeros(8));
        }
        return Some(segments_into_address(&zeros));
    }
    proof {
        if n >= 1 {
            assert(pv[0] =~= parts@[0]@);
        }
        if n >= 2 {
            assert(pv[1] =~= parts@[1]@);
            assert(pv[n - 1] =~= parts@[n - 1]@);
            assert(pv[n - 2] =~= parts@[n - 2]@);
        }
        if n == 3 {
            assert(pv[2] =~= parts@[2]@);
        }
    }
    if n >= 3 && parts[0].len() == 0 && parts[1].len() == 0 {
        let tail = slice_subrange(parts.as_slice(), 2, n);
        proof {
            assert(tail.deep_view() =~~= pv.skip(2));
        }
        match all_groups_v4(tail) {
            Some(right) => {
                if right.len() <= 7 {
                    let mut segs: Vec<u16> = Vec::new();
                    let mut z: usize = 0;
                    let pad = 8 - right.len();
                    while z < pad
                        invariant
                            z <= pad <= 8,
                            segs@ =~= spec_zeros(z as nat),
                        decreases pad - z,
                    {
                        segs.push(0);
                        z = z + 1;
                    }
                    let mut k: usize = 0;
                    while k < right.len()
                        invariant
                            k <= right@.len(),
                            right@.len() + pad == 8,
                            pad <= 8,
                            segs@ =~= spec_zeros(pad as nat) + right@.take(k as int),
                        decreases right@.len() - k,
                    {
                        segs.push(right[k]);
                        k = k + 1;
                    }
                    proof {
                        assert(right@.take(right@.len() as int) =~= right@);
                    }
                    return Some(segments_into_address(&segs));
                } else {
                    return None;
                }
            },
            None => {
                return None;
            },
        }
    }
    if n >= 3 && parts[n - 1].len() == 0 && parts[n - 2].len() == 0 {
        let head = slice_subrange(parts.as_slice(), 0, n - 2);
        proof {
            assert(head.deep_view() =~~= pv.take(n - 2));
        }
        match all_groups(head) {
            Some(left) => {
                if left.len() <= 7 {
                    let mut segs: Vec<u16> = left;
                    let ghost lv = segs@;
                    while segs.len() < 8
                        invariant
                            lv.len() <= segs@.len() <= 8,
                            segs@ =~= lv + spec_zeros((segs@.len() - lv.len()) as nat),
                        decreases 8 - segs@.len(),
                    {
                        segs.push(0);
                    }
                    return Some(segments_into_address(&segs));
                } else {
                    return None;
                }
            },
            None => {
                return None;
            },
        }
    }
    let parts_slice = parts.as_slice();
    proof {
        assert(parts_slice.deep_view() =~~= pv);
    }
    let empty_at = find_empty(parts_slice);
    proof {
        lemma_find_empty_characterized(pv);
    }
    match empty_at {
        Some(k) => {
            proof {
                assert(k < n);
            }
            if 1 <= k && k + 1 < n {
                let head = slice_subrange(parts_slice, 0, k);
                let tail = slice_subrange(parts_slice, k + 1, n);
                proof {
                    assert(head.deep_view() =~~= pv.take(k as int));
                    assert(tail.deep_view() =~~= pv.skip(k + 1));
                }
                let left = match all_groups(head) {
                    Some(l) => l,
                    None => {
                        return None;
                    },
                };
                let right = match all_groups_v4(tail) {
                    Some(rr) => rr,
                    None => {
                        return None;
                    },
                };
                if left.len() <= 7 && right.len() <= 7 && left.len() + right.len() <= 7 {
                    let mut segs: Vec<u16> = left;
                    let ghost lv = segs@;
                    let pad = 8 - segs.len() - right.len();
                    let mut z: usize = 0;
                    while z < pad
                        invariant
                            z <= pad,
                            pad + lv.len() + right@.len() == 8,
                            segs@ =~= lv + spec_zeros(z as nat),
                        decreases pad - z,
                    {
                        segs.push(0);
                        z = z + 1;
                    }
                    let mut kk: usize = 0;
                    while kk < right.len()
                        invariant
                            kk <= right@.len(),
                            pad + lv.len() + right@.len() == 8,
                            segs@ =~= lv + spec_zeros(pad as nat) + right@.take(kk as int),
                        decreases right@.len() - kk,
                    {
                        segs.push(right[kk]);
                        kk = kk + 1;
                    }
                    proof {
                        assert(right@.take(right@.len() as int) =~= right@);
                    }
                    return Some(segments_into_address(&segs));
                } else {
                    return None;
                }
            } else {
                // A lone leading or trailing empty part: no syntax allows it.
                proof {
                    lemma_find_empty_characterized(pv);
                    if spec_find(pv.last(), '.') is Some {
                        // The empty part has no dot, so it sits in the head run.
                        assert(k < n - 1);
                        assert(pv.drop_last()[k as int] == pv[k as int]);
                        lemma_all_groups_none(pv.drop_last(), k as int);
                    } else {
                        lemma_all_groups_none(pv, k as int);
                    }
                }
                return None;
            }
        },
        None => {
            match all_groups_v4(parts_slice) {
                Some(segs) => {
                    if segs.len() == 8 {
                        return Some(segments_into_address(&segs));
                    } else {
                        return None;
                    }
                },
                None => {
                    return None;
                },
            }
        },
    }
}

/// The IPv6 loopback segments.
pub open spec fn spec_loopback() -> Seq<u16> {
    seq![0u16, 0u16, 0u16, 0u16, 0u16, 0u16, 0u16, 1u16]
}

/// The loopback address.
pub fn loopback_address() -> (r: Ipv6Address)
    ensures
        r.segments@ == spec_loopback(),
{
    let r = Ipv6Address { segments: [0, 0, 0, 0, 0, 0, 0, 1] };
    proof {
        assert(r.segments@ =~= spec_loopback());
    }
    r
}

/// One octet of an IPv4 literal: one to three decimal digits, at most 255,
/// no leading zero.
pub open spec fn spec_ipv4_octet(s: Seq<char>) -> bool {
    &&& 1 <= s.len() <= 3
    &&& spec_dec_int(s) matches Some(v) && v <= 255
    &&& (s.len() > 1 ==> s[0] != '0')
}

/// An IPv4 literal: four dot-separated octets.
pub open spec fn spec_is_ipv4(s: Seq<char>) -> bool {
    let parts = spec_split(s, '.');
    parts.len() == 4 && (forall|i: int| 0 <= i < 4 ==> spec_ipv4_octet(#[trigger] parts[i]))
}

/// An IPv4 socket address: an IPv4 literal, a colon, and a port.
pub open spec fn spec_is_ipv4_socket(s: Seq<char>) -> bool {
    match spec_find(s, ':') {
        Some(i) => spec_is_ipv4(s.take(i)) && spec_port(s.skip(i + 1)) is Some,
        None => false,
    }
}

/// Parses one IPv4 octet to its value.
fn parse_octet(s: &[char]) -> (r: Option<u8>)
    ensures
        r is Some <==> spec_ipv4_octet(s@),
        r matches Some(v) ==> spec_dec_int(s@) == Some(v as int),
{
    if s.len() < 1 || s.len() > 3 {
        return None;
    }
    if s.len() > 1 && s[0] == '0' {
        return None;
    }
    let mut acc: u32 = 0;
    let mut i: usize = 0;
    while i < s.len()
        invariant
            i <= s@.len() <= 3,
            spec_dec_int(s@.subrange(0, i as int)) == Some(acc as int),
            acc <= 999,
        decreases s@.len() - i,
    {
        match dec_val(s[i]) {
            Some(d) => {
                proof {
                    assert(s@.subrange(0, i + 1).drop_last() =~= s@.subrange(0, i as int));
                    assert(s@.subrange(0, i + 1).last() == s@[i as int]);
                    lemma_dec_int_bound_3(s@.subrange(0, i + 1));
                }
                acc = acc * 10 + d as u32;
            },
            None => {
                proof {
                    lemma_dec_int_none(s@, i as int);
                }
                return None;
            },
        }
        i = i + 1;
    }
    proof {
        assert(s@.subrange(0, s@.len() as int) =~= s@);
    }
    if acc <= 255 {
        Some(acc as u8)
    } else {
        None
    }
}

/// Decides one IPv4 octet.
fn is_ipv4_octet(s: &[char]) -> (r: bool)
    ensures
        r == spec_ipv4_octet(s@),
{
    match parse_octet(s) {
        Some(_) => true,
        None => false,
    }
}

/// A short decimal numeral's value is below 1000.
proof fn lemma_dec_int_bound_3(s: Seq<char>)
    requires
        s.len() <= 3,
    ensures
        spec_dec_int(s) matches Some(v) ==> 0 <= v < 1000,
        s.len() <= 2 ==> (spec_dec_int(s) matches Some(v) ==> 0 <= v < 100),
        s.len() <= 1 ==> (spec_dec_int(s) matches Some(v) ==> 0 <= v < 10),
    decreases s.len(),
{
    if s.len() > 0 {
        lemma_dec_int_bound_3(s.drop_last());
    }
}

/// Decides whether the input is an IPv4 socket address.
fn is_ipv4_socket(s: &[char]) -> (r: bool)
    ensures
        r == spec_is_ipv4_socket(s@),
{
    match find_char(s, ':') {
        Some(i) => {
            proof {
                lemma_find_characterized(s@, ':');
            }
            assert(i < s.len());
            let host = slice_subrange(s, 0, i);
            let port_part = slice_subrange(s, i + 1, s.len());
            proof {
                assert(host@ =~= s@.take(i as int));
                assert(port_part@ =~= s@.skip(i + 1));
            }
            let parts = split_chars(host, '.');
            let ghost pv = parts.deep_view();
            proof {
                assert(pv.len() == parts@.len());
            }
            if parts.len() != 4 {
                return false;
            }
            let mut k: usize = 0;
            while k < 4
                invariant
                    k <= 4,
                    pv == parts.deep_view(),
                    pv.len() == 4,
                    parts@.len() == 4,
                    pv == spec_split(host@, '.'),
                    host@ == s@.take(i as int),
                    spec_find(s@, ':') == Some(i as int),
                    forall|m: int| 0 <= m < k ==> spec_ipv4_octet(#[trigger] pv[m]),
                decreases 4 - k,
            {
                proof {
                    assert(pv[k as int] =~= parts@[k as int]@);
                }
                if !is_ipv4_octet(parts[k].as_slice()) {
                    proof {
                        assert(!spec_ipv4_octet(spec_split(s@.take(i as int), '.')[k as int]));
                        assert(!spec_is_ipv4(s@.take(i as int)));
                    }
                    return false;
                }
                k = k + 1;
            }
            match parse_port(port_part) {
                Some(_) => true,
                None => false,
            }
        },
        None => false,
    }
}

/// The segments and port an input denotes, or why it is refused, for the
/// client (`localhost` allowed) and the server (not).
///
/// In order: an overlong input is invalid; a bracketed input must be
/// `[ipv6]:port`; an IPv4 socket address is refused as such; a bare IPv6
/// literal gets the default port; a bare port gets the loopback;
/// `localhost:port`, where allowed, gets the loopback.
pub open spec fn spec_address(s: Seq<char>, allow_localhost: bool) -> Result<
    (Seq<u16>, u16),
    AddressError,
> {
    if s.len() > MAX_ADDRESS_LEN {
        Err(AddressError::Invalid)
    } else if s.len() > 0 && s[0] == '[' {
        match spec_find(s, ']') {
            Some(e) => {
                let inner = s.subrange(1, e);
                let after = s.skip(e + 1);
                if after.len() == 0 || after[0] != ':' {
                    Err(AddressError::Invalid)
                } else {
                    match spec_parse_ipv6(inner) {
                        Some(segs) => match spec_port(after.skip(1)) {
                            Some(p) => Ok((segs, p)),
                            None => Err(AddressError::Invalid),
                        },
                        None => Err(AddressError::Invalid),
                    }
                }
            },
            None => Err(AddressError::Invalid),
        }
    } else if spec_is_ipv4_socket(s) {
        Err(AddressError::Ipv4NotSupported)
    } else if spec_parse_ipv6(s) is Some {
        Ok((spec_parse_ipv6(s)->Some_0, DEFAULT_PORT))
    } else if spec_port(s) is Some {
        Ok((spec_loopback(), spec_port(s)->Some_0))
    } else if allow_localhost && s.len() >= 11 && s.take(10) == seq![
        'l',
        'o',
        'c',
        'a',
        'l',
        'h',
        'o',
        's',
        't',
        ':',
    ] && spec_port(s.skip(10)) is Some {
        Ok((spec_loopback(), spec_port(s.skip(10))->Some_0))
    } else {
        Err(AddressError::Invalid)
    }
}

/// Parses an address and port, brackets and all.
fn parse_address(s: &[char], allow_localhost: bool) -> (r: Result<SocketAddressV6, AddressError>)
    ensures
        match spec_address(s@, allow_localhost) {
            Ok((segs, port)) => r matches Ok(sa) && sa.address.segments@ == segs && sa.port == port,
            Err(e) => r == Err::<SocketAddressV6, AddressError>(e),
        },
{
    if s.len() > MAX_ADDRESS_LEN {
        return Err(AddressError::Invalid);
    }
    if s.len() > 0 && s[0] == '[' {
        match find_char(s, ']') {
            Some(e) => {
                proof {
                    lemma_find_characterized(s@, ']');
                }
                let inner = slice_subrange(s, 1, e);
                let after = slice_subrange(s, e + 1, s.len());
                proof {
                    assert(inner@ =~= s@.subrange(1, e as int));
                    assert(after@ =~= s@.skip(e + 1));
                }
                if after.len() == 0 || after[0] != ':' {
                    return Err(AddressError::Invalid);
                }
                match parse_ipv6(inner) {
                    Some(address) => {
                        let port_part = slice_subrange(after, 1, after.len());
                        proof {
                            assert(port_part@ =~= after@.skip(1));
                        }
                        match parse_port(port_part) {
                            Some(port) => {
                                return Ok(SocketAddressV6 { address, port });
                            },
                            None => {
                                return Err(AddressError::Invalid);
                            },
                        }
                    },
                    None => {
                        return Err(AddressError::Invalid);
                    },
                }
            },
            None => {
                return Err(AddressError::Invalid);
            },
        }
    }
    if is_ipv4_socket(s) {
        return Err(AddressError::Ipv4NotSupported);
    }
    match parse_ipv6(s) {
        Some(address) => {
            return Ok(SocketAddressV6 { address, port: DEFAULT_PORT });
        },
        None => {},
    }
    match parse_port(s) {
        Some(port) => {
            return Ok(SocketAddressV6 { address: loopback_address(), port });
        },
        None => {},
    }
    if allow_localhost && s.len() >= 11 && s[0] == 'l' && s[1] == 'o' && s[2] == 'c' && s[3] == 'a'
        && s[4] == 'l' && s[5] == 'h' && s[6] == 'o' && s[7] == 's' && s[8] == 't' && s[9] == ':' {
        proof {
            assert(s@.take(10) =~= seq!['l', 'o', 'c', 'a', 'l', 'h', 'o', 's', 't', ':']);
        }
        let port_part = slice_subrange(s, 10, s.len());
        proof {
            assert(port_part@ =~= s@.skip(10));
        }
        match parse_port(port_part) {
            Some(port) => {
                return Ok(SocketAddressV6 { address: loopback_address(), port });
            },
            None => {
                return Err(AddressError::Invalid);
            },
        }
    }
    proof {
        if s@.len() >= 11 && s@.take(10) == seq!['l', 'o', 'c', 'a', 'l', 'h', 'o', 's', 't', ':'] {
            assert(s@[0] == 'l' && s@[1] == 'o' && s@[2] == 'c' && s@[3] == 'a' && s@[4] == 'l'
                && s@[5] == 'h' && s@[6] == 'o' && s@[7] == 's' && s@[8] == 't' && s@[9] == ':') by {
                assert(s@.take(10)[0] == 'l');
                assert(s@.take(10)[1] == 'o');
                assert(s@.take(10)[2] == 'c');
                assert(s@.take(10)[3] == 'a');
                assert(s@.take(10)[4] == 'l');
                assert(s@.take(10)[5] == 'h');
                assert(s@.take(10)[6] == 'o');
                assert(s@.take(10)[7] == 's');
                assert(s@.take(10)[8] == 't');
                assert(s@.take(10)[9] == ':');
            }
        }
    }
    Err(AddressError::Invalid)
}

/// Parses the address a client connects to. IPv6 only: accepts
/// `[ipv6]:port`, a bare IPv6 literal (default port), a bare port
/// (loopback), and `localhost:port` (loopback); refuses IPv4 socket
/// addresses as unsupported and everything else as invalid.
pub fn parse_server_address(addr: &str) -> (r: Result<SocketAddressV6, AddressError>)
    ensures
        match spec_address(addr@, true) {
            Ok((segs, port)) => r matches Ok(sa) && sa.address.segments@ == segs && sa.port == port,
            Err(e) => r == Err::<SocketAddressV6, AddressError>(e),
        },
{
    let cs = chars_of(addr);
    parse_address(cs.as_slice(), true)
}

/// Parses the address a server binds to. The same grammar as
/// `parse_server_address` but without the `localhost:port` form.
pub fn parse_socket_addr(addr: &str) -> (r: Result<SocketAddressV6, AddressError>)
    ensures
        match spec_address(addr@, false) {
            Ok((segs, port)) => r matches Ok(sa) && sa.address.segments@ == segs && sa.port == port,
            Err(e) => r == Err::<SocketAddressV6, AddressError>(e),
        },
{
    let cs = chars_of(addr);
    parse_address(cs.as_slice(), false)
}

} // verus!
