//! Internet addresses and how they are written.

use vstd::prelude::*;
use crate::text::{
    all_digits, append_bytes, copy_range, decimal_digits, digits_value, is_digit, render_decimal,
    ZERO,
};

verus! {

/// ASCII code of `.`.
pub const DOT: u8 = 0x2e;

/// ASCII code of `:`.
pub const COLON: u8 = 0x3a;

/// An internet address: four octets, or eight groups of sixteen bits.
#[derive(Clone, Copy, Debug, PartialEq, Eq, Hash, Structural)]
pub enum IpAddress {
    V4(u8, u8, u8, u8),
    V6(u16, u16, u16, u16, u16, u16, u16, u16),
}

impl DeepView for IpAddress {
    type V = IpAddress;

    open spec fn deep_view(&self) -> IpAddress {
        *self
    }
}

/// An address and a port.
#[derive(Clone, Copy, Debug, PartialEq, Eq, Hash, Structural)]
pub struct Endpoint {
    pub ip: IpAddress,
    pub port: u16,
}

/// Index of the first `sep` in `s`; the length of `s` where there is none.
pub open spec fn position(s: Seq<u8>, sep: u8) -> int
    decreases s.len(),
{
    if s.len() == 0 || s[0] == sep {
        0
    } else {
        1 + position(s.skip(1), sep)
    }
}

/// The pieces of `s` between the occurrences of `sep`. There is one piece
/// more than there are separators; a piece may be empty.
pub open spec fn split(s: Seq<u8>, sep: u8) -> Seq<Seq<u8>>
    decreases s.len(),
{
    let i = position(s, sep);
    if 0 <= i < s.len() {
        seq![s.take(i)] + split(s.skip(i + 1), sep)
    } else {
        seq![s]
    }
}

/// The position of a separator is where the separator first occurs.
pub proof fn lemma_position(s: Seq<u8>, sep: u8, i: int)
    requires
        0 <= i <= s.len(),
        forall|k: int| 0 <= k < i ==> s[k] != sep,
        i < s.len() ==> s[i] == sep,
    ensures
        position(s, sep) == i,
    decreases s.len(),
{
    if i > 0 {
        let t = s.skip(1);
        assert forall|k: int| 0 <= k < i - 1 implies t[k] != sep by {
            assert(t[k] == s[k + 1]);
        }
        lemma_position(t, sep, i - 1);
    }
}

/// Index of the first `sep` in `data` at or after `from`; the length of
/// `data` where there is none.
pub fn find_from(data: &[u8], from: usize, sep: u8) -> (i: usize)
    requires
        from <= data.len(),
    ensures
        from <= i <= data.len(),
        i - from == position(data@.skip(from as int), sep),
{
    let mut i: usize = from;
    while i < data.len() && data[i] != sep
        invariant
            from <= i <= data.len(),
            forall|k: int| from <= k < i ==> data@[k] != sep,
        decreases data.len() - i,
    {
        i += 1;
    }
    proof {
        let rest = data@.skip(from as int);
        assert forall|k: int| 0 <= k < i - from implies rest[k] != sep by {
            assert(rest[k] == data@[from + k]);
        }
        lemma_position(rest, sep, i - from);
    }
    i
}

/// The pieces as byte strings.
pub open spec fn pieces_view(pieces: Seq<Vec<u8>>) -> Seq<Seq<u8>> {
    Seq::new(pieces.len(), |i: int| pieces[i]@)
}

/// Cuts `data` at every `sep`.
pub fn split_at_each(data: &[u8], sep: u8) -> (pieces: Vec<Vec<u8>>)
    ensures
        pieces_view(pieces@) == split(data@, sep),
{
    let mut pieces: Vec<Vec<u8>> = Vec::new();
    let mut start: usize = 0;
    assert(data@.skip(0) =~= data@);
    assert(pieces_view(pieces@) =~= Seq::empty());
    loop
        invariant
            start <= data.len(),
            split(data@, sep) == pieces_view(pieces@) + split(data@.skip(start as int), sep),
        decreases data.len() - start,
    {
        let ghost rest = data@.skip(start as int);
        let ghost done = pieces_view(pieces@);
        let end = find_from(data, start, sep);
        let piece = copy_range(data, start, end);
        assert(piece@ =~= rest.take(end - start));
        pieces.push(piece);
        assert(pieces_view(pieces@) =~= done.push(rest.take(end - start)));
        if end == data.len() {
            assert(rest.take(end - start) =~= rest);
            assert(split(rest, sep) =~= seq![rest]);
            assert(pieces_view(pieces@) =~= done + split(rest, sep));
            return pieces;
        }
        assert(rest.skip(end - start + 1) =~= data@.skip(end + 1));
        assert(split(rest, sep) =~= seq![rest.take(end - start)] + split(
            data@.skip(end + 1),
            sep,
        ));
        assert(done + split(rest, sep) =~= pieces_view(pieces@) + split(data@.skip(end + 1), sep));
        start = end + 1;
    }
}

/// The octet that `s` writes: one to three decimal digits, no leading zero
/// but for zero itself, at most 255.
pub open spec fn octet(s: Seq<u8>) -> Option<u8> {
    if 1 <= s.len() <= 3 && all_digits(s) && (s.len() == 1 || s[0] != ZERO) && digits_value(s)
        <= 255 {
        Some(digits_value(s) as u8)
    } else {
        None
    }
}

/// The address that `text` writes in dotted decimal: four octets between
/// three dots.
pub open spec fn ipv4_of(text: Seq<u8>) -> Option<IpAddress> {
    let fields = split(text, DOT);
    if fields.len() == 4 && octet(fields[0]) is Some && octet(fields[1]) is Some && octet(
        fields[2],
    ) is Some && octet(fields[3]) is Some {
        Some(
            IpAddress::V4(
                octet(fields[0])->0,
                octet(fields[1])->0,
                octet(fields[2])->0,
                octet(fields[3])->0,
            ),
        )
    } else {
        None
    }
}

/// Reads an octet.
pub fn parse_octet(s: &[u8]) -> (r: Option<u8>)
    ensures
        r == octet(s@),
{
    let n = s.len();
    if n < 1 || n > 3 {
        return None;
    }
    let mut value: u32 = 0;
    let mut i: usize = 0;
    assert(s@.take(0) =~= Seq::<u8>::empty());
    while i < n
        invariant
            i <= n <= 3,
            n == s.len(),
            all_digits(s@.take(i as int)),
            value == digits_value(s@.take(i as int)),
            value <= 999,
        decreases n - i,
    {
        let b = s[i];
        if b < 0x30 || b > 0x39 {
            assert(!is_digit(s@[i as int]));
            return None;
        }
        proof {
            let before = s@.take(i as int);
            let after = s@.take(i + 1);
            assert(after.drop_last() =~= before);
            assert(after.last() == b);
            assert forall|j: int| 0 <= j < after.len() implies is_digit(#[trigger] after[j]) by {
                if j < before.len() {
                    assert(after[j] == before[j]);
                }
            }
            crate::text::lemma_digits_value_bound(before);
        }
        value = value * 10 + (b - ZERO) as u32;
        proof {
            crate::text::lemma_digits_value_bound(s@.take(i + 1));
        }
        i += 1;
    }
    assert(s@.take(n as int) =~= s@);
    if n > 1 && s[0] == ZERO {
        return None;
    }
    if value > 255 {
        return None;
    }
    Some(value as u8)
}

/// Reads an address in dotted decimal.
pub fn parse_ipv4(text: &[u8]) -> (r: Option<IpAddress>)
    ensures
        r == ipv4_of(text@),
{
    let fields = split_at_each(text, DOT);
    if fields.len() != 4 {
        return None;
    }
    assert(forall|k: int| 0 <= k < 4 ==> split(text@, DOT)[k] == fields@[k]@);
    let a = match parse_octet(fields[0].as_slice()) {
        Some(v) => v,
        None => return None,
    };
    let b = match parse_octet(fields[1].as_slice()) {
        Some(v) => v,
        None => return None,
    };
    let c = match parse_octet(fields[2].as_slice()) {
        Some(v) => v,
        None => return None,
    };
    let d = match parse_octet(fields[3].as_slice()) {
        Some(v) => v,
        None => return None,
    };
    Some(IpAddress::V4(a, b, c, d))
}

/// The value of a hexadecimal digit.
pub open spec fn hex_value(b: u8) -> Option<nat> {
    if 0x30 <= b <= 0x39 {
        Some((b - 0x30) as nat)
    } else if 0x61 <= b <= 0x66 {
        Some((b - 0x61 + 10) as nat)
    } else if 0x41 <= b <= 0x46 {
        Some((b - 0x41 + 10) as nat)
    } else {
        None
    }
}

/// Every byte of `s` is a hexadecimal digit.
pub open spec fn all_hex(s: Seq<u8>) -> bool {
    forall|i: int| 0 <= i < s.len() ==> hex_value(#[trigger] s[i]) is Some
}

/// The number that the hexadecimal digits `s` write.
pub open spec fn hex_digits_value(s: Seq<u8>) -> nat
    decreases s.len(),
{
    if s.len() == 0 {
        0
    } else {
        hex_digits_value(s.drop_last()) * 16 + hex_value(s.last())->0
    }
}

/// The group that `s` writes: one to four hexadecimal digits.
pub open spec fn group(s: Seq<u8>) -> Option<u16> {
    if 1 <= s.len() <= 4 && all_hex(s) {
        Some(hex_digits_value(s) as u16)
    } else {
        None
    }
}

/// The groups that `pieces` write, where each of them writes a group.
pub open spec fn groups(pieces: Seq<Seq<u8>>) -> Option<Seq<u16>>
    decreases pieces.len(),
{
    if pieces.len() == 0 {
        Some(Seq::empty())
    } else {
        match (groups(pieces.drop_last()), group(pieces.last())) {
            (Some(init), Some(g)) => Some(init.push(g)),
            _ => None,
        }
    }
}

/// The two groups that an address in dotted decimal fills.
pub open spec fn embedded(piece: Seq<u8>) -> Option<Seq<u16>> {
    match ipv4_of(piece) {
        Some(IpAddress::V4(a, b, c, d)) => Some(
            seq![(a as int * 256 + b as int) as u16, (c as int * 256 + d as int) as u16],
        ),
        _ => None,
    }
}

/// The groups that `pieces` write, where the last of them may be an address
/// in dotted decimal and each of the others writes a group.
pub open spec fn groups_with_tail(pieces: Seq<Seq<u8>>) -> Option<Seq<u16>> {
    if pieces.len() == 0 {
        Some(Seq::empty())
    } else {
        match groups(pieces.drop_last()) {
            Some(init) => match embedded(pieces.last()) {
                Some(two) => Some(init + two),
                None => match group(pieces.last()) {
                    Some(g) => Some(init.push(g)),
                    None => None,
                },
            },
            None => None,
        }
    }
}

/// The groups on one side of a double colon: none where the side is empty,
/// else what its pieces between colons write.
pub open spec fn side(text: Seq<u8>, with_tail: bool) -> Option<Seq<u16>> {
    if text.len() == 0 {
        Some(Seq::empty())
    } else if with_tail {
        groups_with_tail(split(text, COLON))
    } else {
        groups(split(text, COLON))
    }
}

/// `i` is the index of the first double colon in `s`.
pub open spec fn is_first_double_colon(s: Seq<u8>, i: int) -> bool {
    &&& 0 <= i
    &&& i + 1 < s.len()
    &&& s[i] == COLON
    &&& s[i + 1] == COLON
    &&& forall|k: int| 0 <= k < i ==> !(#[trigger] s[k] == COLON && s[k + 1] == COLON)
}

/// Index of the first double colon in `s`.
pub open spec fn double_colon(s: Seq<u8>) -> Option<int> {
    if exists|i: int| is_first_double_colon(s, i) {
        Some(choose|i: int| is_first_double_colon(s, i))
    } else {
        None
    }
}

/// `n` groups of zero.
pub open spec fn zeros(n: int) -> Seq<u16> {
    Seq::new(n as nat, |i: int| 0u16)
}

/// The eight groups that `text` writes.
///
/// Without a double colon, `text` is eight groups between colons, the last
/// two of which may be written as an address in dotted decimal. With a
/// double colon, there are at most seven groups, and the double colon stands
/// for the groups of zero that fill them up to eight; only what follows the
/// first double colon may end in dotted decimal.
pub open spec fn ipv6_groups(text: Seq<u8>) -> Option<Seq<u16>> {
    match double_colon(text) {
        None => match groups_with_tail(split(text, COLON)) {
            Some(g) => if g.len() == 8 {
                Some(g)
            } else {
                None
            },
            None => None,
        },
        Some(k) => match (side(text.take(k), false), side(text.skip(k + 2), true)) {
            (Some(head), Some(tail)) => if head.len() + tail.len() <= 7 {
                Some(head + zeros(8 - head.len() - tail.len()) + tail)
            } else {
                None
            },
            _ => None,
        },
    }
}

/// The address that `text` writes in groups of hexadecimal digits.
pub open spec fn ipv6_of(text: Seq<u8>) -> Option<IpAddress> {
    match ipv6_groups(text) {
        Some(g) => Some(IpAddress::V6(g[0], g[1], g[2], g[3], g[4], g[5], g[6], g[7])),
        None => None,
    }
}

/// The address that `text` writes, in dotted decimal or in groups of
/// hexadecimal digits.
pub open spec fn ip_address_of(text: Seq<u8>) -> Option<IpAddress> {
    match ipv4_of(text) {
        Some(a) => Some(a),
        None => ipv6_of(text),
    }
}

/// A number written by up to four hexadecimal digits is below 65536.
pub proof fn lemma_hex_digits_value_bound(s: Seq<u8>)
    requires
        all_hex(s),
        s.len() <= 4,
    ensures
        s.len() == 0 ==> hex_digits_value(s) == 0,
        s.len() == 1 ==> hex_digits_value(s) < 0x10,
        s.len() == 2 ==> hex_digits_value(s) < 0x100,
        s.len() == 3 ==> hex_digits_value(s) < 0x1000,
        s.len() == 4 ==> hex_digits_value(s) < 0x10000,
    decreases s.len(),
{
    if s.len() > 0 {
        let t = s.drop_last();
        assert forall|i: int| 0 <= i < t.len() implies hex_value(#[trigger] t[i]) is Some by {
            assert(t[i] == s[i]);
        }
        assert(hex_value(s[s.len() - 1]) is Some);
        lemma_hex_digits_value_bound(t);
    }
}

/// The value of a hexadecimal digit.
pub fn hex_digit(b: u8) -> (r: Option<u8>)
    ensures
        match r {
            Some(v) => hex_value(b) == Some(v as nat),
            None => hex_value(b) is None,
        },
{
    if 0x30 <= b && b <= 0x39 {
        Some(b - 0x30)
    } else if 0x61 <= b && b <= 0x66 {
        Some(b - 0x61 + 10)
    } else if 0x41 <= b && b <= 0x46 {
        Some(b - 0x41 + 10)
    } else {
        None
    }
}

/// Reads a group.
pub fn parse_group(s: &[u8]) -> (r: Option<u16>)
    ensures
        r == group(s@),
{
    let n = s.len();
    if n < 1 || n > 4 {
        return None;
    }
    let mut value: u32 = 0;
    let mut i: usize = 0;
    assert(s@.take(0) =~= Seq::<u8>::empty());
    while i < n
        invariant
            i <= n <= 4,
            n == s.len(),
            all_hex(s@.take(i as int)),
            value == hex_digits_value(s@.take(i as int)),
            value < 0x10000,
        decreases n - i,
    {
        let d = match hex_digit(s[i]) {
            Some(d) => d,
            None => {
                assert(hex_value(s@[i as int]) is None);
                return None;
            },
        };
        proof {
            let before = s@.take(i as int);
            let after = s@.take(i + 1);
            assert(after.drop_last() =~= before);
            assert(after.last() == s@[i as int]);
            assert forall|j: int| 0 <= j < after.len() implies hex_value(#[trigger] after[j])
                is Some by {
                if j < before.len() {
                    assert(after[j] == before[j]);
                }
            }
            lemma_hex_digits_value_bound(before);
            lemma_hex_digits_value_bound(after);
        }
        value = value * 16 + d as u32;
        i += 1;
    }
    assert(s@.take(n as int) =~= s@);
    Some(value as u16)
}

/// Reads the first `n` of `pieces` as groups.
pub fn parse_groups(pieces: &Vec<Vec<u8>>, n: usize) -> (r: Option<Vec<u16>>)
    requires
        n <= pieces.len(),
    ensures
        match r {
            Some(v) => groups(pieces_view(pieces@).take(n as int)) == Some(v@),
            None => groups(pieces_view(pieces@).take(n as int)) is None,
        },
{
    let ghost all = pieces_view(pieces@);
    let mut out: Vec<u16> = Vec::new();
    let mut i: usize = 0;
    assert(all.take(0) =~= Seq::empty());
    while i < n
        invariant
            i <= n <= pieces.len(),
            all == pieces_view(pieces@),
            groups(all.take(i as int)) == Some(out@),
        decreases n - i,
    {
        assert(all.take(i + 1).drop_last() =~= all.take(i as int));
        assert(all.take(i + 1).last() == pieces@[i as int]@);
        match parse_group(pieces[i].as_slice()) {
            Some(g) => {
                out.push(g);
            },
            None => {
                proof {
                    lemma_groups_prefix(all.take(n as int), i + 1);
                    assert(all.take(n as int).take(i + 1) =~= all.take(i + 1));
                }
                return None;
            },
        }
        i += 1;
    }
    Some(out)
}

/// Where some of the first pieces write no groups, all of them write none.
pub proof fn lemma_groups_prefix(pieces: Seq<Seq<u8>>, k: int)
    requires
        0 <= k <= pieces.len(),
        groups(pieces.take(k)) is None,
    ensures
        groups(pieces) is None,
    decreases pieces.len() - k,
{
    if k == pieces.len() {
        assert(pieces.take(k) =~= pieces);
    } else {
        let init = pieces.drop_last();
        assert(init.take(k) =~= pieces.take(k));
        lemma_groups_prefix(init, k);
    }
}

/// Reads pieces as groups, the last of which may be an address in dotted
/// decimal.
pub fn parse_groups_with_tail(pieces: &Vec<Vec<u8>>) -> (r: Option<Vec<u16>>)
    ensures
        match r {
            Some(v) => groups_with_tail(pieces_view(pieces@)) == Some(v@),
            None => groups_with_tail(pieces_view(pieces@)) is None,
        },
{
    let n = pieces.len();
    if n == 0 {
        assert(pieces_view(pieces@) =~= Seq::empty());
        return Some(Vec::new());
    }
    let ghost all = pieces_view(pieces@);
    assert(all.drop_last() =~= all.take(n - 1));
    assert(all.last() == pieces@[n - 1]@);
    let mut out = match parse_groups(pieces, n - 1) {
        Some(v) => v,
        None => return None,
    };
    let last = pieces[n - 1].as_slice();
    match parse_ipv4(last) {
        Some(IpAddress::V4(a, b, c, d)) => {
            let ghost init = out@;
            out.push(a as u16 * 256 + b as u16);
            out.push(c as u16 * 256 + d as u16);
            assert(out@ =~= init + embedded(last@)->0);
            Some(out)
        },
        _ => match parse_group(last) {
            Some(g) => {
                out.push(g);
                Some(out)
            },
            None => None,
        },
    }
}

/// Index of the first double colon.
pub fn find_double_colon(text: &[u8]) -> (r: Option<usize>)
    ensures
        match r {
            Some(i) => double_colon(text@) == Some(i as int) && i + 2 <= text.len(),
            None => double_colon(text@) is None,
        },
{
    if text.len() < 2 {
        assert forall|j: int| !is_first_double_colon(text@, j) by {}
        return None;
    }
    let mut i: usize = 0;
    while i < text.len() - 1
        invariant
            text.len() >= 2,
            i <= text.len() - 1,
            forall|k: int| 0 <= k < i ==> !(#[trigger] text@[k] == COLON && text@[k + 1] == COLON),
        decreases text.len() - i,
    {
        if text[i] == COLON && text[i + 1] == COLON {
            assert(is_first_double_colon(text@, i as int));
            assert forall|j: int| is_first_double_colon(text@, j) implies j == i by {}
            return Some(i);
        }
        i += 1;
    }
    assert forall|j: int| !is_first_double_colon(text@, j) by {}
    None
}

/// Reads the groups on one side of a double colon.
pub fn parse_side(text: &[u8], with_tail: bool) -> (r: Option<Vec<u16>>)
    ensures
        match r {
            Some(v) => side(text@, with_tail) == Some(v@),
            None => side(text@, with_tail) is None,
        },
{
    if text.len() == 0 {
        return Some(Vec::new());
    }
    let pieces = split_at_each(text, COLON);
    if with_tail {
        parse_groups_with_tail(&pieces)
    } else {
        let r = parse_groups(&pieces, pieces.len());
        assert(pieces_view(pieces@).take(pieces.len() as int) =~= pieces_view(pieces@));
        r
    }
}

/// Reads an address in groups of hexadecimal digits.
pub fn parse_ipv6(text: &[u8]) -> (r: Option<IpAddress>)
    ensures
        r == ipv6_of(text@),
{
    let g: Vec<u16> = match find_double_colon(text) {
        None => {
            let pieces = split_at_each(text, COLON);
            match parse_groups_with_tail(&pieces) {
                Some(g) => {
                    if g.len() != 8 {
                        return None;
                    }
                    g
                },
                None => return None,
            }
        },
        Some(k) => {
            let before = copy_range(text, 0, k);
            let after = copy_range(text, k + 2, text.len());
            assert(before@ =~= text@.take(k as int));
            assert(after@ =~= text@.skip(k + 2));
            let head = match parse_side(before.as_slice(), false) {
                Some(h) => h,
                None => return None,
            };
            let tail = match parse_side(after.as_slice(), true) {
                Some(t) => t,
                None => return None,
            };
            if head.len() > 7 || tail.len() > 7 - head.len() {
                return None;
            }
            let mut g: Vec<u16> = Vec::new();
            let mut i: usize = 0;
            while i < head.len()
                invariant
                    i <= head.len(),
                    g@ == head@.take(i as int),
                decreases head.len() - i,
            {
                g.push(head[i]);
                i += 1;
                assert(g@ =~= head@.take(i as int));
            }
            assert(head@.take(i as int) =~= head@);
            let gap: usize = 8 - head.len() - tail.len();
            let mut j: usize = 0;
            while j < gap
                invariant
                    j <= gap,
                    g@ == head@ + zeros(j as int),
                decreases gap - j,
            {
                g.push(0);
                j += 1;
                assert(g@ =~= head@ + zeros(j as int));
            }
            let mut m: usize = 0;
            while m < tail.len()
                invariant
                    m <= tail.len(),
                    gap == 8 - head@.len() - tail@.len(),
                    g@ == head@ + zeros(gap as int) + tail@.take(m as int),
                decreases tail.len() - m,
            {
                g.push(tail[m]);
                m += 1;
                assert(g@ =~= head@ + zeros(gap as int) + tail@.take(m as int));
            }
            assert(tail@.take(m as int) =~= tail@);
            g
        },
    };
    assert(g@ == ipv6_groups(text@)->0);
    assert(g@.len() == 8);
    Some(IpAddress::V6(g[0], g[1], g[2], g[3], g[4], g[5], g[6], g[7]))
}

impl IpAddress {
    /// Reads an address.
    pub fn parse(text: &[u8]) -> (r: Option<IpAddress>)
        ensures
            r == ip_address_of(text@),
    {
        match parse_ipv4(text) {
            Some(a) => Some(a),
            None => parse_ipv6(text),
        }
    }
}

/// The four octets in decimal, with dots between them.
pub open spec fn dotted(a: u8, b: u8, c: u8, d: u8) -> Seq<u8> {
    decimal_digits(a as nat) + seq![DOT] + decimal_digits(b as nat) + seq![DOT] + decimal_digits(
        c as nat,
    ) + seq![DOT] + decimal_digits(d as nat)
}

/// The hexadecimal digit of a value below sixteen, in lower case.
pub open spec fn hex_char(v: nat) -> u8 {
    if v < 10 {
        (0x30 + v) as u8
    } else {
        (0x61 + v - 10) as u8
    }
}

/// The shortest hexadecimal writing of `n`, in lower case.
pub open spec fn hex_digits(n: nat) -> Seq<u8>
    decreases n,
{
    if n < 16 {
        seq![hex_char(n)]
    } else {
        hex_digits(n / 16).push(hex_char(n % 16))
    }
}

/// The groups in hexadecimal, with colons between them.
pub open spec fn joined(groups: Seq<u16>) -> Seq<u8>
    decreases groups.len(),
{
    if groups.len() == 0 {
        Seq::empty()
    } else if groups.len() == 1 {
        hex_digits(groups[0] as nat)
    } else {
        joined(groups.drop_last()) + seq![COLON] + hex_digits(groups.last() as nat)
    }
}

/// Number of groups of zero in a row from the index `start` on.
pub open spec fn zero_run(groups: Seq<u16>, start: int) -> nat
    decreases groups.len() - start,
{
    if 0 <= start < groups.len() && groups[start] == 0 {
        1 + zero_run(groups, start + 1)
    } else {
        0
    }
}

/// No run of zeros is longer than the one from `start` on, and none that
/// begins before it is as long.
pub open spec fn is_longest_run(groups: Seq<u16>, start: int) -> bool {
    &&& 0 <= start < groups.len()
    &&& forall|t: int| 0 <= t < groups.len() ==> zero_run(groups, t) <= zero_run(groups, start)
    &&& forall|t: int| 0 <= t < start ==> zero_run(groups, t) < zero_run(groups, start)
}

/// Where the first of the longest runs of zeros begins.
pub open spec fn longest_run(groups: Seq<u16>) -> int {
    choose|start: int| is_longest_run(groups, start)
}

/// The eight groups in hexadecimal with colons between them, the first of
/// the longest runs of two or more groups of zero written as a double
/// colon.
pub open spec fn compressed(groups: Seq<u16>) -> Seq<u8> {
    let start = longest_run(groups);
    let len = zero_run(groups, start);
    if len > 1 {
        joined(groups.take(start)) + seq![COLON, COLON] + joined(groups.skip(start + len))
    } else {
        joined(groups)
    }
}

impl IpAddress {
    /// The groups of an address of eight groups.
    pub open spec fn groups(self) -> Seq<u16> {
        match self {
            IpAddress::V6(a, b, c, d, e, f, g, h) => seq![a, b, c, d, e, f, g, h],
            IpAddress::V4(_, _, _, _) => Seq::empty(),
        }
    }

    /// How the address is written: four octets in dotted decimal; eight
    /// groups in hexadecimal with the longest run of zeros as a double
    /// colon; and an address of four octets that is mapped into eight
    /// groups as `::ffff:` and the four octets in dotted decimal.
    pub open spec fn text(self) -> Seq<u8> {
        match self {
            IpAddress::V4(a, b, c, d) => dotted(a, b, c, d),
            IpAddress::V6(a, b, c, d, e, f, g, h) => if a == 0 && b == 0 && c == 0 && d == 0 && e
                == 0 && f == 0xffff {
                seq![COLON, COLON, 0x66u8, 0x66u8, 0x66u8, 0x66u8, COLON] + dotted(
                    (g / 256) as u8,
                    (g % 256) as u8,
                    (h / 256) as u8,
                    (h % 256) as u8,
                )
            } else {
                compressed(self.groups())
            },
        }
    }
}

/// Appends the four octets in decimal, with dots between them.
pub fn push_dotted(out: &mut Vec<u8>, a: u8, b: u8, c: u8, d: u8)
    ensures
        final(out)@ == old(out)@ + dotted(a, b, c, d),
{
    let digits = render_decimal(a as u32);
    append_bytes(out, digits.as_slice());
    out.push(DOT);
    let digits = render_decimal(b as u32);
    append_bytes(out, digits.as_slice());
    out.push(DOT);
    let digits = render_decimal(c as u32);
    append_bytes(out, digits.as_slice());
    out.push(DOT);
    let digits = render_decimal(d as u32);
    append_bytes(out, digits.as_slice());
    assert(out@ =~= old(out)@ + dotted(a, b, c, d));
}

/// Writes `n` in hexadecimal.
pub fn render_hex(n: u16) -> (out: Vec<u8>)
    ensures
        out@ == hex_digits(n as nat),
    decreases n,
{
    let v = (n % 16) as u8;
    let c: u8 = if v < 10 {
        0x30 + v
    } else {
        0x61 + (v - 10)
    };
    if n < 16 {
        let mut out: Vec<u8> = Vec::new();
        out.push(c);
        assert(out@ =~= hex_digits(n as nat));
        out
    } else {
        let mut out = render_hex(n / 16);
        out.push(c);
        out
    }
}

/// Appends `groups[from..to]` in hexadecimal, with colons between them.
pub fn push_joined(out: &mut Vec<u8>, groups: &Vec<u16>, from: usize, to: usize)
    requires
        from <= to <= groups.len(),
    ensures
        final(out)@ == old(out)@ + joined(groups@.subrange(from as int, to as int)),
{
    let ghost part = groups@.subrange(from as int, to as int);
    let mut i: usize = from;
    assert(part.take(0) =~= Seq::empty());
    assert(out@ =~= old(out)@ + joined(part.take(0)));
    while i < to
        invariant
            from <= i <= to <= groups.len(),
            part == groups@.subrange(from as int, to as int),
            out@ == old(out)@ + joined(part.take(i - from)),
        decreases to - i,
    {
        let ghost before = part.take(i - from);
        let ghost after = part.take(i + 1 - from);
        assert(after.drop_last() =~= before);
        assert(after.last() == groups@[i as int]);
        if i > from {
            out.push(COLON);
        }
        let digits = render_hex(groups[i]);
        append_bytes(out, digits.as_slice());
        assert(out@ =~= old(out)@ + joined(after));
        i += 1;
    }
    assert(part.take(to - from) =~= part);
}

/// Where the first of the longest runs of zeros begins, and how long it is.
pub fn find_longest_run(groups: &Vec<u16>) -> (r: (usize, usize))
    requires
        0 < groups.len() <= 8,
    ensures
        r.0 == longest_run(groups@),
        r.1 == zero_run(groups@, r.0 as int),
        r.0 + r.1 <= groups.len(),
{
    let n = groups.len();
    let mut runs: Vec<usize> = Vec::new();
    let mut k: usize = 0;
    while k <= n
        invariant
            n <= 8,
            k <= n + 1,
            runs@.len() == k,
            forall|j: int| 0 <= j < k ==> #[trigger] runs@[j] == 0,
        decreases n + 1 - k,
    {
        runs.push(0);
        k += 1;
    }
    let mut i: usize = n;
    while i > 0
        invariant
            i <= n,
            n == groups.len(),
            n <= 8,
            runs@.len() == n + 1,
            forall|j: int| i <= j <= n ==> #[trigger] runs@[j] == zero_run(groups@, j),
            forall|j: int| i <= j <= n ==> j + #[trigger] runs@[j] <= n,
        decreases i,
    {
        i -= 1;
        let next = runs[i + 1];
        let run: usize = if groups[i] == 0 {
            next + 1
        } else {
            0
        };
        runs.set(i, run);
    }
    let mut best: usize = 0;
    let mut t: usize = 1;
    while t < n
        invariant
            1 <= t <= n,
            n == groups.len(),
            runs@.len() == n + 1,
            forall|j: int| 0 <= j <= n ==> #[trigger] runs@[j] == zero_run(groups@, j),
            best < t,
            forall|j: int| 0 <= j < t ==> zero_run(groups@, j) <= zero_run(groups@, best as int),
            forall|j: int| 0 <= j < best ==> zero_run(groups@, j) < zero_run(groups@, best as int),
        decreases n - t,
    {
        if runs[t] > runs[best] {
            best = t;
        }
        t += 1;
    }
    proof {
        assert(is_longest_run(groups@, best as int));
        assert forall|s: int| is_longest_run(groups@, s) implies s == best by {
            if s < best {
                assert(zero_run(groups@, s) < zero_run(groups@, best as int));
            } else if s > best {
                assert(zero_run(groups@, best as int) < zero_run(groups@, s));
            }
        }
    }
    (best, runs[best])
}

impl IpAddress {
    /// Writes the address.
    pub fn to_bytes(&self) -> (out: Vec<u8>)
        ensures
            out@ == self.text(),
    {
        let mut out: Vec<u8> = Vec::new();
        match *self {
            IpAddress::V4(a, b, c, d) => {
                push_dotted(&mut out, a, b, c, d);
                assert(out@ =~= dotted(a, b, c, d));
            },
            IpAddress::V6(a, b, c, d, e, f, g, h) => {
                if a == 0 && b == 0 && c == 0 && d == 0 && e == 0 && f == 0xffff {
                    out.push(COLON);
                    out.push(COLON);
                    out.push(0x66);
                    out.push(0x66);
                    out.push(0x66);
                    out.push(0x66);
                    out.push(COLON);
                    assert(out@ =~= seq![COLON, COLON, 0x66u8, 0x66u8, 0x66u8, 0x66u8, COLON]);
                    push_dotted(
                        &mut out,
                        (g / 256) as u8,
                        (g % 256) as u8,
                        (h / 256) as u8,
                        (h % 256) as u8,
                    );
                } else {
                    let mut groups: Vec<u16> = Vec::new();
                    groups.push(a);
                    groups.push(b);
                    groups.push(c);
                    groups.push(d);
                    groups.push(e);
                    groups.push(f);
                    groups.push(g);
                    groups.push(h);
                    assert(groups@ =~= self.groups());
                    let (start, len) = find_longest_run(&groups);
                    if len > 1 {
                        push_joined(&mut out, &groups, 0, start);
                        out.push(COLON);
                        out.push(COLON);
                        push_joined(&mut out, &groups, start + len, 8);
                        assert(groups@.subrange(0, start as int) =~= groups@.take(start as int));
                        assert(groups@.subrange(start + len, 8) =~= groups@.skip(start + len));
                        assert(out@ =~= compressed(groups@));
                    } else {
                        push_joined(&mut out, &groups, 0, 8);
                        assert(groups@.subrange(0, 8) =~= groups@);
                        assert(out@ =~= compressed(groups@));
                    }
                }
            },
        }
        out
    }
}

/// What comes before the first separator is the first piece, and what
/// comes after it is cut into the other pieces.
pub proof fn lemma_split_first(first: Seq<u8>, rest: Seq<u8>, sep: u8)
    requires
        forall|k: int| 0 <= k < first.len() ==> first[k] != sep,
    ensures
        split(first + seq![sep] + rest, sep) == seq![first] + split(rest, sep),
{
    let s = first + seq![sep] + rest;
    lemma_position(s, sep, first.len() as int);
    assert(s.take(first.len() as int) =~= first);
    assert(s.skip(first.len() as int + 1) =~= rest);
}

/// What holds no separator is one piece.
pub proof fn lemma_split_one(piece: Seq<u8>, sep: u8)
    requires
        forall|k: int| 0 <= k < piece.len() ==> piece[k] != sep,
    ensures
        split(piece, sep) == seq![piece],
{
    lemma_position(piece, sep, piece.len() as int);
}

/// The decimal writing of an octet has at most three digits and begins
/// with a zero only where the octet is zero; so it writes that octet.
pub proof fn lemma_octet_of_decimal(n: u8)
    ensures
        octet(decimal_digits(n as nat)) == Some(n),
        forall|k: int|
            0 <= k < decimal_digits(n as nat).len() ==> decimal_digits(n as nat)[k] != DOT,
{
    let s = decimal_digits(n as nat);
    crate::text::lemma_decimal_digits(n as nat);
    reveal_with_fuel(decimal_digits, 4);
    if n < 10 {
        assert(s.len() == 1);
    } else if n < 100 {
        assert(s.len() == 2);
        assert(s[0] == (0x30 + n as nat / 10) as u8);
    } else {
        assert(s.len() == 3);
        assert(s[0] == (0x30 + n as nat / 100) as u8);
    }
    assert forall|k: int| 0 <= k < s.len() implies s[k] != DOT by {
        assert(is_digit(s[k]));
    }
}

/// An address of four octets that is written in dotted decimal reads back
/// as that address.
pub proof fn lemma_ipv4_round_trip(a: u8, b: u8, c: u8, d: u8)
    ensures
        IpAddress::V4(a, b, c, d).text() == dotted(a, b, c, d),
        ip_address_of(dotted(a, b, c, d)) == Some(IpAddress::V4(a, b, c, d)),
{
    let ta = decimal_digits(a as nat);
    let tb = decimal_digits(b as nat);
    let tc = decimal_digits(c as nat);
    let td = decimal_digits(d as nat);
    lemma_octet_of_decimal(a);
    lemma_octet_of_decimal(b);
    lemma_octet_of_decimal(c);
    lemma_octet_of_decimal(d);
    let tail_c = tc + seq![DOT] + td;
    let tail_b = tb + seq![DOT] + tail_c;
    assert(dotted(a, b, c, d) =~= ta + seq![DOT] + tail_b);
    lemma_split_one(td, DOT);
    lemma_split_first(tc, td, DOT);
    lemma_split_first(tb, tail_c, DOT);
    lemma_split_first(ta, tail_b, DOT);
    assert(split(dotted(a, b, c, d), DOT) =~= seq![ta, tb, tc, td]);
}

} // verus!
