//! JSON syntax on bytes (RFC 8259), stated as spec functions over positions in
//! the input and implemented by executable scanners proved equal to them.
//!
//! Nothing here builds a tree: a scanner reports where a value ends, and the
//! container scanners report where each member or element lies, so that the
//! typed layer can decode exactly the parts it needs.
use vstd::prelude::*;
use vstd::utf8::*;

verus! {

/// Relies on `String::from_utf8`: it succeeds exactly on valid UTF-8, and the
/// string then holds the characters those bytes encode.
#[verifier::external_body]
pub(crate) fn utf8_string(b: Vec<u8>) -> (r: Option<String>)
    ensures
        r is Some <==> valid_utf8(b@),
        r matches Some(t) ==> t@ == decode_utf8(b@),
{
    String::from_utf8(b).ok()
}

pub open spec fn is_ws(b: u8) -> bool {
    b == 0x20 || b == 0x09 || b == 0x0a || b == 0x0d
}

pub open spec fn is_digit(b: u8) -> bool {
    0x30 <= b <= 0x39
}

/// The first position at or after `i` that holds no whitespace.
pub open spec fn skip_ws(s: Seq<u8>, i: int) -> int
    decreases s.len() - i,
{
    if 0 <= i < s.len() && is_ws(s[i]) {
        skip_ws(s, i + 1)
    } else {
        i
    }
}

pub fn ws_end(s: &[u8], i: usize) -> (r: usize)
    requires
        i <= s@.len(),
    ensures
        r as int == skip_ws(s@, i as int),
        i <= r <= s@.len(),
{
    let mut j: usize = i;
    while j < s.len() && (s[j] == 0x20 || s[j] == 0x09 || s[j] == 0x0a || s[j] == 0x0d)
        invariant
            i <= j <= s@.len(),
            skip_ws(s@, j as int) == skip_ws(s@, i as int),
        decreases s@.len() - j,
    {
        j = j + 1;
    }
    j
}

/// The first position at or after `i` that holds no decimal digit.
pub open spec fn skip_digits(s: Seq<u8>, i: int) -> int
    decreases s.len() - i,
{
    if 0 <= i < s.len() && is_digit(s[i]) {
        skip_digits(s, i + 1)
    } else {
        i
    }
}

fn digits_end(s: &[u8], i: usize) -> (r: usize)
    requires
        i <= s@.len(),
    ensures
        r as int == skip_digits(s@, i as int),
        i <= r <= s@.len(),
{
    let mut j: usize = i;
    while j < s.len() && 0x30 <= s[j] && s[j] <= 0x39
        invariant
            i <= j <= s@.len(),
            skip_digits(s@, j as int) == skip_digits(s@, i as int),
        decreases s@.len() - j,
    {
        j = j + 1;
    }
    j
}

/// End of the fraction part that may start at `b` (a `.` and one or more digits).
pub open spec fn fraction_end(s: Seq<u8>, b: int) -> Option<int> {
    if 0 <= b < s.len() && s[b] == 0x2e {
        let d = skip_digits(s, b + 1);
        if d == b + 1 {
            None
        } else {
            Some(d)
        }
    } else {
        Some(b)
    }
}

/// End of the exponent part that may start at `c` (`e` or `E`, a sign, digits).
pub open spec fn exponent_end(s: Seq<u8>, c: int) -> Option<int> {
    if 0 <= c < s.len() && (s[c] == 0x65 || s[c] == 0x45) {
        let e = if c + 1 < s.len() && (s[c + 1] == 0x2b || s[c + 1] == 0x2d) {
            c + 2
        } else {
            c + 1
        };
        let f = skip_digits(s, e);
        if f == e {
            None
        } else {
            Some(f)
        }
    } else {
        Some(c)
    }
}

/// End of the number that starts at `i`: an optional minus, an integer part
/// without leading zeros, then an optional fraction and exponent.
pub open spec fn number_end(s: Seq<u8>, i: int) -> Option<int> {
    let a = if 0 <= i < s.len() && s[i] == 0x2d {
        i + 1
    } else {
        i
    };
    if !(0 <= a < s.len() && is_digit(s[a])) {
        None
    } else {
        let b = if s[a] == 0x30 {
            a + 1
        } else {
            skip_digits(s, a)
        };
        match fraction_end(s, b) {
            None => None,
            Some(c) => exponent_end(s, c),
        }
    }
}

fn number_scan(s: &[u8], i: usize) -> (r: Option<usize>)
    requires
        i <= s@.len(),
    ensures
        r matches Some(j) ==> number_end(s@, i as int) == Some(j as int) && i < j <= s@.len(),
        r is None ==> number_end(s@, i as int) is None,
{
    let a: usize = if i < s.len() && s[i] == 0x2d {
        i + 1
    } else {
        i
    };
    if !(a < s.len() && 0x30 <= s[a] && s[a] <= 0x39) {
        return None;
    }
    let b: usize = if s[a] == 0x30 {
        a + 1
    } else {
        digits_end(s, a + 1)
    };
    assert(s@[a as int] != 0x30 ==> skip_digits(s@, a as int) == skip_digits(s@, a + 1));
    let mut c: usize = b;
    if b < s.len() && s[b] == 0x2e {
        let d = digits_end(s, b + 1);
        if d == b + 1 {
            return None;
        }
        c = d;
    }
    assert(fraction_end(s@, b as int) == Some(c as int));
    if c < s.len() && (s[c] == 0x65 || s[c] == 0x45) {
        let e: usize = if c + 1 < s.len() && (s[c + 1] == 0x2b || s[c + 1] == 0x2d) {
            c + 2
        } else {
            c + 1
        };
        let f = digits_end(s, e);
        if f == e {
            None
        } else {
            Some(f)
        }
    } else {
        Some(c)
    }
}

/// The position just after `w` when the input holds `w` at `i`.
pub open spec fn word_end(s: Seq<u8>, i: int, w: Seq<u8>) -> Option<int> {
    if 0 <= i && i + w.len() <= s.len() && s.subrange(i, i + w.len()) == w {
        Some(i + w.len())
    } else {
        None
    }
}

fn word_scan(s: &[u8], i: usize, w: &[u8]) -> (r: Option<usize>)
    requires
        i <= s@.len(),
        w@.len() > 0,
    ensures
        r matches Some(j) ==> word_end(s@, i as int, w@) == Some(j as int) && i < j <= s@.len(),
        r is None ==> word_end(s@, i as int, w@) is None,
{
    let n = s.len();
    if w.len() > n - i {
        return None;
    }
    let mut k: usize = 0;
    while k < w.len()
        invariant
            n == s@.len(),
            0 <= k <= w@.len(),
            i + w@.len() <= s@.len(),
            forall|m: int| 0 <= m < k ==> s@[i + m] == w@[m],
        decreases w@.len() - k,
    {
        if s[i + k] != w[k] {
            assert(s@.subrange(i as int, i + w@.len())[k as int] != w@[k as int]);
            return None;
        }
        k = k + 1;
    }
    assert(s@.subrange(i as int, i + w@.len()) =~= w@);
    Some(i + w.len())
}


/// Relies on `std::str::from_utf8`: it succeeds exactly on valid UTF-8.
#[verifier::external_body]
fn utf8_valid(b: &[u8]) -> (r: bool)
    ensures
        r == valid_utf8(b@),
{
    std::str::from_utf8(b).is_ok()
}

pub open spec fn hex_val(b: u8) -> Option<u32> {
    if 0x30 <= b <= 0x39 {
        Some((b - 0x30) as u32)
    } else if 0x61 <= b <= 0x66 {
        Some((b - 0x61 + 10) as u32)
    } else if 0x41 <= b <= 0x46 {
        Some((b - 0x41 + 10) as u32)
    } else {
        None
    }
}

fn hex_digit(b: u8) -> (r: Option<u32>)
    ensures
        r == hex_val(b),
{
    if 0x30 <= b && b <= 0x39 {
        Some((b - 0x30) as u32)
    } else if 0x61 <= b && b <= 0x66 {
        Some((b - 0x61 + 10) as u32)
    } else if 0x41 <= b && b <= 0x46 {
        Some((b - 0x41 + 10) as u32)
    } else {
        None
    }
}

/// The value of the four hexadecimal digits at `i`.
pub open spec fn hex4(s: Seq<u8>, i: int) -> Option<u32> {
    if 0 <= i && i + 4 <= s.len() && hex_val(s[i]) is Some && hex_val(s[i + 1]) is Some
        && hex_val(s[i + 2]) is Some && hex_val(s[i + 3]) is Some {
        Some(
            (hex_val(s[i])->0 * 4096 + hex_val(s[i + 1])->0 * 256 + hex_val(s[i + 2])->0 * 16
                + hex_val(s[i + 3])->0) as u32,
        )
    } else {
        None
    }
}

fn hex4_scan(s: &[u8], i: usize) -> (r: Option<u32>)
    ensures
        r == hex4(s@, i as int),
        r matches Some(u) ==> u <= 0xFFFF,
{
    let n = s.len();
    if i > n || n - i < 4 {
        return None;
    }
    let a = hex_digit(s[i]);
    let b = hex_digit(s[i + 1]);
    let c = hex_digit(s[i + 2]);
    let d = hex_digit(s[i + 3]);
    match (a, b, c, d) {
        (Some(a), Some(b), Some(c), Some(d)) => Some(a * 4096 + b * 256 + c * 16 + d),
        _ => None,
    }
}

/// The byte that a one-letter escape stands for.
pub open spec fn simple_escape(e: u8) -> Option<u8> {
    if e == 0x22 {
        Some(0x22u8)
    } else if e == 0x5c {
        Some(0x5cu8)
    } else if e == 0x2f {
        Some(0x2fu8)
    } else if e == 0x62 {
        Some(0x08u8)
    } else if e == 0x66 {
        Some(0x0cu8)
    } else if e == 0x6e {
        Some(0x0au8)
    } else if e == 0x72 {
        Some(0x0du8)
    } else if e == 0x74 {
        Some(0x09u8)
    } else {
        None
    }
}

fn escape_byte(e: u8) -> (r: Option<u8>)
    ensures
        r == simple_escape(e),
{
    if e == 0x22 {
        Some(0x22u8)
    } else if e == 0x5c {
        Some(0x5cu8)
    } else if e == 0x2f {
        Some(0x2fu8)
    } else if e == 0x62 {
        Some(0x08u8)
    } else if e == 0x66 {
        Some(0x0cu8)
    } else if e == 0x6e {
        Some(0x0au8)
    } else if e == 0x72 {
        Some(0x0du8)
    } else if e == 0x74 {
        Some(0x09u8)
    } else {
        None
    }
}

/// The scalar value that a surrogate pair stands for.
pub open spec fn pair_scalar(hi: u32, lo: u32) -> u32 {
    (0x10000 + (hi - 0xD800) * 0x400 + (lo - 0xDC00)) as u32
}

/// The escape sequence at `i` (which holds a backslash): the UTF-8 bytes it
/// stands for, and the position after it. A `\u` escape of a leading
/// surrogate must be followed by a `\u` escape of a trailing one; a lone
/// surrogate is refused.
pub open spec fn escape_at(s: Seq<u8>, i: int) -> Option<(Seq<u8>, int)> {
    if !(0 <= i && i + 1 < s.len()) {
        None
    } else if simple_escape(s[i + 1]) is Some {
        Some((seq![simple_escape(s[i + 1])->0], i + 2))
    } else if s[i + 1] == 0x75 {
        match hex4(s, i + 2) {
            None => None,
            Some(u) => {
                if 0xD800 <= u < 0xDC00 {
                    if i + 7 < s.len() && s[i + 6] == 0x5c && s[i + 7] == 0x75 {
                        match hex4(s, i + 8) {
                            Some(l) => {
                                if 0xDC00 <= l < 0xE000 {
                                    Some((encode_scalar(pair_scalar(u, l)), i + 12))
                                } else {
                                    None
                                }
                            },
                            None => None,
                        }
                    } else {
                        None
                    }
                } else if 0xDC00 <= u < 0xE000 {
                    None
                } else {
                    Some((encode_scalar(u), i + 6))
                }
            },
        }
    } else {
        None
    }
}

fn encode_codepoint(v: u32) -> (r: Vec<u8>)
    requires
        is_scalar(v),
    ensures
        r@ == encode_scalar(v),
{
    if v <= 0x7F {
        vec![(v & 0x7F) as u8]
    } else if v <= 0x7FF {
        vec![0xC0 | ((v >> 6) & 0x1F) as u8, 0x80 | (v & 0x3F) as u8]
    } else if v <= 0xFFFF {
        vec![0xE0 | ((v >> 12) & 0x0F) as u8, 0x80 | ((v >> 6) & 0x3F) as u8, 0x80 | (v & 0x3F) as u8]
    } else {
        vec![
            0xF0 | ((v >> 18) & 0x7) as u8,
            0x80 | ((v >> 12) & 0x3F) as u8,
            0x80 | ((v >> 6) & 0x3F) as u8,
            0x80 | (v & 0x3F) as u8,
        ]
    }
}

fn escape_scan(s: &[u8], i: usize) -> (r: Option<(Vec<u8>, usize)>)
    requires
        i < s@.len(),
    ensures
        r matches Some(p) ==> escape_at(s@, i as int) == Some((p.0@, p.1 as int)) && i < p.1
            <= s@.len(),
        r is None ==> escape_at(s@, i as int) is None,
{
    let n = s.len();
    if i + 1 >= n {
        return None;
    }
    if let Some(b) = escape_byte(s[i + 1]) {
        return Some((vec![b], i + 2));
    }
    if s[i + 1] != 0x75 {
        return None;
    }
    let u = match hex4_scan(s, i + 2) {
        None => return None,
        Some(u) => u,
    };
    if 0xD800 <= u && u < 0xDC00 {
        if n - i > 7 && s[i + 6] == 0x5c && s[i + 7] == 0x75 {
            match hex4_scan(s, i + 8) {
                Some(l) => {
                    if 0xDC00 <= l && l < 0xE000 {
                        let v: u32 = 0x10000 + (u - 0xD800) * 0x400 + (l - 0xDC00);
                        assert(0x10000 <= v <= 0x10FFFF) by (nonlinear_arith)
                            requires
                                v == 0x10000 + (u - 0xD800) * 0x400 + (l - 0xDC00),
                                0xD800 <= u < 0xDC00,
                                0xDC00 <= l < 0xE000,
                        ;
                        Some((encode_codepoint(v), i + 12))
                    } else {
                        None
                    }
                },
                None => None,
            }
        } else {
            None
        }
    } else if 0xDC00 <= u && u < 0xE000 {
        None
    } else {
        Some((encode_codepoint(u), i + 6))
    }
}

/// The content of a string whose body starts at `i`, with `acc` already read:
/// the bytes it stands for and the position after the closing quote.
/// Control characters must be escaped.
pub open spec fn string_body(s: Seq<u8>, i: int, acc: Seq<u8>) -> Option<(Seq<u8>, int)>
    decreases s.len() - i,
{
    if !(0 <= i < s.len()) {
        None
    } else if s[i] == 0x22 {
        Some((acc, i + 1))
    } else if s[i] == 0x5c {
        match escape_at(s, i) {
            None => None,
            Some(p) => {
                if p.1 <= i {
                    None
                } else {
                    string_body(s, p.1, acc + p.0)
                }
            },
        }
    } else if s[i] < 0x20 {
        None
    } else {
        string_body(s, i + 1, acc.push(s[i]))
    }
}

/// The string at `i`: its content as UTF-8 bytes and the position after it.
/// The content must be valid UTF-8.
pub open spec fn string_at(s: Seq<u8>, i: int) -> Option<(Seq<u8>, int)> {
    if 0 <= i < s.len() && s[i] == 0x22 {
        match string_body(s, i + 1, seq![]) {
            Some(p) => {
                if valid_utf8(p.0) {
                    Some(p)
                } else {
                    None
                }
            },
            None => None,
        }
    } else {
        None
    }
}

pub fn string_scan(s: &[u8], i: usize) -> (r: Option<(Vec<u8>, usize)>)
    requires
        i <= s@.len(),
    ensures
        r matches Some(p) ==> string_at(s@, i as int) == Some((p.0@, p.1 as int)) && i < p.1
            <= s@.len(),
        r is None ==> string_at(s@, i as int) is None,
{
    let n = s.len();
    if !(i < n && s[i] == 0x22) {
        return None;
    }
    let mut acc: Vec<u8> = Vec::new();
    let mut j: usize = i + 1;
    loop
        invariant
            n == s@.len(),
            i < j <= n,
            s@[i as int] == 0x22,
            string_body(s@, j as int, acc@) == string_body(s@, i + 1, seq![]),
        decreases n - j,
    {
        if j >= n {
            return None;
        }
        let b = s[j];
        if b == 0x22 {
            assert(string_body(s@, j as int, acc@) == Some((acc@, j + 1)));
            if utf8_valid(acc.as_slice()) {
                return Some((acc, j + 1));
            } else {
                return None;
            }
        } else if b == 0x5c {
            match escape_scan(s, j) {
                None => return None,
                Some((mut e, k)) => {
                    acc.append(&mut e);
                    j = k;
                },
            }
        } else if b < 0x20 {
            return None;
        } else {
            acc.push(b);
            j = j + 1;
        }
    }
}


/// How deeply arrays and objects may nest in a document.
pub const DEPTH_LIMIT: usize = 128;

pub open spec fn true_word() -> Seq<u8> {
    seq![0x74u8, 0x72, 0x75, 0x65]
}

pub open spec fn false_word() -> Seq<u8> {
    seq![0x66u8, 0x61, 0x6c, 0x73, 0x65]
}

pub open spec fn null_word() -> Seq<u8> {
    seq![0x6eu8, 0x75, 0x6c, 0x6c]
}

/// The position after the value that starts at `i`, where at most `d` arrays
/// and objects may still be opened.
pub open spec fn value_end(s: Seq<u8>, i: int, d: nat) -> Option<int>
    decreases d, 1int, 0int,
{
    if !(0 <= i < s.len()) {
        None
    } else if s[i] == 0x22 {
        match string_at(s, i) {
            Some(p) => Some(p.1),
            None => None,
        }
    } else if s[i] == 0x5b {
        if d == 0 {
            None
        } else {
            match array_items(s, skip_ws(s, i + 1), d, seq![]) {
                Some(p) => Some(p.1),
                None => None,
            }
        }
    } else if s[i] == 0x7b {
        if d == 0 {
            None
        } else {
            match object_items(s, skip_ws(s, i + 1), d, seq![]) {
                Some(p) => Some(p.1),
                None => None,
            }
        }
    } else if s[i] == 0x74 {
        word_end(s, i, true_word())
    } else if s[i] == 0x66 {
        word_end(s, i, false_word())
    } else if s[i] == 0x6e {
        word_end(s, i, null_word())
    } else {
        number_end(s, i)
    }
}

/// The elements of an array, read from `i` (just after `[` or a `,` and the
/// whitespace after it) with `acc` already read: the span of each element and
/// the position after the closing `]`.
pub open spec fn array_items(s: Seq<u8>, i: int, d: nat, acc: Seq<(int, int)>) -> Option<
    (Seq<(int, int)>, int),
>
    decreases d, 0int, s.len() - i,
{
    if d == 0 || !(0 <= i < s.len()) {
        None
    } else if acc.len() == 0 && s[i] == 0x5d {
        Some((acc, i + 1))
    } else {
        match value_end(s, i, (d - 1) as nat) {
            None => None,
            Some(v) => {
                let j = skip_ws(s, v);
                if !(i < v && j < s.len()) {
                    None
                } else if s[j] == 0x2c {
                    let k = skip_ws(s, j + 1);
                    if !(i < k < s.len()) {
                        None
                    } else {
                        array_items(s, k, d, acc.push((i, v)))
                    }
                } else if s[j] == 0x5d {
                    Some((acc.push((i, v)), j + 1))
                } else {
                    None
                }
            },
        }
    }
}

/// The members of an object, read from `i` (just after `{` or a `,` and the
/// whitespace after it) with `acc` already read: each key's content with the
/// span of its value, in the order written, and the position after the `}`.
pub open spec fn object_items(
    s: Seq<u8>,
    i: int,
    d: nat,
    acc: Seq<(Seq<u8>, int, int)>,
) -> Option<(Seq<(Seq<u8>, int, int)>, int)>
    decreases d, 0int, s.len() - i,
{
    if d == 0 || !(0 <= i < s.len()) {
        None
    } else if acc.len() == 0 && s[i] == 0x7d {
        Some((acc, i + 1))
    } else {
        match string_at(s, i) {
            None => None,
            Some(kp) => {
                let b = skip_ws(s, kp.1);
                if !(0 <= b < s.len() && s[b] == 0x3a) {
                    None
                } else {
                    let c = skip_ws(s, b + 1);
                    match value_end(s, c, (d - 1) as nat) {
                        None => None,
                        Some(v) => {
                            let j = skip_ws(s, v);
                            if !(i < v && j < s.len()) {
                                None
                            } else if s[j] == 0x2c {
                                let k = skip_ws(s, j + 1);
                                if !(i < k < s.len()) {
                                    None
                                } else {
                                    object_items(s, k, d, acc.push((kp.0, c, v)))
                                }
                            } else if s[j] == 0x7d {
                                Some((acc.push((kp.0, c, v)), j + 1))
                            } else {
                                None
                            }
                        },
                    }
                }
            },
        }
    }
}

/// Where a member of an object lies: its key's content and the span of its value.
pub struct Member {
    pub key: Vec<u8>,
    pub start: usize,
    pub end: usize,
}

pub open spec fn members_view(v: Seq<Member>) -> Seq<(Seq<u8>, int, int)> {
    v.map_values(|m: Member| (m.key@, m.start as int, m.end as int))
}

pub open spec fn spans_view(v: Seq<(usize, usize)>) -> Seq<(int, int)> {
    v.map_values(|p: (usize, usize)| (p.0 as int, p.1 as int))
}

pub fn value_scan(s: &[u8], i: usize, d: usize) -> (r: Option<usize>)
    requires
        i <= s@.len(),
    ensures
        r matches Some(j) ==> value_end(s@, i as int, d as nat) == Some(j as int) && i < j
            <= s@.len(),
        r is None ==> value_end(s@, i as int, d as nat) is None,
    decreases d, 1int,
{
    let n = s.len();
    if i >= n {
        return None;
    }
    let b = s[i];
    if b == 0x22 {
        match string_scan(s, i) {
            Some((_, j)) => Some(j),
            None => None,
        }
    } else if b == 0x5b {
        if d == 0 {
            None
        } else {
            let k = ws_end(s, i + 1);
            match array_scan(s, k, d) {
                Some((_, j)) => Some(j),
                None => None,
            }
        }
    } else if b == 0x7b {
        if d == 0 {
            None
        } else {
            let k = ws_end(s, i + 1);
            match object_scan(s, k, d) {
                Some((_, j)) => Some(j),
                None => None,
            }
        }
    } else if b == 0x74 {
        let w: [u8; 4] = [0x74u8, 0x72, 0x75, 0x65];
        assert(w@ == true_word());
        word_scan(s, i, w.as_slice())
    } else if b == 0x66 {
        let w: [u8; 5] = [0x66u8, 0x61, 0x6c, 0x73, 0x65];
        assert(w@ == false_word());
        word_scan(s, i, w.as_slice())
    } else if b == 0x6e {
        let w: [u8; 4] = [0x6eu8, 0x75, 0x6c, 0x6c];
        assert(w@ == null_word());
        word_scan(s, i, w.as_slice())
    } else {
        number_scan(s, i)
    }
}

pub fn array_scan(s: &[u8], i: usize, d: usize) -> (r: Option<(Vec<(usize, usize)>, usize)>)
    requires
        i <= s@.len(),
    ensures
        r matches Some(p) ==> array_items(s@, i as int, d as nat, seq![]) == Some(
            (spans_view(p.0@), p.1 as int),
        ) && i < p.1 <= s@.len(),
        r is None ==> array_items(s@, i as int, d as nat, seq![]) is None,
    decreases d, 0int,
{
    let n = s.len();
    if d == 0 || i >= n {
        return None;
    }
    let mut acc: Vec<(usize, usize)> = Vec::new();
    if s[i] == 0x5d {
        assert(spans_view(acc@) =~= seq![]);
        return Some((acc, i + 1));
    }
    let mut k: usize = i;
    assert(spans_view(acc@) =~= seq![]);
    loop
        invariant
            n == s@.len(),
            d > 0,
            i <= k < n,
            acc@.len() == 0 ==> k == i,
            s@[i as int] != 0x5d,
            array_items(s@, k as int, d as nat, spans_view(acc@)) == array_items(
                s@,
                i as int,
                d as nat,
                seq![],
            ),
        decreases n - k,
    {
        assert(acc@.len() == 0 ==> spans_view(acc@) =~= seq![]);
        let v = match value_scan(s, k, d - 1) {
            None => return None,
            Some(v) => v,
        };
        let j = ws_end(s, v);
        if j >= n {
            return None;
        }
        let ghost old_acc = acc@;
        acc.push((k, v));
        assert(spans_view(acc@) =~= spans_view(old_acc).push((k as int, v as int)));
        if s[j] == 0x2c {
            let k2 = ws_end(s, j + 1);
            if k2 >= n {
                return None;
            }
            k = k2;
        } else if s[j] == 0x5d {
            return Some((acc, j + 1));
        } else {
            return None;
        }
    }
}

pub fn object_scan(s: &[u8], i: usize, d: usize) -> (r: Option<(Vec<Member>, usize)>)
    requires
        i <= s@.len(),
    ensures
        r matches Some(p) ==> object_items(s@, i as int, d as nat, seq![]) == Some(
            (members_view(p.0@), p.1 as int),
        ) && i < p.1 <= s@.len(),
        r is None ==> object_items(s@, i as int, d as nat, seq![]) is None,
    decreases d, 0int,
{
    let n = s.len();
    if d == 0 || i >= n {
        return None;
    }
    let mut acc: Vec<Member> = Vec::new();
    if s[i] == 0x7d {
        assert(members_view(acc@) =~= seq![]);
        return Some((acc, i + 1));
    }
    let mut k: usize = i;
    assert(members_view(acc@) =~= seq![]);
    loop
        invariant
            n == s@.len(),
            d > 0,
            i <= k < n,
            acc@.len() == 0 ==> k == i,
            s@[i as int] != 0x7d,
            object_items(s@, k as int, d as nat, members_view(acc@)) == object_items(
                s@,
                i as int,
                d as nat,
                seq![],
            ),
        decreases n - k,
    {
        assert(acc@.len() == 0 ==> members_view(acc@) =~= seq![]);
        let (key, a) = match string_scan(s, k) {
            None => return None,
            Some(p) => p,
        };
        let b = ws_end(s, a);
        if !(b < n && s[b] == 0x3a) {
            return None;
        }
        let c = ws_end(s, b + 1);
        let v = match value_scan(s, c, d - 1) {
            None => return None,
            Some(v) => v,
        };
        let j = ws_end(s, v);
        if j >= n {
            return None;
        }
        let ghost old_acc = acc@;
        let ghost key_view = key@;
        acc.push(Member { key, start: c, end: v });
        assert(members_view(acc@) =~= members_view(old_acc).push((key_view, c as int, v as int)));
        if s[j] == 0x2c {
            let k2 = ws_end(s, j + 1);
            if k2 >= n {
                return None;
            }
            k = k2;
        } else if s[j] == 0x7d {
            return Some((acc, j + 1));
        } else {
            return None;
        }
    }
}


/// The span of the single value that a whole document holds: whitespace may
/// stand before and after it, nothing else.
pub open spec fn document(s: Seq<u8>) -> Option<(int, int)> {
    let i = skip_ws(s, 0);
    match value_end(s, i, DEPTH_LIMIT as nat) {
        Some(v) => {
            if skip_ws(s, v) == s.len() {
                Some((i, v))
            } else {
                None
            }
        },
        None => None,
    }
}

pub fn document_scan(s: &[u8]) -> (r: Option<(usize, usize)>)
    ensures
        r matches Some(p) ==> document(s@) == Some((p.0 as int, p.1 as int)),
        r is None ==> document(s@) is None,
{
    let i = ws_end(s, 0);
    match value_scan(s, i, DEPTH_LIMIT) {
        Some(v) => {
            if ws_end(s, v) == s.len() {
                Some((i, v))
            } else {
                None
            }
        },
        None => None,
    }
}

} // verus!
