//! Text fields: where a zero-terminated string ends, and how its bytes
//! become characters.
//!
//! Two kinds of decoding occur in a shell link. A label is decoded strictly:
//! bytes that are not well-formed text give no label. A path or a display
//! string is decoded leniently: ill-formed input is replaced, never refused.
use crate::bytes::{get_u16, le16, read_u16_le};
use crate::error::opt_text;
use vstd::prelude::*;
use vstd::utf8::*;

verus! {

/// The index of the first zero byte of `s` at or after `at`.
pub open spec fn find_nul(s: Seq<u8>, at: int) -> Option<int>
    decreases s.len() - at,
{
    if at < 0 || at >= s.len() {
        None
    } else if s[at] == 0 {
        Some(at)
    } else {
        find_nul(s, at + 1)
    }
}

/// The bytes of the zero-terminated string that starts at `at`, without the
/// terminator; `None` where no zero byte follows.
pub open spec fn c_string_bytes(s: Seq<u8>, at: int) -> Option<Seq<u8>> {
    match find_nul(s, at) {
        Some(end) => Some(s.subrange(at, end)),
        None => None,
    }
}

/// The number of 16-bit units before the first zero unit, reading
/// little-endian units from `at` on; `None` where the bytes end first.
pub open spec fn find_nul16(s: Seq<u8>, at: int) -> Option<nat>
    decreases s.len() - at,
{
    if at < 0 || at + 2 > s.len() {
        None
    } else if le16(s, at) == 0 {
        Some(0)
    } else {
        match find_nul16(s, at + 2) {
            Some(n) => Some(n + 1),
            None => None,
        }
    }
}

/// The `n` little-endian 16-bit units that start at `at`.
pub open spec fn units_le(s: Seq<u8>, at: int, n: nat) -> Seq<u16> {
    Seq::new(n, |i: int| le16(s, at + 2 * i))
}

/// The units of the zero-terminated UTF-16 string that starts at `at`,
/// without the terminator; `None` where no zero unit follows.
pub open spec fn c_string_units(s: Seq<u8>, at: int) -> Option<Seq<u16>> {
    match find_nul16(s, at) {
        Some(n) => Some(units_le(s, at, n)),
        None => None,
    }
}

/// What strict UTF-16 decoding makes of `units`: the text, or `None` where a
/// surrogate is unpaired.
pub uninterp spec fn utf16_strict(units: Seq<u16>) -> Option<Seq<char>>;

/// What lenient UTF-16 decoding makes of `units`, with U+FFFD in place of
/// what is ill-formed.
pub uninterp spec fn utf16_lossy(units: Seq<u16>) -> Seq<char>;

/// What lenient UTF-8 decoding makes of `bytes`, with U+FFFD in place of
/// what is ill-formed.
pub uninterp spec fn utf8_lossy(bytes: Seq<u8>) -> Seq<char>;

/// The strictly decoded zero-terminated 8-bit string at `at`: `None` where
/// it has no terminator or is not valid UTF-8.
pub open spec fn utf8_c_string(s: Seq<u8>, at: int) -> Option<Seq<char>> {
    match c_string_bytes(s, at) {
        Some(bytes) => if valid_utf8(bytes) {
            Some(decode_utf8(bytes))
        } else {
            None
        },
        None => None,
    }
}

/// The strictly decoded zero-terminated UTF-16 string at `at`: `None` where
/// it has no terminator or a surrogate is unpaired.
pub open spec fn utf16_c_string(s: Seq<u8>, at: int) -> Option<Seq<char>> {
    match c_string_units(s, at) {
        Some(units) => utf16_strict(units),
        None => None,
    }
}

/// A text that is absent when empty.
pub open spec fn non_empty(t: Option<Seq<char>>) -> Option<Seq<char>> {
    match t {
        Some(s) => if s.len() > 0 {
            Some(s)
        } else {
            None
        },
        None => None,
    }
}

/// The smallest offset at which a structure can hold a label. Offsets count
/// from the start of the structure, and its first four bytes are its size.
pub const FIRST_LABEL_OFFSET: usize = 4;

/// The label at offset `at` of a structure, read as 8-bit text. An offset
/// outside the structure or inside its size field, a missing terminator,
/// ill-formed bytes and an empty string all give no label.
pub open spec fn label8(s: Seq<u8>, at: int) -> Option<Seq<char>> {
    if FIRST_LABEL_OFFSET <= at <= s.len() {
        non_empty(utf8_c_string(s, at))
    } else {
        None
    }
}

/// The label at offset `at` of a structure, read as UTF-16 text. An offset
/// outside the structure or inside its size field, a missing terminator, an
/// unpaired surrogate and an empty string all give no label.
pub open spec fn label16(s: Seq<u8>, at: int) -> Option<Seq<char>> {
    if FIRST_LABEL_OFFSET <= at <= s.len() {
        non_empty(utf16_c_string(s, at))
    } else {
        None
    }
}

/// The leniently decoded zero-terminated 8-bit string at `at`; `None` only
/// where no terminator follows.
pub open spec fn lossy_c_string(s: Seq<u8>, at: int) -> Option<Seq<char>> {
    match c_string_bytes(s, at) {
        Some(bytes) => Some(utf8_lossy(bytes)),
        None => None,
    }
}

/// The leniently decoded zero-terminated UTF-16 string at `at`; `None` only
/// where no terminator follows.
pub open spec fn lossy_c_string16(s: Seq<u8>, at: int) -> Option<Seq<char>> {
    match c_string_units(s, at) {
        Some(units) => Some(utf16_lossy(units)),
        None => None,
    }
}

/// Calls `winparsingtools::utils::read_utf8_string` without a length, on the
/// buffer from `at` on. Trusted: it collects bytes up to the first zero byte,
/// fails where the buffer ends before one, and then accepts exactly the
/// well-formed UTF-8 sequences, which it returns decoded.
#[verifier::external_body]
fn read_utf8_c_string(buf: &[u8], at: usize) -> (r: Option<String>)
    requires
        at <= buf@.len(),
    ensures
        opt_text(r) == utf8_c_string(buf@, at as int),
{
    winparsingtools::utils::read_utf8_string(&mut &buf[at..], None).ok()
}

/// Calls `winparsingtools::utils::read_utf16_string` without a length, on the
/// buffer from `at` on. Trusted: it collects little-endian units up to the
/// first zero unit, fails where the buffer ends before one, and returns what
/// strict UTF-16 decoding makes of the units collected.
#[verifier::external_body]
fn read_utf16_c_string(buf: &[u8], at: usize) -> (r: Option<String>)
    requires
        at <= buf@.len(),
    ensures
        opt_text(r) == (match c_string_units(buf@, at as int) {
            Some(units) => utf16_strict(units),
            None => None,
        }),
{
    winparsingtools::utils::read_utf16_string(&mut &buf[at..], None).ok()
}

/// Calls `String::from_utf8_lossy`. Trusted: the result depends on the bytes
/// alone.
#[verifier::external_body]
pub(crate) fn decode_utf8_lossy(bytes: &[u8]) -> (r: String)
    ensures
        r@ == utf8_lossy(bytes@),
{
    String::from_utf8_lossy(bytes).into_owned()
}

/// Calls `String::from_utf16_lossy`. Trusted: the result depends on the
/// units alone.
#[verifier::external_body]
pub(crate) fn decode_utf16_lossy(units: &[u16]) -> (r: String)
    ensures
        r@ == utf16_lossy(units@),
{
    String::from_utf16_lossy(units)
}

/// Where the zero-terminated string that starts at `at` ends.
pub fn find_terminator(buf: &[u8], at: usize) -> (r: Option<usize>)
    ensures
        match r {
            Some(end) => find_nul(buf@, at as int) == Some(end as int),
            None => find_nul(buf@, at as int).is_none(),
        },
{
    let mut i: usize = at;
    while i < buf.len()
        invariant
            at <= i,
            find_nul(buf@, at as int) == find_nul(buf@, i as int),
        decreases buf@.len() - i,
    {
        if buf[i] == 0 {
            return Some(i);
        }
        i = i + 1;
    }
    None
}

/// How many 16-bit units precede the terminator of the UTF-16 string that
/// starts at `at`.
pub fn find_terminator16(buf: &[u8], at: usize) -> (r: Option<usize>)
    ensures
        match r {
            Some(n) => find_nul16(buf@, at as int) == Some(n as nat) && at + 2 * n + 2 <= buf@.len(),
            None => find_nul16(buf@, at as int).is_none(),
        },
{
    let mut n: usize = 0;
    let mut i: usize = at;
    while buf.len() >= 2 && i <= buf.len() - 2
        invariant
            i == at + 2 * n,
            match find_nul16(buf@, i as int) {
                Some(m) => find_nul16(buf@, at as int) == Some((m + n) as nat),
                None => find_nul16(buf@, at as int).is_none(),
            },
        decreases buf@.len() - i,
    {
        match get_u16(buf, i) {
            Some(unit) => {
                if unit == 0 {
                    return Some(n);
                }
            },
            None => {},
        }
        i = i + 2;
        n = n + 1;
    }
    None
}

/// The `n` little-endian 16-bit units that start at `at`.
pub(crate) fn read_units(buf: &[u8], at: usize, n: usize) -> (r: Vec<u16>)
    requires
        at + 2 * n <= buf@.len(),
    ensures
        r@ == units_le(buf@, at as int, n as nat),
{
    let total: usize = buf.len();
    let mut out: Vec<u16> = Vec::new();
    let mut k: usize = 0;
    while k < n
        invariant
            k <= n,
            at + 2 * n <= buf@.len() == total,
            out@ == units_le(buf@, at as int, k as nat),
        decreases n - k,
    {
        out.push(read_u16_le(buf, at + 2 * k));
        k = k + 1;
        assert(out@ =~= units_le(buf@, at as int, k as nat));
    }
    out
}

/// The label at offset `at`, read as 8-bit text.
pub fn read_label8(buf: &[u8], at: usize) -> (r: Option<String>)
    ensures
        opt_text(r) == label8(buf@, at as int),
{
    if at < FIRST_LABEL_OFFSET || at > buf.len() {
        return None;
    }
    match read_utf8_c_string(buf, at) {
        Some(s) => if s.as_str().is_empty() {
            None
        } else {
            Some(s)
        },
        None => None,
    }
}

/// The label at offset `at`, read as UTF-16 text.
pub fn read_label16(buf: &[u8], at: usize) -> (r: Option<String>)
    ensures
        opt_text(r) == label16(buf@, at as int),
{
    if at < FIRST_LABEL_OFFSET || at > buf.len() {
        return None;
    }
    match read_utf16_c_string(buf, at) {
        Some(s) => if s.as_str().is_empty() {
            None
        } else {
            Some(s)
        },
        None => None,
    }
}

/// The zero-terminated 8-bit string at `at`, leniently decoded. `None` where
/// the buffer ends before a terminator.
pub fn read_c_string(buf: &[u8], at: usize) -> (r: Option<String>)
    ensures
        opt_text(r) == lossy_c_string(buf@, at as int),
{
    match find_terminator(buf, at) {
        Some(end) => {
            proof {
                lemma_find_nul_bounds(buf@, at as int);
            }
            let bytes = vstd::slice::slice_subrange(buf, at, end);
            Some(decode_utf8_lossy(bytes))
        },
        None => None,
    }
}

/// The zero-terminated UTF-16 string at `at`, leniently decoded. `None`
/// where the buffer ends before a terminator.
pub fn read_c_string16(buf: &[u8], at: usize) -> (r: Option<String>)
    ensures
        opt_text(r) == lossy_c_string16(buf@, at as int),
{
    match find_terminator16(buf, at) {
        Some(n) => {
            let units = read_units(buf, at, n);
            Some(decode_utf16_lossy(units.as_slice()))
        },
        None => None,
    }
}

/// How a path and what continues it are joined: with one backslash between
/// them, unless the first part is empty or ends in one already. An empty
/// continuation leaves the first part as it is.
pub open spec fn join_path(base: Seq<char>, suffix: Seq<char>) -> Seq<char> {
    if suffix.len() == 0 {
        base
    } else if base.len() == 0 || base.last() == '\\' {
        base + suffix
    } else {
        base + seq!['\\'] + suffix
    }
}

/// Joins a path and what continues it.
pub fn join(base: &str, suffix: &str) -> (r: String)
    ensures
        r@ == join_path(base@, suffix@),
{
    let mut out = String::from_str(base);
    if suffix.unicode_len() == 0 {
        return out;
    }
    let n: usize = base.unicode_len();
    if n > 0 && base.get_char(n - 1) != '\\' {
        proof {
            reveal_strlit("\\");
        }
        out.append("\\");
        assert(out@ =~= base@ + seq!['\\']);
    }
    out.append(suffix);
    out
}

/// The first zero byte found lies in the buffer, at or after the start, and
/// no zero byte precedes it.
pub proof fn lemma_find_nul_bounds(s: Seq<u8>, at: int)
    ensures
        match find_nul(s, at) {
            Some(end) => 0 <= at <= end < s.len() && s[end] == 0 && forall|j: int|
                at <= j < end ==> s[j] != 0,
            None => forall|j: int| 0 <= at <= j < s.len() ==> s[j] != 0,
        },
    decreases s.len() - at,
{
    if at < 0 || at >= s.len() {
    } else if s[at] == 0 {
    } else {
        lemma_find_nul_bounds(s, at + 1);
    }
}

} // verus!
