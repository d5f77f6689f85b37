//! Numbers and timestamps as text.
use vstd::prelude::*;

verus! {

/// The upper-case hexadecimal digit of `n`, for `n` below sixteen.
pub open spec fn hex_digit(n: int) -> char {
    "0123456789ABCDEF"@[n]
}

/// The four upper-case hexadecimal digits of `v`, most significant first.
pub open spec fn hex4(v: u16) -> Seq<char> {
    seq![
        hex_digit(v as int / 4096),
        hex_digit(v as int / 256 % 16),
        hex_digit(v as int / 16 % 16),
        hex_digit(v as int % 16),
    ]
}

/// A volume serial number as text: the high and the low 16 bits, each as
/// four hexadecimal digits, with a hyphen between them.
pub open spec fn serial_text(serial: u32) -> Seq<char> {
    hex4((serial >> 16) as u16) + seq!['-'] + hex4((serial & 0xffff) as u16)
}

/// The decimal digit of `n`, for `n` below ten.
pub open spec fn decimal_digit(n: int) -> char {
    "0123456789"@[n]
}

/// The decimal digits of `n`, without leading zeros.
pub open spec fn decimal_text(n: nat) -> Seq<char>
    decreases n,
{
    if n < 10 {
        seq![decimal_digit(n as int)]
    } else {
        decimal_text(n / 10) + seq![decimal_digit(n as int % 10)]
    }
}

/// How a Windows file time, a count of 100-nanosecond ticks since the first
/// second of 1601, reads as a date and time in UTC, to the second.
pub uninterp spec fn filetime_text(ticks: u64) -> Seq<char>;

/// Builds `winparsingtools::date_time::FileTime` from the tick count and
/// takes its `Display` text, which has the form `YYYY-MM-DDTHH:MM:SSZ`.
/// Trusted: the text depends on the tick count alone. No tick count makes
/// the outside code panic: the largest lies some 58,000 years after 1601,
/// inside the range of dates that it can hold.
#[verifier::external_body]
pub(crate) fn format_filetime(ticks: u64) -> (r: String)
    ensures
        r@ == filetime_text(ticks),
{
    winparsingtools::date_time::FileTime::new(ticks).to_string()
}

/// The one-character text of the hexadecimal digit `n`.
fn hex_digit_str(n: u16) -> (r: &'static str)
    requires
        n < 16,
    ensures
        r@ == seq![hex_digit(n as int)],
{
    let digits: &'static str = "0123456789ABCDEF";
    proof {
        reveal_strlit("0123456789ABCDEF");
    }
    let r = digits.substring_ascii(n as usize, n as usize + 1);
    assert(r@ =~= seq![hex_digit(n as int)]);
    r
}

/// The one-character text of the decimal digit `n`.
fn decimal_digit_str(n: u32) -> (r: &'static str)
    requires
        n < 10,
    ensures
        r@ == seq![decimal_digit(n as int)],
{
    let digits: &'static str = "0123456789";
    proof {
        reveal_strlit("0123456789");
    }
    let r = digits.substring_ascii(n as usize, n as usize + 1);
    assert(r@ =~= seq![decimal_digit(n as int)]);
    r
}

/// `v` as four upper-case hexadecimal digits.
pub fn format_hex4(v: u16) -> (r: String)
    ensures
        r@ == hex4(v),
{
    let mut s = String::from_str(hex_digit_str(v / 4096));
    s.append(hex_digit_str(v / 256 % 16));
    s.append(hex_digit_str(v / 16 % 16));
    s.append(hex_digit_str(v % 16));
    assert(s@ =~= hex4(v));
    s
}

/// A volume serial number in the form `XXXX-XXXX`.
pub fn format_serial(serial: u32) -> (r: String)
    ensures
        r@ == serial_text(serial),
{
    let high: u32 = serial >> 16;
    let low: u32 = serial & 0xffff;
    assert(high <= 0xffff) by (bit_vector)
        requires
            high == serial >> 16,
    ;
    assert(low <= 0xffff) by (bit_vector)
        requires
            low == serial & 0xffff,
    ;
    let mut s = format_hex4(high as u16);
    proof {
        reveal_strlit("-");
    }
    s.append("-");
    let tail = format_hex4(low as u16);
    s.append(tail.as_str());
    assert(s@ =~= serial_text(serial));
    s
}

/// `n` in decimal.
pub fn format_decimal(n: u32) -> (r: String)
    ensures
        r@ == decimal_text(n as nat),
{
    let mut s = String::from_str(decimal_digit_str(n % 10));
    let mut rest: u32 = n / 10;
    while rest > 0
        invariant
            decimal_text(n as nat) == (if rest > 0 {
                decimal_text(rest as nat) + s@
            } else {
                s@
            }),
        decreases rest,
    {
        let digit = String::from_str(decimal_digit_str(rest % 10));
        let ghost before = s@;
        s = digit.concat(s.as_str());
        assert(s@ =~= seq![decimal_digit(rest as int % 10)] + before);
        proof {
            if rest >= 10 {
                assert(decimal_text(rest as nat) + before =~= decimal_text((rest / 10) as nat)
                    + s@);
            }
        }
        rest = rest / 10;
    }
    s
}

} // verus!
