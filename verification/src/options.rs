//! Parsing of the textual options that configure a run.

use crate::exporter::ExportFormat;
use crate::symbol::{Mask, QrCodeEcc, Version, MAX_MASK, MAX_VERSION, MIN_VERSION};
use vstd::prelude::*;

verus! {

/// Whether `c` is one of the decimal digits `0` to `9`.
pub open spec fn is_digit(c: char) -> bool {
    '0' <= c <= '9'
}

/// The number that a string of decimal digits denotes; leading zeros count
/// for nothing.
pub open spec fn digits_value(digits: Seq<char>) -> nat
    decreases digits.len(),
{
    if digits.len() == 0 {
        0
    } else {
        digits_value(digits.drop_last()) * 10 + (digits.last() as nat - '0' as nat) as nat
    }
}

/// Every character is a decimal digit.
pub open spec fn all_digits(text: Seq<char>) -> bool {
    forall|i: int| 0 <= i < text.len() ==> is_digit(#[trigger] text[i])
}

/// The text without the plus sign that may lead it.
pub open spec fn unsigned_digits(text: Seq<char>) -> Seq<char> {
    if text.len() > 0 && text[0] == '+' {
        text.skip(1)
    } else {
        text
    }
}

/// The unsigned decimal number that a text denotes, as the integer types of
/// `std` parse it: an optional plus sign, then one or more decimal digits
/// and nothing else, denoting a number of at most `max`.
pub open spec fn parsed_unsigned(text: Seq<char>, max: nat) -> Option<nat> {
    let digits = unsigned_digits(text);
    if digits.len() > 0 && all_digits(digits) && digits_value(digits) <= max {
        Some(digits_value(digits))
    } else {
        None
    }
}

/// A string of digits denotes at least what any of its prefixes denotes.
pub proof fn lemma_digits_value_grows(digits: Seq<char>, k: int)
    requires
        all_digits(digits),
        0 <= k <= digits.len(),
    ensures
        digits_value(digits.take(k)) <= digits_value(digits),
    decreases digits.len() - k,
{
    if k == digits.len() {
        assert(digits.take(k) =~= digits);
    } else {
        lemma_digits_value_grows(digits.drop_last(), k);
        assert(digits.drop_last().take(k) =~= digits.take(k));
        assert(is_digit(digits.last()));
    }
}

/// Parses an unsigned decimal number of at most `max`.
pub fn parse_unsigned(src: &str, max: u64) -> (r: Option<u64>)
    ensures
        match r {
            Some(v) => parsed_unsigned(src@, max as nat) == Some(v as nat),
            None => parsed_unsigned(src@, max as nat) is None,
        },
{
    let ghost text = src@;
    let ghost digits = unsigned_digits(text);
    let mut value: u64 = 0;
    let mut signed: bool = false;
    let mut seen: bool = false;
    let ghost mut count: int = 0;
    proof {
        assert(digits.take(0) =~= Seq::<char>::empty());
    }
    for c in it: src.chars()
        invariant
            it.seq() == text,
            text == src@,
            digits == unsigned_digits(text),
            signed <==> it.index() > 0 && text[0] == '+',
            seen <==> count > 0,
            count == it.index() - (if signed { 1int } else { 0int }),
            it.index() > 0 ==> (signed <==> digits.len() == text.len() - 1),
            it.index() > 0 ==> (!signed <==> digits == text),
            all_digits(digits.take(count)),
            value == digits_value(digits.take(count)),
            value <= max,
    {
        if !signed && !seen && c == '+' {
            signed = true;
        } else {
            let ghost k = count;
            proof {
                assert(digits[k] == c);
                assert(digits.take(k + 1).drop_last() =~= digits.take(k));
                assert(digits.take(k + 1).last() == c);
            }
            if c < '0' || c > '9' {
                proof {
                    assert(!is_digit(digits[k]));
                }
                return None;
            }
            let digit: u64 = (c as u32 - '0' as u32) as u64;
            if digit > max || value > (max - digit) / 10 {
                proof {
                    assert(digits_value(digits.take(k + 1)) > max);
                    if all_digits(digits) {
                        lemma_digits_value_grows(digits, k + 1);
                    }
                }
                return None;
            }
            value = value * 10 + digit;
            seen = true;
            proof {
                count = count + 1;
            }
        }
    }
    proof {
        assert(digits.take(count) =~= digits);
    }
    if seen {
        Some(value)
    } else {
        None
    }
}

/// The upper case of a text, as `std` maps it.
pub uninterp spec fn uppercase(text: Seq<char>) -> Seq<char>;

/// `str::to_uppercase`. Trusted: the result depends on the text alone.
#[verifier::external_body]
fn to_uppercase(text: &str) -> (upper: String)
    ensures
        upper@ == uppercase(text@),
{
    text.to_uppercase()
}

/// Whether two texts are the same.
fn same_text(a: &str, b: &str) -> (same: bool)
    ensures
        same == (a@ == b@),
{
    a.to_owned() == b.to_owned()
}

/// The message for a format name that is neither `SVG` nor `PNG`.
pub open spec fn format_error() -> Seq<char> {
    "Format must be either SVG or PNG."@
}

/// The message for a level name that is none of the four levels.
pub open spec fn ecc_error() -> Seq<char> {
    "QR Code error correction level must be either High, Quartile, Medium or Low."@
}

/// The message for a version that is no number from 1 to 40.
pub open spec fn version_error() -> Seq<char> {
    "QR Code Model 2 version number must be between 1 and 40 inclusive."@
}

/// The message for a mask that is no number from 0 to 7.
pub open spec fn mask_error() -> Seq<char> {
    "QR mask must be between 0 and 7 inclusive."@
}

/// The message for a chunk size that is no number above 0.
pub open spec fn chunk_size_error() -> Seq<char> {
    "Chunk size must be a number greater than 0."@
}

/// The message for a scale that is no number from 1 to 255.
pub open spec fn scale_error() -> Seq<char> {
    "The module scale must be a number between 1 and 255 inclusive."@
}

/// What a format name in upper case denotes: `SVG`, `PNG`, or an error.
pub open spec fn format_named(upper: Seq<char>, r: Result<ExportFormat, String>) -> bool {
    if upper == "SVG"@ {
        r == Ok::<ExportFormat, String>(ExportFormat::SVG)
    } else if upper == "PNG"@ {
        r == Ok::<ExportFormat, String>(ExportFormat::PNG)
    } else {
        r matches Err(message) && message@ == format_error()
    }
}

/// The format that a name in upper case denotes.
pub fn format_from_upper(upper: &str) -> (r: Result<ExportFormat, String>)
    ensures
        format_named(upper@, r),
{
    if same_text(upper, "SVG") {
        Ok(ExportFormat::SVG)
    } else if same_text(upper, "PNG") {
        Ok(ExportFormat::PNG)
    } else {
        Err("Format must be either SVG or PNG.".to_owned())
    }
}

/// Parses the name of an output format, in any case.
pub fn parse_qr_format(src: &str) -> (r: Result<ExportFormat, String>)
    ensures
        format_named(uppercase(src@), r),
{
    let upper = to_uppercase(src);
    format_from_upper(upper.as_str())
}

/// What a level name in upper case denotes: one of the four levels, or an
/// error.
pub open spec fn ecc_named(upper: Seq<char>, r: Result<QrCodeEcc, String>) -> bool {
    if upper == "HIGH"@ {
        r == Ok::<QrCodeEcc, String>(QrCodeEcc::High)
    } else if upper == "LOW"@ {
        r == Ok::<QrCodeEcc, String>(QrCodeEcc::Low)
    } else if upper == "MEDIUM"@ {
        r == Ok::<QrCodeEcc, String>(QrCodeEcc::Medium)
    } else if upper == "QUARTILE"@ {
        r == Ok::<QrCodeEcc, String>(QrCodeEcc::Quartile)
    } else {
        r matches Err(message) && message@ == ecc_error()
    }
}

/// The error correction level that a name in upper case denotes.
pub fn ecc_from_upper(upper: &str) -> (r: Result<QrCodeEcc, String>)
    ensures
        ecc_named(upper@, r),
{
    if same_text(upper, "HIGH") {
        Ok(QrCodeEcc::High)
    } else if same_text(upper, "LOW") {
        Ok(QrCodeEcc::Low)
    } else if same_text(upper, "MEDIUM") {
        Ok(QrCodeEcc::Medium)
    } else if same_text(upper, "QUARTILE") {
        Ok(QrCodeEcc::Quartile)
    } else {
        Err(
            "QR Code error correction level must be either High, Quartile, Medium or Low."
                .to_owned(),
        )
    }
}

/// Parses the name of an error correction level, in any case.
pub fn parse_qr_ecc(src: &str) -> (r: Result<QrCodeEcc, String>)
    ensures
        ecc_named(uppercase(src@), r),
{
    let upper = to_uppercase(src);
    ecc_from_upper(upper.as_str())
}

/// Parses a symbol version number: a decimal number from 1 to 40.
pub fn parse_qr_version(src: &str) -> (r: Result<Version, String>)
    ensures
        match parsed_unsigned(src@, u8::MAX as nat) {
            Some(v) if MIN_VERSION <= v <= MAX_VERSION => r matches Ok(version)
                && version.number() == v,
            _ => r matches Err(message) && message@ == version_error(),
        },
{
    match parse_unsigned(src, 255) {
        Some(x) if x > 0 && x < 41 => Ok(Version::new(x as u8)),
        _ => Err("QR Code Model 2 version number must be between 1 and 40 inclusive.".to_owned()),
    }
}

/// Parses a mask pattern number: a decimal number from 0 to 7.
pub fn parse_qr_mask(src: &str) -> (r: Result<Mask, String>)
    ensures
        match parsed_unsigned(src@, u8::MAX as nat) {
            Some(v) if v <= MAX_MASK => r matches Ok(mask) && mask.number() == v,
            _ => r matches Err(message) && message@ == mask_error(),
        },
{
    match parse_unsigned(src, 255) {
        Some(x) if x < 8 => Ok(Mask::new(x as u8)),
        _ => Err("QR mask must be between 0 and 7 inclusive.".to_owned()),
    }
}

/// Parses the number of rows to a batch: a decimal number of at least 1.
pub fn parse_chunk_size(src: &str) -> (r: Result<usize, String>)
    ensures
        match parsed_unsigned(src@, usize::MAX as nat) {
            Some(v) if v > 0 => r == Ok::<usize, String>(v as usize),
            _ => r matches Err(message) && message@ == chunk_size_error(),
        },
{
    match parse_unsigned(src, usize::MAX as u64) {
        Some(x) if x > 0 => Ok(x as usize),
        _ => Err("Chunk size must be a number greater than 0.".to_owned()),
    }
}

/// Parses the number of pixels to a module: a decimal number from 1 to 255.
pub fn parse_qr_scale(src: &str) -> (r: Result<u8, String>)
    ensures
        match parsed_unsigned(src@, u8::MAX as nat) {
            Some(v) if v > 0 => r == Ok::<u8, String>(v as u8),
            _ => r matches Err(message) && message@ == scale_error(),
        },
{
    match parse_unsigned(src, 255) {
        Some(x) if x > 0 => Ok(x as u8),
        _ => Err("The module scale must be a number between 1 and 255 inclusive.".to_owned()),
    }
}

} // verus!
