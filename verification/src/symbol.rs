//! Symbol encoding parameters, and the bindings to the `qrcodegen` crate
//! that encodes text into a symbol. Nothing is proved of that crate: each
//! binding states what is taken on trust from its source.

use vstd::prelude::*;

verus! {

/// A symbol produced by `qrcodegen`; opaque to the verifier.
#[verifier::external_type_specification]
#[verifier::external_body]
pub struct ExQrCode(qrcodegen::QrCode);

/// A segment of payload data prepared by `qrcodegen`; opaque to the verifier.
#[verifier::external_type_specification]
#[verifier::external_body]
pub struct ExQrSegment(qrcodegen::QrSegment);

/// The error of `qrcodegen` for a payload that fits no permitted version.
#[verifier::external_type_specification]
#[verifier::external_body]
pub struct ExDataTooLong(qrcodegen::DataTooLong);

/// The error correction level of a symbol.
#[derive(Copy, Clone, Debug, PartialEq, Eq, Structural)]
pub enum QrCodeEcc {
    /// Tolerates about 7% erroneous codewords.
    Low,
    /// Tolerates about 15% erroneous codewords.
    Medium,
    /// Tolerates about 25% erroneous codewords.
    Quartile,
    /// Tolerates about 30% erroneous codewords.
    High,
}

/// Lowest version number of the symbol standard.
pub const MIN_VERSION: u8 = 1;

/// Highest version number of the symbol standard.
pub const MAX_VERSION: u8 = 40;

/// Highest mask pattern number.
pub const MAX_MASK: u8 = 7;

/// A symbol version number, between 1 and 40.
#[derive(Copy, Clone, Debug, PartialEq, Eq)]
pub struct Version(u8);

impl Version {
    #[verifier::type_invariant]
    spec fn in_range(self) -> bool {
        MIN_VERSION <= self.0 <= MAX_VERSION
    }

    /// The number held.
    pub closed spec fn number(self) -> u8 {
        self.0
    }

    /// Wraps a version number.
    pub fn new(ver: u8) -> (v: Self)
        requires
            MIN_VERSION <= ver <= MAX_VERSION,
        ensures
            v.number() == ver,
    {
        Version(ver)
    }

    /// The version number, between 1 and 40.
    pub fn value(self) -> (n: u8)
        ensures
            n == self.number(),
            MIN_VERSION <= n <= MAX_VERSION,
    {
        proof {
            use_type_invariant(self);
        }
        self.0
    }
}

/// A mask pattern number, between 0 and 7.
#[derive(Copy, Clone, Debug, PartialEq, Eq)]
pub struct Mask(u8);

impl Mask {
    #[verifier::type_invariant]
    spec fn in_range(self) -> bool {
        self.0 <= MAX_MASK
    }

    /// The number held.
    pub closed spec fn number(self) -> u8 {
        self.0
    }

    /// Wraps a mask pattern number.
    pub fn new(mask: u8) -> (m: Self)
        requires
            mask <= MAX_MASK,
        ensures
            m.number() == mask,
    {
        Mask(mask)
    }

    /// The mask pattern number, between 0 and 7.
    pub fn value(self) -> (n: u8)
        ensures
            n == self.number(),
            n <= MAX_MASK,
    {
        proof {
            use_type_invariant(self);
        }
        self.0
    }
}

/// The number of an optional mask, as the encoder is told it.
pub open spec fn mask_number(mask: Option<Mask>) -> Option<int> {
    match mask {
        Some(m) => Some(m.number() as int),
        None => None,
    }
}

/// Side length of a symbol, in modules.
pub uninterp spec fn symbol_size(code: qrcodegen::QrCode) -> int;

/// Whether the module of a symbol at column `x` and row `y` is dark.
pub uninterp spec fn symbol_module(code: qrcodegen::QrCode, x: int, y: int) -> bool;

/// The vector markup that `qrcodegen` writes for a symbol and a border.
pub uninterp spec fn symbol_svg(code: qrcodegen::QrCode, border: int) -> Seq<char>;

/// The segments that `qrcodegen` chooses for a text.
pub uninterp spec fn text_segments(text: Seq<char>) -> Seq<qrcodegen::QrSegment>;

/// The symbol that `qrcodegen` encodes from segments under the given
/// parameters, absent where the data fits no version in the range.
pub uninterp spec fn encoded_symbol(
    segments: Seq<qrcodegen::QrSegment>,
    level: QrCodeEcc,
    min_version: int,
    max_version: int,
    mask: Option<int>,
    boost: bool,
) -> Option<qrcodegen::QrCode>;

/// `QrCode::size`. Trusted: the result is the symbol's side length, which
/// the crate keeps between 21 and 177 (four times the version plus 17).
#[verifier::external_body]
pub(crate) fn size_of(code: &qrcodegen::QrCode) -> (n: i32)
    ensures
        n == symbol_size(*code),
        21 <= n <= 177,
{
    code.size()
}

/// `QrCode::get_module`. Trusted: the result is the module at the
/// coordinate, and is `false` for every coordinate outside the symbol.
#[verifier::external_body]
pub(crate) fn module_at(code: &qrcodegen::QrCode, x: i32, y: i32) -> (dark: bool)
    ensures
        dark == symbol_module(*code, x as int, y as int),
        dark ==> 0 <= x < symbol_size(*code) && 0 <= y < symbol_size(*code),
{
    code.get_module(x, y)
}

/// `QrCode::to_svg_string`. Trusted: the text depends on the symbol and the
/// border alone. The crate panics on a negative border or one whose double
/// overflows `i32`; a `u8` border is neither.
#[verifier::external_body]
pub(crate) fn svg_of(code: &qrcodegen::QrCode, border: u8) -> (svg: String)
    ensures
        svg@ == symbol_svg(*code, border as int),
{
    code.to_svg_string(i32::from(border))
}

/// `QrSegment::make_segments`. Trusted: the segments depend on the text
/// alone.
#[verifier::external_body]
pub(crate) fn segments_of(text: &str) -> (segments: Vec<qrcodegen::QrSegment>)
    ensures
        segments@ == text_segments(text@),
{
    let chars: Vec<char> = text.chars().collect();
    qrcodegen::QrSegment::make_segments(&chars)
}

/// `QrCode::encode_segments_advanced`. Trusted: the outcome depends on the
/// arguments alone. The crate panics when the minimum version exceeds the
/// maximum, which `requires` leaves out.
#[verifier::external_body]
pub(crate) fn encode_segments(
    segments: &Vec<qrcodegen::QrSegment>,
    level: QrCodeEcc,
    min_version: Version,
    max_version: Version,
    mask: Option<Mask>,
    boost: bool,
) -> (r: Result<qrcodegen::QrCode, qrcodegen::DataTooLong>)
    requires
        min_version.number() <= max_version.number(),
    ensures
        match r {
            Ok(code) => encoded_symbol(
                segments@,
                level,
                min_version.number() as int,
                max_version.number() as int,
                mask_number(mask),
                boost,
            ) == Some(code),
            Err(_) => encoded_symbol(
                segments@,
                level,
                min_version.number() as int,
                max_version.number() as int,
                mask_number(mask),
                boost,
            ) is None,
        },
{
    let level = match level {
        QrCodeEcc::Low => qrcodegen::QrCodeEcc::Low,
        QrCodeEcc::Medium => qrcodegen::QrCodeEcc::Medium,
        QrCodeEcc::Quartile => qrcodegen::QrCodeEcc::Quartile,
        QrCodeEcc::High => qrcodegen::QrCodeEcc::High,
    };
    let min = qrcodegen::Version::new(min_version.0);
    let max = qrcodegen::Version::new(max_version.0);
    let mask = mask.map(|m| qrcodegen::Mask::new(m.0));
    qrcodegen::QrCode::encode_segments_advanced(segments, level, min, max, mask, boost)
}

} // verus!
