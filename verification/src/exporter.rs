//! Export of an encoded symbol as the bytes of an image file: vector markup
//! or a PNG raster.

use crate::matrix::{symbol_grid, Matrix};
use crate::raster::{raster_of, raster_side, rasterize};
use crate::symbol::{svg_of, symbol_size, symbol_svg};
use png::HasParameters;
use vstd::prelude::*;
use vstd::string::StrSliceExecFns;
use vstd::utf8::encode_utf8;

verus! {

/// A file system path of `std`; opaque to the verifier.
#[verifier::external_type_specification]
#[verifier::external_body]
pub struct ExPathBuf(std::path::PathBuf);

/// The error of the `png` encoder; opaque to the verifier.
#[verifier::external_type_specification]
#[verifier::external_body]
pub struct ExEncodingError(png::EncodingError);

/// The image format an exported symbol is written in.
#[derive(Copy, Clone, Debug, PartialEq, Eq, Structural)]
pub enum ExportFormat {
    SVG,
    PNG,
}

impl ExportFormat {
    /// The file name extension of the format.
    pub open spec fn extension_of(self) -> Seq<char> {
        match self {
            ExportFormat::SVG => "svg"@,
            ExportFormat::PNG => "png"@,
        }
    }

    /// The file name extension of the format: `svg` or `png`.
    pub fn extension(&self) -> (ext: &'static str)
        ensures
            ext@ == self.extension_of(),
            has_no_separator(ext@),
    {
        proof {
            reveal_strlit("svg");
            reveal_strlit("png");
        }
        match self {
            ExportFormat::SVG => "svg",
            ExportFormat::PNG => "png",
        }
    }
}

/// Why a symbol could not be exported.
#[derive(Debug)]
pub enum ExportError {
    /// The side of the raster or the length of its buffer is out of range.
    OutOfBounds,
    /// The raster could not be encoded as a PNG image.
    Raster(png::EncodingError),
}

/// The PNG file that the `png` crate writes for a square 8-bit RGB raster
/// of the given side, absent where it reports an error.
pub uninterp spec fn rgb_png(data: Seq<u8>, side: int) -> Option<Seq<u8>>;

/// `png::Encoder` set to 8-bit RGB, with `Encoder::write_header` and
/// `Writer::write_image_data`, writing into memory. Trusted: the file
/// depends on the pixels and the side alone. The crate panics on a side of
/// zero, which `requires` leaves out.
#[verifier::external_body]
fn encode_rgb_png(data: &Vec<u8>, side: u32) -> (r: Result<Vec<u8>, png::EncodingError>)
    requires
        side > 0,
        data@.len() == side * side * 3,
    ensures
        match r {
            Ok(file) => rgb_png(data@, side as int) == Some(file@),
            Err(_) => rgb_png(data@, side as int) is None,
        },
{
    let mut file = Vec::new();
    {
        let mut encoder = png::Encoder::new(&mut file, side, side);
        encoder.set(png::ColorType::RGB).set(png::BitDepth::Eight);
        let mut writer = encoder.write_header()?;
        writer.write_image_data(data)?;
    }
    Ok(file)
}

/// `PathBuf::push`. Trusted: nothing.
#[verifier::external_body]
fn push_path(path: &mut std::path::PathBuf, name: &String) {
    path.push(name);
}

/// Whether a text is free of the characters that separate the parts of a
/// path.
pub open spec fn has_no_separator(text: Seq<char>) -> bool {
    forall|i: int| 0 <= i < text.len() ==> text[i] != '/' && text[i] != '\\'
}

/// `PathBuf::set_extension`. Trusted: nothing. `std` panics on an
/// extension that holds a path separator, which `requires` leaves out.
#[verifier::external_body]
fn set_path_extension(path: &mut std::path::PathBuf, extension: &str)
    requires
        has_no_separator(extension@),
{
    path.set_extension(extension);
}

/// The bytes of the vector image of a symbol.
pub open spec fn svg_file(code: qrcodegen::QrCode, border: int) -> Seq<u8> {
    encode_utf8(symbol_svg(code, border))
}

/// What the outcome of the PNG encoder becomes: the file as it is, and an
/// error of the encoder as a raster error.
pub open spec fn file_of(
    encoded: Result<Vec<u8>, png::EncodingError>,
    result: Result<Vec<u8>, ExportError>,
) -> bool {
    match encoded {
        Ok(file) => result == Ok::<Vec<u8>, ExportError>(file),
        Err(e) => result == Err::<Vec<u8>, ExportError>(ExportError::Raster(e)),
    }
}

/// Takes the outcome of the PNG encoder as the outcome of the export.
pub fn encoded_file(encoded: Result<Vec<u8>, png::EncodingError>) -> (r: Result<
    Vec<u8>,
    ExportError,
>)
    ensures
        file_of(encoded, r),
{
    match encoded {
        Ok(file) => Ok(file),
        Err(e) => Err(ExportError::Raster(e)),
    }
}

/// What exporting a symbol as a PNG image gives: the out-of-bounds error
/// where the geometry overflows, and else what the encoder makes of the
/// raster of the symbol.
pub open spec fn png_exported(
    code: qrcodegen::QrCode,
    border: int,
    scale: int,
    result: Result<Vec<u8>, ExportError>,
) -> bool {
    match raster_side(symbol_size(code), border, scale) {
        None => result matches Err(ExportError::OutOfBounds),
        Some(side) => match rgb_png(raster_of(symbol_grid(code), border, scale), side) {
            Some(file) => result matches Ok(bytes) && bytes@ == file,
            None => result matches Err(ExportError::Raster(_)),
        },
    }
}

/// What exporting a symbol in a format gives.
pub open spec fn exported(
    code: qrcodegen::QrCode,
    border: int,
    scale: int,
    format: ExportFormat,
    result: Result<Vec<u8>, ExportError>,
) -> bool {
    match format {
        ExportFormat::SVG => result matches Ok(bytes) && bytes@ == svg_file(code, border),
        ExportFormat::PNG => png_exported(code, border, scale, result),
    }
}

/// Exporting is a function of the symbol, the border, the scale and the
/// format: any two outcomes for the same four are byte for byte the same
/// file, or the same kind of failure.
pub proof fn lemma_export_deterministic(
    code: qrcodegen::QrCode,
    border: int,
    scale: int,
    format: ExportFormat,
    first: Result<Vec<u8>, ExportError>,
    second: Result<Vec<u8>, ExportError>,
)
    requires
        exported(code, border, scale, format, first),
        exported(code, border, scale, format, second),
    ensures
        first is Ok <==> second is Ok,
        first matches Ok(a) ==> (second matches Ok(b) && a@ == b@),
        first matches Err(ExportError::OutOfBounds) <==> second matches Err(
            ExportError::OutOfBounds,
        ),
{
}

/// Exports one encoded symbol under one file name.
pub struct Exporter {
    /// The symbol to draw.
    pub qr_code: qrcodegen::QrCode,
    /// The directory to write into; once exported, the path of the file.
    pub output: std::path::PathBuf,
    /// Width of the quiet zone, in modules.
    pub border: u8,
    /// The image format.
    pub format: ExportFormat,
    /// Name of the file, without extension.
    pub file_name: String,
    /// Pixels per module of a raster image.
    pub scale: u8,
}

impl Exporter {
    /// An exporter of `qr_code` into the directory `output`.
    pub fn new(
        qr_code: qrcodegen::QrCode,
        output: std::path::PathBuf,
        border: u8,
        format: ExportFormat,
        file_name: String,
        scale: u8,
    ) -> (exporter: Self)
        ensures
            exporter.qr_code == qr_code,
            exporter.output == output,
            exporter.border == border,
            exporter.format == format,
            exporter.file_name == file_name,
            exporter.scale == scale,
    {
        Exporter { qr_code, output, border, format, file_name, scale }
    }

    /// Renders the symbol in the configured format and points `output` at
    /// the file to write: the file name under the output directory, with the
    /// extension of the format. Returns the bytes of that file. Of the path
    /// nothing is proved.
    pub fn export(&mut self) -> (r: Result<Vec<u8>, ExportError>)
        requires
            old(self).format == ExportFormat::PNG ==> old(self).scale > 0,
        ensures
            final(self).qr_code == old(self).qr_code,
            final(self).border == old(self).border,
            final(self).format == old(self).format,
            final(self).file_name == old(self).file_name,
            final(self).scale == old(self).scale,
            exported(
                old(self).qr_code,
                old(self).border as int,
                old(self).scale as int,
                old(self).format,
                r,
            ),
    {
        push_path(&mut self.output, &self.file_name);
        set_path_extension(&mut self.output, self.format.extension());
        match self.format {
            ExportFormat::SVG => Ok(self.export_svg()),
            ExportFormat::PNG => self.export_png(),
        }
    }

    /// The vector image of the symbol with its quiet zone, as the bytes of
    /// the markup text.
    pub fn export_svg(&self) -> (bytes: Vec<u8>)
        ensures
            bytes@ == svg_file(self.qr_code, self.border as int),
    {
        let svg = svg_of(&self.qr_code, self.border);
        svg.as_str().as_bytes_vec()
    }

    /// The PNG image of the symbol with its quiet zone: 8-bit RGB, dark
    /// modules black on white.
    pub fn export_png(&self) -> (r: Result<Vec<u8>, ExportError>)
        requires
            self.scale > 0,
        ensures
            png_exported(self.qr_code, self.border as int, self.scale as int, r),
    {
        let matrix = Matrix::from_code(&self.qr_code);
        match rasterize(&matrix, self.border, self.scale) {
            None => Err(ExportError::OutOfBounds),
            Some(canvas) => {
                proof {
                    assert(canvas.pixel_size > 0) by (nonlinear_arith)
                        requires
                            canvas.pixel_size == (matrix@.len() + 2 * self.border) * self.scale,
                            matrix@.len() >= 21,
                            self.scale > 0,
                    ;
                }
                encoded_file(encode_rgb_png(&canvas.data, canvas.pixel_size as u32))
            },
        }
    }
}

} // verus!
