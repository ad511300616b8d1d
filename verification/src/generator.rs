//! The per-record pipeline: from a row of fields to the image file of the
//! symbol that encodes its payload.

use crate::exporter::{exported, ExportError, ExportFormat, Exporter};
use crate::symbol::{
    encode_segments, encoded_symbol, mask_number, segments_of, text_segments, Mask, QrCodeEcc,
    Version,
};
use vstd::prelude::*;

verus! {

/// Number of fields a row needs to be rendered: an identifier and a payload.
pub const ELIGIBLE_FIELDS: usize = 2;

/// `PathBuf::clone`. Nothing is stated of the copy.
pub assume_specification[ <std::path::PathBuf as Clone>::clone ](
    path: &std::path::PathBuf,
) -> std::path::PathBuf
;

/// `PathBuf::new`. Nothing is stated of the path.
pub assume_specification[ std::path::PathBuf::new ]() -> std::path::PathBuf
;

/// How payloads are encoded.
pub struct QrConfig {
    /// Lowest version the encoder may choose.
    pub qr_version_min: Version,
    /// Highest version the encoder may choose.
    pub qr_version_max: Version,
    /// The mask pattern to force, if any.
    pub mask: Option<Mask>,
    /// The least error correction level of the symbol.
    pub error_correction: QrCodeEcc,
}

impl QrConfig {
    /// The encoding parameters as given.
    pub fn new(
        qr_version_min: Version,
        qr_version_max: Version,
        error_correction: QrCodeEcc,
        mask: Option<Mask>,
    ) -> (conf: Self)
        ensures
            conf.qr_version_min == qr_version_min,
            conf.qr_version_max == qr_version_max,
            conf.error_correction == error_correction,
            conf.mask == mask,
    {
        QrConfig { qr_version_min, qr_version_max, mask, error_correction }
    }

    /// The version range is not empty.
    pub open spec fn has_versions(self) -> bool {
        self.qr_version_min.number() <= self.qr_version_max.number()
    }

    /// The symbol of a payload under this configuration, absent where the
    /// payload fits no version in the range. The error correction level may
    /// be raised as far as the chosen version allows.
    pub open spec fn symbol_of(self, payload: Seq<char>) -> Option<qrcodegen::QrCode> {
        encoded_symbol(
            text_segments(payload),
            self.error_correction,
            self.qr_version_min.number() as int,
            self.qr_version_max.number() as int,
            mask_number(self.mask),
            true,
        )
    }
}

/// Where and how images are written.
#[derive(Clone)]
pub struct OutputConfig {
    /// The directory to write into.
    pub output: std::path::PathBuf,
    /// Width of the quiet zone, in modules.
    pub border: u8,
    /// The image format.
    pub format: ExportFormat,
    /// Pixels per module of a raster image.
    pub scale: u8,
}

impl OutputConfig {
    /// The output parameters as given.
    pub fn new(output: std::path::PathBuf, border: u8, format: ExportFormat, scale: u8) -> (conf:
        Self)
        ensures
            conf.output == output,
            conf.border == border,
            conf.format == format,
            conf.scale == scale,
    {
        OutputConfig { output, border, format, scale }
    }

    /// A raster image has a scale of at least one pixel per module.
    pub open spec fn can_draw(self) -> bool {
        self.format == ExportFormat::PNG ==> self.scale > 0
    }
}

impl Default for OutputConfig {
    /// An empty output path, no border, the vector format and no scale.
    fn default() -> (conf: Self)
        ensures
            conf.border == 0,
            conf.format == ExportFormat::SVG,
            conf.scale == 0,
    {
        OutputConfig {
            output: std::path::PathBuf::new(),
            border: 0,
            format: ExportFormat::SVG,
            scale: 0,
        }
    }
}

/// How a source is read.
#[derive(Clone, Copy, Debug)]
pub struct ProcessingConfig {
    /// Attempted rows per batch.
    pub chunk_size: usize,
    /// Whether the first row of a source is a header to pass over.
    pub has_headers: bool,
}

impl ProcessingConfig {
    /// The reading parameters as given.
    pub fn new(chunk_size: usize, has_headers: bool) -> (conf: Self)
        ensures
            conf.chunk_size == chunk_size,
            conf.has_headers == has_headers,
    {
        ProcessingConfig { chunk_size, has_headers }
    }
}

/// How the rows of a source are decoded.
#[derive(Copy, Clone, Debug, PartialEq, Eq, Structural)]
pub struct ReaderOptions {
    /// The first row is a header and is passed over.
    pub has_headers: bool,
    /// White space around every field is dropped.
    pub trim: bool,
    /// Rows may differ in their number of fields.
    pub flexible: bool,
}

impl Default for ProcessingConfig {
    /// No rows to the batch and no header.
    fn default() -> (conf: Self)
        ensures
            conf.chunk_size == 0,
            !conf.has_headers,
    {
        ProcessingConfig { chunk_size: 0, has_headers: false }
    }
}

/// What became of one row.
#[derive(Debug)]
pub enum RecordOutcome {
    /// The row has fewer than two fields and is passed over: no failure.
    Skipped,
    /// The payload could not be encoded.
    EncodeFailed(qrcodegen::DataTooLong),
    /// The symbol could not be rendered.
    ExportFailed(ExportError),
    /// The image was rendered: the path to write to and the bytes to write.
    Exported { path: std::path::PathBuf, bytes: Vec<u8> },
}

/// Turns the rows of tabular sources into image files.
pub struct Generator {
    /// How payloads are encoded.
    pub qr_conf: QrConfig,
    /// Where and how images are written.
    pub out_conf: OutputConfig,
    /// How the sources are read.
    pub proc_conf: ProcessingConfig,
    /// The sources to read.
    pub files: Vec<std::path::PathBuf>,
}

impl Generator {
    /// A generator over the given sources.
    pub fn new(
        files: Vec<std::path::PathBuf>,
        qr_conf: QrConfig,
        out_conf: OutputConfig,
        proc_conf: ProcessingConfig,
    ) -> (generator: Self)
        ensures
            generator.files == files,
            generator.qr_conf == qr_conf,
            generator.out_conf == out_conf,
            generator.proc_conf == proc_conf,
    {
        Generator { files, qr_conf, out_conf, proc_conf }
    }

    /// What becomes of a row whose payload was encoded into `code`: the
    /// outcome is that of exporting the symbol as the output configuration
    /// says.
    pub open spec fn drawn(self, code: qrcodegen::QrCode, outcome: RecordOutcome) -> bool {
        match outcome {
            RecordOutcome::Exported { bytes, .. } => exported(
                code,
                self.out_conf.border as int,
                self.out_conf.scale as int,
                self.out_conf.format,
                Ok(bytes),
            ),
            RecordOutcome::ExportFailed(e) => exported(
                code,
                self.out_conf.border as int,
                self.out_conf.scale as int,
                self.out_conf.format,
                Err(e),
            ),
            _ => false,
        }
    }

    /// What `process_record` makes of a row: a row of fewer than two fields
    /// is skipped; a payload that cannot be encoded fails the record; and
    /// else the outcome is that of exporting the symbol of the payload.
    pub open spec fn processed(self, record: Seq<String>, outcome: RecordOutcome) -> bool {
        if record.len() < ELIGIBLE_FIELDS {
            outcome is Skipped
        } else {
            match self.qr_conf.symbol_of(record[1]@) {
                None => outcome is EncodeFailed,
                Some(code) => self.drawn(code, outcome),
            }
        }
    }

    /// How the sources are decoded: the header row is passed over where
    /// the configuration says so, every field is trimmed, and rows of any
    /// number of fields are accepted.
    pub fn reader_options(&self) -> (options: ReaderOptions)
        ensures
            options == (ReaderOptions {
                has_headers: self.proc_conf.has_headers,
                trim: true,
                flexible: true,
            }),
    {
        ReaderOptions { has_headers: self.proc_conf.has_headers, trim: true, flexible: true }
    }

    /// Whether a row takes part in the fan-out: it has an identifier and a
    /// payload.
    pub fn is_eligible(record: &Vec<String>) -> (eligible: bool)
        ensures
            eligible == (record@.len() >= ELIGIBLE_FIELDS),
    {
        record.len() >= ELIGIBLE_FIELDS
    }

    /// Encodes the payload of a row, its second field, into a symbol.
    pub fn encode(&self, record: &Vec<String>) -> (r: Result<
        qrcodegen::QrCode,
        qrcodegen::DataTooLong,
    >)
        requires
            record@.len() >= ELIGIBLE_FIELDS,
            self.qr_conf.has_versions(),
        ensures
            match r {
                Ok(code) => self.qr_conf.symbol_of(record@[1]@) == Some(code),
                Err(_) => self.qr_conf.symbol_of(record@[1]@) is None,
            },
    {
        let segments = segments_of(record[1].as_str());
        encode_segments(
            &segments,
            self.qr_conf.error_correction,
            self.qr_conf.qr_version_min,
            self.qr_conf.qr_version_max,
            self.qr_conf.mask,
            true,
        )
    }

    /// Exports the symbol of a row, named after its first field, or hands
    /// on the failure to encode its payload.
    pub fn export_encoded(
        &self,
        record: &Vec<String>,
        encoded: Result<qrcodegen::QrCode, qrcodegen::DataTooLong>,
    ) -> (outcome: RecordOutcome)
        requires
            record@.len() >= 1,
            self.out_conf.can_draw(),
        ensures
            match encoded {
                Ok(code) => self.drawn(code, outcome),
                Err(e) => outcome == RecordOutcome::EncodeFailed(e),
            },
    {
        match encoded {
            Err(e) => RecordOutcome::EncodeFailed(e),
            Ok(code) => {
                let mut exporter = Exporter::new(
                    code,
                    self.out_conf.output.clone(),
                    self.out_conf.border,
                    self.out_conf.format,
                    record[0].clone(),
                    self.out_conf.scale,
                );
                match exporter.export() {
                    Ok(bytes) => RecordOutcome::Exported { path: exporter.output, bytes },
                    Err(e) => RecordOutcome::ExportFailed(e),
                }
            },
        }
    }

    /// Takes one row through the pipeline: eligibility, encoding, export.
    /// A failure concerns this row alone.
    pub fn process_record(&self, record: &Vec<String>) -> (outcome: RecordOutcome)
        requires
            self.qr_conf.has_versions(),
            self.out_conf.can_draw(),
        ensures
            self.processed(record@, outcome),
            outcome is Skipped <==> record@.len() < ELIGIBLE_FIELDS,
    {
        if !Self::is_eligible(record) {
            return RecordOutcome::Skipped;
        }
        let encoded = self.encode(record);
        self.export_encoded(record, encoded)
    }
}

} // verus!
