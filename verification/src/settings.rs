//! The settings of a run, gathered in one value.

use crate::symbol::{Mask, QrCodeEcc, Version, MAX_MASK, MAX_VERSION, MIN_VERSION};
use vstd::prelude::*;

verus! {

/// The settings, as contracts see them.
pub ghost struct SettingsView {
    /// The directory to write into.
    pub output: std::path::PathBuf,
    /// Number of the lowest version the encoder may choose.
    pub qr_version_min: u8,
    /// Number of the highest version the encoder may choose.
    pub qr_version_max: u8,
    /// The least error correction level of a symbol.
    pub error_correction: QrCodeEcc,
    /// Attempted rows per batch.
    pub chunk_size: usize,
    /// Whether the first row of a source is a header to pass over.
    pub has_headers: bool,
    /// Width of the quiet zone, in modules.
    pub border: u8,
    /// Number of the mask pattern to force, if any.
    pub mask: Option<u8>,
}

/// The number of an optional mask.
pub open spec fn mask_value(mask: Option<Mask>) -> Option<u8> {
    match mask {
        Some(m) => Some(m.number()),
        None => None,
    }
}

/// The settings of a run. The version range is never empty: a maximum
/// below the minimum is raised to it.
pub struct Settings {
    output: std::path::PathBuf,
    qr_version_min: Version,
    qr_version_max: Version,
    error_correction: QrCodeEcc,
    chunk_size: usize,
    has_headers: bool,
    border: u8,
    mask: Option<Mask>,
}

impl View for Settings {
    type V = SettingsView;

    closed spec fn view(&self) -> SettingsView {
        SettingsView {
            output: self.output,
            qr_version_min: self.qr_version_min.number(),
            qr_version_max: self.qr_version_max.number(),
            error_correction: self.error_correction,
            chunk_size: self.chunk_size,
            has_headers: self.has_headers,
            border: self.border,
            mask: mask_value(self.mask),
        }
    }
}

impl Settings {
    #[verifier::type_invariant]
    spec fn ordered(self) -> bool {
        self.qr_version_min.number() <= self.qr_version_max.number()
    }

    /// The directory to write into.
    pub fn output(&self) -> (path: &std::path::PathBuf)
        ensures
            *path == self@.output,
    {
        &self.output
    }

    /// Width of the quiet zone, in modules.
    pub fn border(&self) -> (border: u8)
        ensures
            border == self@.border,
    {
        self.border
    }

    /// The least error correction level of a symbol.
    pub fn error_correction(&self) -> (level: QrCodeEcc)
        ensures
            level == self@.error_correction,
    {
        self.error_correction
    }

    /// Lowest version the encoder may choose.
    pub fn qr_version_min(&self) -> (version: Version)
        ensures
            version.number() == self@.qr_version_min,
            self@.qr_version_min <= self@.qr_version_max,
    {
        proof {
            use_type_invariant(self);
        }
        self.qr_version_min
    }

    /// Highest version the encoder may choose.
    pub fn qr_version_max(&self) -> (version: Version)
        ensures
            version.number() == self@.qr_version_max,
            self@.qr_version_min <= self@.qr_version_max,
    {
        proof {
            use_type_invariant(self);
        }
        self.qr_version_max
    }

    /// The mask pattern to force, if any.
    pub fn mask(&self) -> (mask: Option<Mask>)
        ensures
            mask_value(mask) == self@.mask,
    {
        self.mask
    }

    /// Whether the first row of a source is a header to pass over.
    pub fn has_headers(&self) -> (flag: bool)
        ensures
            flag == self@.has_headers,
    {
        self.has_headers
    }

    /// Attempted rows per batch.
    pub fn chunk_size(&self) -> (n: usize)
        ensures
            n == self@.chunk_size,
    {
        self.chunk_size
    }

    /// Gathers the settings. Where the minimum version is above the
    /// maximum, the maximum is reset to the minimum.
    pub fn new(
        output: std::path::PathBuf,
        qr_version_min: u8,
        qr_version_max: u8,
        error_correction: QrCodeEcc,
        chunk_size: usize,
        has_headers: bool,
        border: u8,
        mask: Option<u8>,
    ) -> (settings: Self)
        requires
            MIN_VERSION <= qr_version_min <= MAX_VERSION,
            MIN_VERSION <= qr_version_max <= MAX_VERSION,
            mask matches Some(m) ==> m <= MAX_MASK,
        ensures
            settings@ == (SettingsView {
                output,
                qr_version_min,
                qr_version_max: if qr_version_min > qr_version_max {
                    qr_version_min
                } else {
                    qr_version_max
                },
                error_correction,
                chunk_size,
                has_headers,
                border,
                mask,
            }),
    {
        let mut max_final = qr_version_max;
        if qr_version_min > qr_version_max {
            max_final = qr_version_min;
        }
        Settings {
            output,
            qr_version_max: Version::new(max_final),
            qr_version_min: Version::new(qr_version_min),
            error_correction,
            chunk_size,
            has_headers,
            border,
            mask: match mask {
                Some(m) => Some(Mask::new(m)),
                None => None,
            },
        }
    }
}

} // verus!
