//! Rendering options, their defaults and the error-correction level.
use vstd::prelude::*;
use qrcode_generator::QrCodeEcc;

verus! {

/// The encoder's error-correction level, declared so that its variants can be
/// named in contracts.
#[verifier::external_type_specification]
pub struct ExQrCodeEcc(QrCodeEcc);

/// Pixel size of a rendered image when the caller gives none.
pub const DEFAULT_RENDER_SIZE: u32 = 1024;

/// How much of the symbol may be damaged and still be read back.
#[derive(Clone, Copy, Debug, PartialEq, Eq, Structural)]
pub enum QRCorrectionLevel {
    /// About 7% of the codewords can be restored.
    Low,
    /// About 15% of the codewords can be restored.
    Medium,
    /// About 25% of the codewords can be restored.
    Quartile,
    /// About 30% of the codewords can be restored.
    High,
}

/// The encoder's level for each of ours, one for one.
pub open spec fn ecc_spec(level: QRCorrectionLevel) -> QrCodeEcc {
    match level {
        QRCorrectionLevel::Low => QrCodeEcc::Low,
        QRCorrectionLevel::Medium => QrCodeEcc::Medium,
        QRCorrectionLevel::Quartile => QrCodeEcc::Quartile,
        QRCorrectionLevel::High => QrCodeEcc::High,
    }
}

impl From<QRCorrectionLevel> for QrCodeEcc {
    fn from(level: QRCorrectionLevel) -> (r: QrCodeEcc)
        ensures
            r == ecc_spec(level),
    {
        match level {
            QRCorrectionLevel::Low => QrCodeEcc::Low,
            QRCorrectionLevel::Medium => QrCodeEcc::Medium,
            QRCorrectionLevel::Quartile => QrCodeEcc::Quartile,
            QRCorrectionLevel::High => QrCodeEcc::High,
        }
    }
}

impl vstd::std_specs::convert::FromSpecImpl<QRCorrectionLevel> for QrCodeEcc {
    open spec fn obeys_from_spec() -> bool {
        true
    }

    open spec fn from_spec(level: QRCorrectionLevel) -> QrCodeEcc {
        ecc_spec(level)
    }
}

/// Why a request produced no output.
#[derive(Clone, Copy, Debug, PartialEq, Eq, Structural)]
pub enum QrError {
    /// The payload is empty; nothing is encoded.
    EmptyPayload,
    /// No symbol version holds the payload at the requested level.
    PayloadTooLarge,
    /// The image is too small to give every module a pixel.
    RenderSizeTooSmall,
    /// The image side is too large for the renderer.
    RenderSizeTooLarge,
    /// The image encoder failed to write its output.
    RenderFailure,
    /// Writing the output to storage failed.
    IoFailure,
}

/// What a caller asks for: the text to encode and how to render it.
pub struct QrCodeOptions {
    pub data: String,
    pub ecc: Option<QRCorrectionLevel>,
    pub size: Option<u32>,
}

/// The level used when the caller gives none.
pub open spec fn level_spec(ecc: Option<QRCorrectionLevel>) -> QRCorrectionLevel {
    match ecc {
        Some(level) => level,
        None => QRCorrectionLevel::Low,
    }
}

/// The image side used when the caller gives none.
pub open spec fn size_spec(size: Option<u32>) -> usize {
    match size {
        Some(s) => s as usize,
        None => DEFAULT_RENDER_SIZE as usize,
    }
}

impl QrCodeOptions {
    /// The error-correction level to encode with: the one given, else `Low`.
    pub fn level(&self) -> (r: QRCorrectionLevel)
        ensures
            r == level_spec(self.ecc),
    {
        match self.ecc {
            Some(level) => level,
            None => QRCorrectionLevel::Low,
        }
    }

    /// The side of the rendered image in pixels: the one given, else the default.
    pub fn render_size(&self) -> (r: usize)
        ensures
            r == size_spec(self.size),
    {
        match self.size {
            Some(s) => s as usize,
            None => DEFAULT_RENDER_SIZE as usize,
        }
    }
}

} // verus!
