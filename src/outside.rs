//! The calls into the encoder and the base64 codec, with what the library
//! relies on of each.
use vstd::prelude::*;
use qrcode_generator::{QRCodeError, QrCodeEcc};
use base64::Engine;
use crate::options::QrError;

verus! {

/// What encoding `text` at `ecc` into a PNG image of side `size` gives.
pub uninterp spec fn png_of(text: Seq<char>, ecc: QrCodeEcc, size: usize) -> Result<Seq<u8>, QrError>;

/// What encoding `text` at `ecc` into an SVG document of side `size` gives.
pub uninterp spec fn svg_of(text: Seq<char>, ecc: QrCodeEcc, size: usize) -> Result<Seq<char>, QrError>;

/// The module matrix (rows, dark as `true`) that encoding `text` at `ecc` gives.
pub uninterp spec fn matrix_of(text: Seq<char>, ecc: QrCodeEcc) -> Result<Seq<Seq<bool>>, QrError>;

/// The standard base64 text of `bytes`, without padding.
pub uninterp spec fn base64_of(bytes: Seq<u8>) -> Seq<char>;

/// An outcome, with its success value seen through its view.
pub open spec fn outcome_view<T: View>(r: Result<T, QrError>) -> Result<T::V, QrError> {
    match r {
        Ok(v) => Ok(v@),
        Err(e) => Err(e),
    }
}

/// The rows of a module matrix as sequences.
pub open spec fn rows_view(rows: Vec<Vec<bool>>) -> Seq<Seq<bool>> {
    rows@.map_values(|row: Vec<bool>| row@)
}

/// A matrix of a symbol version from 1 to 40: square, of side `4 * version + 17`.
pub open spec fn symbol_shaped(rows: Seq<Seq<bool>>) -> bool {
    &&& 21 <= rows.len() <= 177
    &&& (rows.len() - 17) % 4 == 0
    &&& forall|i: int| 0 <= i < rows.len() ==> (#[trigger] rows[i]).len() == rows.len()
}

/// Relies on qrcode_generator::to_png_to_vec: the PNG image, or the reason it
/// failed, depends on the text, the level and the size alone. Its errors map one
/// for one onto the library's.
#[verifier::external_body]
pub(crate) fn png_bytes(text: &str, ecc: QrCodeEcc, size: usize) -> (r: Result<Vec<u8>, QrError>)
    ensures
        outcome_view(r) == png_of(text@, ecc, size),
{
    match qrcode_generator::to_png_to_vec(text, ecc, size) {
        Ok(png) => Ok(png),
        Err(QRCodeError::DataTooLong) => Err(QrError::PayloadTooLarge),
        Err(QRCodeError::ImageSizeTooSmall) => Err(QrError::RenderSizeTooSmall),
        Err(QRCodeError::ImageSizeTooLarge) => Err(QrError::RenderSizeTooLarge),
        Err(_) => Err(QrError::RenderFailure),
    }
}

/// Relies on qrcode_generator::to_svg_to_string, with no description: the
/// document, or the reason it failed, depends on the text, the level and the
/// size alone. Its errors map one for one onto the library's.
#[verifier::external_body]
pub(crate) fn svg_text(text: &str, ecc: QrCodeEcc, size: usize) -> (r: Result<String, QrError>)
    ensures
        outcome_view(r) == svg_of(text@, ecc, size),
{
    match qrcode_generator::to_svg_to_string(text, ecc, size, None::<&str>) {
        Ok(svg) => Ok(svg),
        Err(QRCodeError::DataTooLong) => Err(QrError::PayloadTooLarge),
        Err(QRCodeError::ImageSizeTooSmall) => Err(QrError::RenderSizeTooSmall),
        Err(QRCodeError::ImageSizeTooLarge) => Err(QrError::RenderSizeTooLarge),
        Err(_) => Err(QrError::RenderFailure),
    }
}

/// Relies on qrcode_generator::to_matrix: the matrix depends on the text and the
/// level alone; it is square with side `4 * version + 17` for a version from 1 to
/// 40 (qrcodegen's `QrCode::size`); its one error is `DataTooLong`.
#[verifier::external_body]
pub(crate) fn module_rows(text: &str, ecc: QrCodeEcc) -> (r: Result<Vec<Vec<bool>>, QrError>)
    ensures
        r is Ok ==> matrix_of(text@, ecc) == Ok::<Seq<Seq<bool>>, QrError>(rows_view(r->Ok_0)),
        r is Ok ==> symbol_shaped(rows_view(r->Ok_0)),
        r is Err ==> matrix_of(text@, ecc) == Err::<Seq<Seq<bool>>, QrError>(r->Err_0),
        r is Err ==> r->Err_0 == QrError::PayloadTooLarge,
{
    match qrcode_generator::to_matrix(text, ecc) {
        Ok(rows) => Ok(rows),
        Err(_) => Err(QrError::PayloadTooLarge),
    }
}

/// Relies on base64's `STANDARD_NO_PAD` engine: the text depends on the bytes
/// alone, and no bytes give no text.
#[verifier::external_body]
pub(crate) fn base64_text(bytes: &Vec<u8>) -> (r: String)
    ensures
        r@ == base64_of(bytes@),
        bytes@.len() == 0 ==> r@.len() == 0,
{
    base64::engine::general_purpose::STANDARD_NO_PAD.encode(bytes)
}

} // verus!
