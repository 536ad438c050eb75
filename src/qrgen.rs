//! The entry points: a request's payload and options in, a PNG image, a data
//! URL, an SVG document or the symbol itself out.
use vstd::prelude::*;
use vstd::string::*;
use qrcode_generator::QrCodeEcc;
use crate::options::{ecc_spec, level_spec, size_spec, QrCodeOptions, QrError};
use crate::outside::{
    base64_of, base64_text, matrix_of, module_rows, outcome_view, png_bytes, png_of,
    svg_of, svg_text,
};
use crate::symbol::Symbol;

verus! {

/// The media type of the PNG images.
pub const PNG_MIME: &'static str = "image/png";

/// The encoder's level for a request.
pub open spec fn request_ecc(options: QrCodeOptions) -> QrCodeEcc {
    ecc_spec(level_spec(options.ecc))
}

/// The PNG image a request yields: none for an empty payload, else the
/// encoder's image at the request's level and size.
pub open spec fn buff_spec(options: QrCodeOptions) -> Result<Seq<u8>, QrError> {
    if options.data@.len() == 0 {
        Err(QrError::EmptyPayload)
    } else {
        png_of(options.data@, request_ecc(options), size_spec(options.size))
    }
}

/// The SVG document a request yields, under the same rule as the image.
pub open spec fn svg_spec(options: QrCodeOptions) -> Result<Seq<char>, QrError> {
    if options.data@.len() == 0 {
        Err(QrError::EmptyPayload)
    } else {
        svg_of(options.data@, request_ecc(options), size_spec(options.size))
    }
}

/// The module matrix a request yields, under the same rule as the image.
pub open spec fn symbol_spec(options: QrCodeOptions) -> Result<Seq<Seq<bool>>, QrError> {
    if options.data@.len() == 0 {
        Err(QrError::EmptyPayload)
    } else {
        matrix_of(options.data@, request_ecc(options))
    }
}

/// `data:<mime>;base64,<encoded>`.
pub open spec fn data_url_spec(mime: Seq<char>, encoded: Seq<char>) -> Seq<char> {
    "data:"@ + mime + ";base64,"@ + encoded
}

/// The data URL a request yields: its PNG image in base64, or the image's error.
pub open spec fn url_spec(options: QrCodeOptions) -> Result<Seq<char>, QrError> {
    match buff_spec(options) {
        Ok(png) => Ok(data_url_spec(PNG_MIME@, base64_of(png))),
        Err(e) => Err(e),
    }
}

/// Builds `data:<mime>;base64,<encoded>` from already encoded text.
pub fn data_url(mime: &str, encoded: &str) -> (r: String)
    ensures
        r@ == data_url_spec(mime@, encoded@),
{
    let mut url = String::from_str("data:");
    url.append(mime);
    url.append(";base64,");
    url.append(encoded);
    url
}

/// The PNG image of the options' payload, at their level and size or the defaults.
pub fn png_to_vec(options: QrCodeOptions) -> (r: Result<Vec<u8>, QrError>)
    ensures
        outcome_view(r) == png_of(options.data@, request_ecc(options), size_spec(options.size)),
{
    let size = options.render_size();
    let ecc = QrCodeEcc::from(options.level());
    png_bytes(options.data.as_str(), ecc, size)
}

/// The SVG document of the options' payload, at their level and size or the defaults.
pub fn svg_to_string(options: QrCodeOptions) -> (r: Result<String, QrError>)
    ensures
        outcome_view(r) == svg_of(options.data@, request_ecc(options), size_spec(options.size)),
{
    let size = options.render_size();
    let ecc = QrCodeEcc::from(options.level());
    svg_text(options.data.as_str(), ecc, size)
}

/// Encoding is a function of the request: two requests with the same payload
/// and the same level and size, once the defaults are filled in, yield the same
/// image, data URL, document and symbol, whether the defaults were given or left
/// out.
pub proof fn lemma_same_request_same_output(a: QrCodeOptions, b: QrCodeOptions)
    requires
        a.data@ == b.data@,
        level_spec(a.ecc) == level_spec(b.ecc),
        size_spec(a.size) == size_spec(b.size),
    ensures
        buff_spec(a) == buff_spec(b),
        url_spec(a) == url_spec(b),
        svg_spec(a) == svg_spec(b),
        symbol_spec(a) == symbol_spec(b),
{
}

/// The generator's entry points.
pub struct QrGen {}

impl QrGen {
    /// The PNG image as a `data:image/png;base64,...` URL.
    pub fn to_url(options: QrCodeOptions) -> (r: Result<String, QrError>)
        ensures
            outcome_view(r) == url_spec(options),
    {
        match QrGen::to_buff(options) {
            Ok(png) => {
                let encoded = base64_text(&png);
                Ok(data_url(PNG_MIME, encoded.as_str()))
            },
            Err(e) => Err(e),
        }
    }

    /// The PNG image's bytes; an empty payload is refused.
    pub fn to_buff(options: QrCodeOptions) -> (r: Result<Vec<u8>, QrError>)
        ensures
            outcome_view(r) == buff_spec(options),
    {
        if options.data.as_str().is_empty() {
            return Err(QrError::EmptyPayload);
        }
        png_to_vec(options)
    }

    /// The SVG document; an empty payload is refused.
    pub fn to_svg(options: QrCodeOptions) -> (r: Result<String, QrError>)
        ensures
            outcome_view(r) == svg_spec(options),
    {
        if options.data.as_str().is_empty() {
            return Err(QrError::EmptyPayload);
        }
        svg_to_string(options)
    }

    /// The encoded symbol, before any rendering; an empty payload is refused.
    /// The size option plays no part here.
    pub fn to_symbol(options: QrCodeOptions) -> (r: Result<Symbol, QrError>)
        ensures
            outcome_view(r) == symbol_spec(options),
            r is Ok ==> r->Ok_0.wf() && r->Ok_0.spec_level() == level_spec(options.ecc),
    {
        if options.data.as_str().is_empty() {
            return Err(QrError::EmptyPayload);
        }
        let level = options.level();
        let ecc = QrCodeEcc::from(level);
        match module_rows(options.data.as_str(), ecc) {
            Ok(rows) => Ok(Symbol::from_rows(rows, level)),
            Err(e) => Err(e),
        }
    }
}

} // verus!
