use base64::Engine;
use qrcode_generator::QrCodeEcc;
use qrgen::options::{QRCorrectionLevel, QrCodeOptions, QrError, DEFAULT_RENDER_SIZE};
use qrgen::qrgen::{data_url, png_to_vec, svg_to_string, QrGen, PNG_MIME};

fn request(data: &str, ecc: Option<QRCorrectionLevel>, size: Option<u32>) -> QrCodeOptions {
    QrCodeOptions { data: data.to_string(), ecc, size }
}

fn png_side(png: &[u8]) -> (u32, u32) {
    let width = u32::from_be_bytes([png[16], png[17], png[18], png[19]]);
    let height = u32::from_be_bytes([png[20], png[21], png[22], png[23]]);
    (width, height)
}

fn version_of(data: &str, level: QRCorrectionLevel) -> u8 {
    QrGen::to_symbol(request(data, Some(level), None)).unwrap().version()
}

#[test]
fn hello_at_low_is_version_one() {
    let symbol = QrGen::to_symbol(request("HELLO", Some(QRCorrectionLevel::Low), None)).unwrap();
    assert_eq!(symbol.version(), 1);
    assert_eq!(symbol.size(), 21);
    assert_eq!(symbol.level(), QRCorrectionLevel::Low);
    // finder pattern corners are dark, the separator beside them light
    assert!(symbol.is_dark(0, 0));
    assert!(symbol.is_dark(0, 20));
    assert!(symbol.is_dark(20, 0));
    assert!(!symbol.is_dark(7, 7));
    assert!(!symbol.is_dark(21, 0));
    assert!(!symbol.is_dark(0, 21));
}

#[test]
fn hello_rendered_at_210_is_210_pixels_square() {
    let png = QrGen::to_buff(request("HELLO", Some(QRCorrectionLevel::Low), Some(210))).unwrap();
    assert_eq!(&png[1..4], b"PNG");
    assert_eq!(png_side(&png), (210, 210));
}

#[test]
fn default_size_is_1024_pixels() {
    assert_eq!(DEFAULT_RENDER_SIZE, 1024);
    let png = QrGen::to_buff(request("HELLO", None, None)).unwrap();
    assert_eq!(png_side(&png), (1024, 1024));
}

#[test]
fn empty_payload_is_refused_everywhere() {
    assert_eq!(QrGen::to_buff(request("", None, None)), Err(QrError::EmptyPayload));
    assert_eq!(QrGen::to_url(request("", None, None)), Err(QrError::EmptyPayload));
    assert_eq!(QrGen::to_svg(request("", None, None)), Err(QrError::EmptyPayload));
    assert!(matches!(QrGen::to_symbol(request("", None, None)), Err(QrError::EmptyPayload)));
}

#[test]
fn three_thousand_bytes_at_high_are_too_large() {
    let text = "a".repeat(3000);
    let high = Some(QRCorrectionLevel::High);
    assert_eq!(QrGen::to_buff(request(&text, high, None)), Err(QrError::PayloadTooLarge));
    assert_eq!(QrGen::to_url(request(&text, high, None)), Err(QrError::PayloadTooLarge));
    assert_eq!(QrGen::to_svg(request(&text, high, None)), Err(QrError::PayloadTooLarge));
    assert!(matches!(QrGen::to_symbol(request(&text, high, None)), Err(QrError::PayloadTooLarge)));
}

#[test]
fn size_below_the_module_count_is_too_small() {
    let tiny = request("HELLO", None, Some(10));
    assert_eq!(QrGen::to_buff(tiny), Err(QrError::RenderSizeTooSmall));
    assert_eq!(QrGen::to_svg(request("HELLO", None, Some(0))), Err(QrError::RenderSizeTooSmall));
    // 23 = 21 modules and one module of margin on each side
    assert!(QrGen::to_buff(request("HELLO", None, Some(23))).is_ok());
    assert_eq!(QrGen::to_buff(request("HELLO", None, Some(22))), Err(QrError::RenderSizeTooSmall));
}

#[test]
fn same_request_gives_same_output() {
    let a = QrGen::to_buff(request("https://example.org/q?x=1", None, None)).unwrap();
    let b = QrGen::to_buff(request("https://example.org/q?x=1", Some(QRCorrectionLevel::Low), Some(1024))).unwrap();
    assert_eq!(a, b);
    let s1 = QrGen::to_symbol(request("determinism", Some(QRCorrectionLevel::Quartile), None)).unwrap();
    let s2 = QrGen::to_symbol(request("determinism", Some(QRCorrectionLevel::Quartile), Some(7))).unwrap();
    assert_eq!(s1.version(), s2.version());
    for row in 0..s1.size() {
        for col in 0..s1.size() {
            assert_eq!(s1.is_dark(row, col), s2.is_dark(row, col));
        }
    }
    let u1 = QrGen::to_url(request("determinism", None, Some(100))).unwrap();
    let u2 = QrGen::to_url(request("determinism", None, Some(100))).unwrap();
    assert_eq!(u1, u2);
}

#[test]
fn raising_the_level_never_lowers_the_version() {
    let text = "x".repeat(120);
    let low = version_of(&text, QRCorrectionLevel::Low);
    let medium = version_of(&text, QRCorrectionLevel::Medium);
    let quartile = version_of(&text, QRCorrectionLevel::Quartile);
    let high = version_of(&text, QRCorrectionLevel::High);
    assert!(low <= medium && medium <= quartile && quartile <= high);
    assert!(low < high);
}

#[test]
fn url_is_the_image_in_base64() {
    let png = QrGen::to_buff(request("HELLO", None, Some(64))).unwrap();
    let url = QrGen::to_url(request("HELLO", None, Some(64))).unwrap();
    let prefix = "data:image/png;base64,";
    assert!(url.starts_with(prefix));
    let encoded = &url[prefix.len()..];
    assert!(!encoded.ends_with('='));
    let decoded = base64::engine::general_purpose::STANDARD_NO_PAD.decode(encoded).unwrap();
    assert_eq!(decoded, png);
}

#[test]
fn data_url_joins_its_parts() {
    assert_eq!(PNG_MIME, "image/png");
    assert_eq!(data_url("image/png", "QUJD"), "data:image/png;base64,QUJD");
    assert_eq!(data_url("image/svg+xml", ""), "data:image/svg+xml;base64,");
}

#[test]
fn svg_has_the_requested_side() {
    let svg = QrGen::to_svg(request("HELLO", Some(QRCorrectionLevel::Medium), Some(210))).unwrap();
    assert!(svg.starts_with("<?xml"));
    assert!(svg.contains("<svg width=\"210\" height=\"210\""));
    assert!(svg.ends_with("</svg>"));
}

#[test]
fn internal_renderers_skip_the_payload_check() {
    assert!(png_to_vec(request("", None, Some(50))).is_ok());
    assert!(svg_to_string(request("", None, Some(50))).is_ok());
}

#[test]
fn levels_map_one_for_one() {
    assert_eq!(QrCodeEcc::from(QRCorrectionLevel::Low), QrCodeEcc::Low);
    assert_eq!(QrCodeEcc::from(QRCorrectionLevel::Medium), QrCodeEcc::Medium);
    assert_eq!(QrCodeEcc::from(QRCorrectionLevel::Quartile), QrCodeEcc::Quartile);
    assert_eq!(QrCodeEcc::from(QRCorrectionLevel::High), QrCodeEcc::High);
}

#[test]
fn options_fill_in_defaults() {
    let none = request("x", None, None);
    assert_eq!(none.level(), QRCorrectionLevel::Low);
    assert_eq!(none.render_size(), 1024);
    let given = request("x", Some(QRCorrectionLevel::High), Some(300));
    assert_eq!(given.level(), QRCorrectionLevel::High);
    assert_eq!(given.render_size(), 300);
}
