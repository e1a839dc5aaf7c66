use image_cache::error::CustomError;
use image_cache::format::{
    resolve_format, resolve_lowered, Format, OutputConvention, AVIF_QUALITY, AVIF_SPEED,
    HEIC_QUALITY,
};

#[test]
fn each_tag_names_its_format() {
    assert_eq!(Format::from_tag("avif"), Some(Format::Avif));
    assert_eq!(Format::from_tag("heic"), Some(Format::Heic));
    assert_eq!(Format::from_tag("jxl"), Some(Format::Jxl));
    assert_eq!(Format::from_tag("qoi"), Some(Format::Qoi));
}

#[test]
fn each_format_is_found_by_its_own_tag() {
    for format in [Format::Avif, Format::Heic, Format::Jxl, Format::Qoi] {
        assert_eq!(Format::from_tag(format.tag()), Some(format));
    }
    assert_eq!(Format::Avif.tag(), "avif");
    assert_eq!(Format::Heic.tag(), "heic");
    assert_eq!(Format::Jxl.tag(), "jxl");
    assert_eq!(Format::Qoi.tag(), "qoi");
}

#[test]
fn the_lookup_is_exact() {
    for tag in ["", "bmp", "png", "AVIF", "Avif", " avif", "avif ", "avi", "aviff", "jpeg", "q0i"] {
        assert_eq!(Format::from_tag(tag), None);
    }
}

#[test]
fn a_request_may_write_the_tag_in_any_case() {
    assert_eq!(resolve_format(Some("AVIF"), None), Ok(Format::Avif));
    assert_eq!(resolve_format(Some("HeIc"), None), Ok(Format::Heic));
    assert_eq!(resolve_format(Some("JXL"), None), Ok(Format::Jxl));
    assert_eq!(resolve_format(Some("qoi"), None), Ok(Format::Qoi));
}

#[test]
fn an_unrecognized_format_is_unsupported() {
    assert_eq!(resolve_format(Some("bmp"), None), Err(CustomError::UnsupportedFormat));
    assert_eq!(resolve_format(Some("bmp"), Some(Format::Qoi)), Err(CustomError::UnsupportedFormat));
    assert_eq!(resolve_format(Some(""), Some(Format::Qoi)), Err(CustomError::UnsupportedFormat));
    assert_eq!(resolve_format(Some("avif "), None), Err(CustomError::UnsupportedFormat));
}

#[test]
fn a_missing_format_takes_the_default() {
    assert_eq!(resolve_format(None, Some(Format::Jxl)), Ok(Format::Jxl));
    assert_eq!(resolve_format(None, None), Err(CustomError::UnsupportedFormat));
}

#[test]
fn a_lowered_tag_is_not_lowered_again() {
    assert_eq!(resolve_lowered(Some("qoi"), None), Ok(Format::Qoi));
    assert_eq!(resolve_lowered(Some("QOI"), None), Err(CustomError::UnsupportedFormat));
    assert_eq!(resolve_lowered(None, Some(Format::Heic)), Ok(Format::Heic));
    assert_eq!(resolve_lowered(None, None), Err(CustomError::UnsupportedFormat));
}

#[test]
fn only_heic_writes_its_destination() {
    assert_eq!(Format::Heic.output_convention(), OutputConvention::WritesToDestination);
    assert_eq!(Format::Avif.output_convention(), OutputConvention::ReturnsBytes);
    assert_eq!(Format::Jxl.output_convention(), OutputConvention::ReturnsBytes);
    assert_eq!(Format::Qoi.output_convention(), OutputConvention::ReturnsBytes);
}

#[test]
fn only_qoi_is_lossless() {
    assert!(Format::Qoi.is_lossless());
    assert!(!Format::Avif.is_lossless());
    assert!(!Format::Heic.is_lossless());
    assert!(!Format::Jxl.is_lossless());
}

#[test]
fn the_presets_are_fixed() {
    assert_eq!(AVIF_SPEED, 8);
    assert_eq!(AVIF_QUALITY, 85);
    assert_eq!(HEIC_QUALITY, 85);
}
