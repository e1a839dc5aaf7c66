use image_cache::format::Format;
use image_cache::naming::{calculate_hash, decimal_string, transformed_filename};

#[test]
fn the_key_of_the_empty_source_is_the_known_digest() {
    assert_eq!(
        calculate_hash(""),
        "af1349b9f5f9a1a6a0404dea36dcc9499bcb25c9adc112b7cc9a93cae41f3262"
    );
}

#[test]
fn the_key_is_the_blake3_digest_of_the_text() {
    for source in ["https://example.com/a.png", "a", "https://example.com/ä.png", "x/y?z=1"] {
        assert_eq!(calculate_hash(source), blake3::hash(source.as_bytes()).to_hex().to_string());
    }
}

#[test]
fn the_key_is_not_the_source() {
    let source = "af1349b9f5f9a1a6a0404dea36dcc9499bcb25c9adc112b7cc9a93cae41f3262";
    assert_ne!(calculate_hash(source), source);
}

#[test]
fn the_same_source_has_the_same_key() {
    let first = calculate_hash("https://example.com/cat.jpg");
    for _ in 0..10 {
        assert_eq!(calculate_hash("https://example.com/cat.jpg"), first);
    }
}

#[test]
fn a_key_is_sixty_four_lowercase_hex_digits() {
    for source in ["", "a", "https://example.com/cat.jpg"] {
        let key = calculate_hash(source);
        assert_eq!(key.len(), 64);
        assert!(key.chars().all(|c| matches!(c, '0'..='9' | 'a'..='f')));
    }
}

#[test]
fn distinct_sources_have_distinct_keys() {
    let mut keys = std::collections::HashSet::new();
    for index in 0..2000u32 {
        assert!(keys.insert(calculate_hash(&format!("https://example.com/{index}.png"))));
    }
    assert_eq!(keys.len(), 2000);
}

#[test]
fn numbers_are_written_in_decimal() {
    assert_eq!(decimal_string(0), "0");
    assert_eq!(decimal_string(7), "7");
    assert_eq!(decimal_string(10), "10");
    assert_eq!(decimal_string(800), "800");
    assert_eq!(decimal_string(1234567890), "1234567890");
    assert_eq!(decimal_string(u32::MAX), "4294967295");
}

#[test]
fn decimal_agrees_with_the_standard_library() {
    for n in (0..100_000u32).step_by(37) {
        assert_eq!(decimal_string(n), n.to_string());
    }
}

#[test]
fn a_transformed_blob_is_named_by_key_size_and_format() {
    assert_eq!(transformed_filename("abc", 800, Format::Qoi), "abc_800.qoi");
    assert_eq!(transformed_filename("abc", 0, Format::Avif), "abc_0.avif");
    assert_eq!(transformed_filename("abc", u32::MAX, Format::Heic), "abc_4294967295.heic");
    assert_eq!(transformed_filename("", 12, Format::Jxl), "_12.jxl");
}

#[test]
fn the_name_of_a_blob_starts_with_the_key_of_its_source() {
    let key = calculate_hash("https://example.com/cat.jpg");
    let name = transformed_filename(&key, 800, Format::Qoi);
    assert_eq!(name, format!("{key}_800.qoi"));
    assert_ne!(name, key);
}

#[test]
fn each_size_and_format_has_a_name_of_its_own() {
    let key = calculate_hash("https://example.com/cat.jpg");
    let mut names = std::collections::HashSet::new();
    for side in [0u32, 1, 8, 80, 800, 8000, 801] {
        for format in [Format::Avif, Format::Heic, Format::Jxl, Format::Qoi] {
            assert!(names.insert(transformed_filename(&key, side, format)));
        }
    }
}
