use image_cache::error::{CustomError, ErrorClass};

#[test]
fn each_error_has_its_text() {
    assert_eq!(
        CustomError::UnsupportedFormat.message(),
        "Unsupported format. Use 'avif', 'heic', 'jxl', or 'qoi'."
    );
    assert_eq!(CustomError::DownloadError.message(), "Failed to download image from URL.");
    assert_eq!(
        CustomError::ImageDecodeError.message(),
        "Failed to decode image. May be corrupt or unsupported."
    );
    assert_eq!(CustomError::ResizeError.message(), "Failed to resize image.");
    assert_eq!(CustomError::FileCreationError.message(), "Failed to create output file.");
    assert_eq!(CustomError::ImageEncodeError.message(), "Failed to encode image.");
    assert_eq!(CustomError::DirectoryCreationError.message(), "Failed to create directories.");
    assert_eq!(CustomError::FileWriteError.message(), "Failed to write image data to file.");
    assert_eq!(CustomError::FileReadError.message(), "Failed to read image data from file.");
    assert_eq!(CustomError::FileCorruptError.message(), "File was empty or corrupt.");
    assert_eq!(CustomError::BadRequest.message(), "Bad request: invalid request format.");
}

#[test]
fn details_follow_the_text() {
    assert_eq!(
        CustomError::ProcessingError("task panicked".to_string()).message(),
        "Internal processing error: task panicked"
    );
    assert_eq!(
        CustomError::JsonDeserializeError("expected value at line 1 column 1".to_string())
            .message(),
        "Bad request: invalid JSON - expected value at line 1 column 1"
    );
    assert_eq!(
        CustomError::ProcessingError(String::new()).message(),
        "Internal processing error: "
    );
}

#[test]
fn each_error_has_its_class() {
    assert_eq!(CustomError::UnsupportedFormat.class(), ErrorClass::Validation);
    assert_eq!(CustomError::BadRequest.class(), ErrorClass::Validation);
    assert_eq!(CustomError::JsonDeserializeError("x".to_string()).class(), ErrorClass::Validation);
    assert_eq!(CustomError::DownloadError.class(), ErrorClass::Network);
    assert_eq!(CustomError::DirectoryCreationError.class(), ErrorClass::Io);
    assert_eq!(CustomError::FileCreationError.class(), ErrorClass::Io);
    assert_eq!(CustomError::FileWriteError.class(), ErrorClass::Io);
    assert_eq!(CustomError::FileReadError.class(), ErrorClass::Io);
    assert_eq!(CustomError::FileCorruptError.class(), ErrorClass::Io);
    assert_eq!(CustomError::ImageDecodeError.class(), ErrorClass::Codec);
    assert_eq!(CustomError::ResizeError.class(), ErrorClass::Codec);
    assert_eq!(CustomError::ImageEncodeError.class(), ErrorClass::Codec);
    assert_eq!(CustomError::ProcessingError("x".to_string()).class(), ErrorClass::Internal);
}

#[test]
fn validation_is_answered_in_the_four_hundreds() {
    assert_eq!(CustomError::UnsupportedFormat.status_code(), 400);
    assert_eq!(CustomError::BadRequest.status_code(), 400);
    assert_eq!(CustomError::JsonDeserializeError("x".to_string()).status_code(), 400);
}

#[test]
fn everything_else_is_answered_in_the_five_hundreds() {
    assert_eq!(CustomError::DownloadError.status_code(), 502);
    for error in [
        CustomError::DirectoryCreationError,
        CustomError::FileCreationError,
        CustomError::FileWriteError,
        CustomError::FileReadError,
        CustomError::FileCorruptError,
        CustomError::ImageDecodeError,
        CustomError::ResizeError,
        CustomError::ImageEncodeError,
        CustomError::ProcessingError("x".to_string()),
    ] {
        assert_eq!(error.status_code(), 500);
    }
}
