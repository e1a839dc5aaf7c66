//! The error taxonomy: every way in which a transform request can end
//! without a result, the text shown for it and the status it is answered with.

use vstd::prelude::*;
use vstd::string::StringExecFns;

verus! {

/// Every failure of a transform request. Each one ends the request: nothing
/// is retried.
#[derive(Debug, Clone, PartialEq, Eq)]
pub enum CustomError {
    UnsupportedFormat,
    DownloadError,
    ImageDecodeError,
    ResizeError,
    FileCreationError,
    ImageEncodeError,
    DirectoryCreationError,
    FileWriteError,
    FileReadError,
    FileCorruptError,
    BadRequest,
    ProcessingError(String),
    JsonDeserializeError(String),
}

/// The five families of the taxonomy.
#[derive(Debug, Clone, Copy, PartialEq, Eq, Structural)]
pub enum ErrorClass {
    Validation,
    Network,
    Io,
    Codec,
    Internal,
}

impl CustomError {
    /// The family that an error belongs to.
    pub open spec fn class_of(self) -> ErrorClass {
        match self {
            CustomError::UnsupportedFormat => ErrorClass::Validation,
            CustomError::BadRequest => ErrorClass::Validation,
            CustomError::JsonDeserializeError(_) => ErrorClass::Validation,
            CustomError::DownloadError => ErrorClass::Network,
            CustomError::DirectoryCreationError => ErrorClass::Io,
            CustomError::FileCreationError => ErrorClass::Io,
            CustomError::FileWriteError => ErrorClass::Io,
            CustomError::FileReadError => ErrorClass::Io,
            CustomError::FileCorruptError => ErrorClass::Io,
            CustomError::ImageDecodeError => ErrorClass::Codec,
            CustomError::ResizeError => ErrorClass::Codec,
            CustomError::ImageEncodeError => ErrorClass::Codec,
            CustomError::ProcessingError(_) => ErrorClass::Internal,
        }
    }

    /// The status that answers an error: 400 for a request that was not
    /// valid, 502 where the source could not be fetched, 500 otherwise.
    pub open spec fn status_of(self) -> u16 {
        match self.class_of() {
            ErrorClass::Validation => 400,
            ErrorClass::Network => 502,
            _ => 500,
        }
    }

    /// The text of an error, as the caller of the service reads it.
    pub open spec fn message_of(self) -> Seq<char> {
        match self {
            CustomError::UnsupportedFormat => {
                "Unsupported format. Use 'avif', 'heic', 'jxl', or 'qoi'."@
            },
            CustomError::DownloadError => "Failed to download image from URL."@,
            CustomError::ImageDecodeError => {
                "Failed to decode image. May be corrupt or unsupported."@
            },
            CustomError::ResizeError => "Failed to resize image."@,
            CustomError::FileCreationError => "Failed to create output file."@,
            CustomError::ImageEncodeError => "Failed to encode image."@,
            CustomError::DirectoryCreationError => "Failed to create directories."@,
            CustomError::FileWriteError => "Failed to write image data to file."@,
            CustomError::FileReadError => "Failed to read image data from file."@,
            CustomError::FileCorruptError => "File was empty or corrupt."@,
            CustomError::BadRequest => "Bad request: invalid request format."@,
            CustomError::ProcessingError(details) => "Internal processing error: "@ + details@,
            CustomError::JsonDeserializeError(details) => "Bad request: invalid JSON - "@
                + details@,
        }
    }

    pub fn class(&self) -> (class: ErrorClass)
        ensures
            class == self.class_of(),
    {
        match self {
            CustomError::UnsupportedFormat => ErrorClass::Validation,
            CustomError::BadRequest => ErrorClass::Validation,
            CustomError::JsonDeserializeError(_) => ErrorClass::Validation,
            CustomError::DownloadError => ErrorClass::Network,
            CustomError::DirectoryCreationError => ErrorClass::Io,
            CustomError::FileCreationError => ErrorClass::Io,
            CustomError::FileWriteError => ErrorClass::Io,
            CustomError::FileReadError => ErrorClass::Io,
            CustomError::FileCorruptError => ErrorClass::Io,
            CustomError::ImageDecodeError => ErrorClass::Codec,
            CustomError::ResizeError => ErrorClass::Codec,
            CustomError::ImageEncodeError => ErrorClass::Codec,
            CustomError::ProcessingError(_) => ErrorClass::Internal,
        }
    }

    pub fn status_code(&self) -> (code: u16)
        ensures
            code == self.status_of(),
            400 <= code < 500 <==> self.class_of() == ErrorClass::Validation,
            500 <= code < 600 <==> self.class_of() != ErrorClass::Validation,
    {
        match self.class() {
            ErrorClass::Validation => 400,
            ErrorClass::Network => 502,
            _ => 500,
        }
    }

    /// Renders the error as text.
    pub fn message(&self) -> (text: String)
        ensures
            text@ == self.message_of(),
    {
        match self {
            CustomError::UnsupportedFormat => {
                "Unsupported format. Use 'avif', 'heic', 'jxl', or 'qoi'.".to_string()
            },
            CustomError::DownloadError => "Failed to download image from URL.".to_string(),
            CustomError::ImageDecodeError => {
                "Failed to decode image. May be corrupt or unsupported.".to_string()
            },
            CustomError::ResizeError => "Failed to resize image.".to_string(),
            CustomError::FileCreationError => "Failed to create output file.".to_string(),
            CustomError::ImageEncodeError => "Failed to encode image.".to_string(),
            CustomError::DirectoryCreationError => "Failed to create directories.".to_string(),
            CustomError::FileWriteError => "Failed to write image data to file.".to_string(),
            CustomError::FileReadError => "Failed to read image data from file.".to_string(),
            CustomError::FileCorruptError => "File was empty or corrupt.".to_string(),
            CustomError::BadRequest => "Bad request: invalid request format.".to_string(),
            CustomError::ProcessingError(details) => {
                "Internal processing error: ".to_string().concat(details.as_str())
            },
            CustomError::JsonDeserializeError(details) => {
                "Bad request: invalid JSON - ".to_string().concat(details.as_str())
            },
        }
    }
}

} // verus!
