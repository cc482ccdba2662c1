//! The uniform error taxonomy of the pipeline.
//!
//! Every failure a caller can see is one of these kinds; each stage of the
//! pipeline surfaces the first failure it meets, unchanged.

use vstd::prelude::*;

verus! {

/// The distinct ways an invocation of the pipeline can fail.
#[derive(Clone, Copy, Debug, PartialEq, Eq, Structural)]
pub enum OcrError {
    /// The input path could not be resolved or opened.
    PathUnavailable,
    /// The file opened but could not be decoded as the expected image format.
    DecodeFailed,
    /// Automatic language selection found no platform-advertised language.
    NoLanguageAvailable,
    /// The requested language tag could not be bound to a recognizer.
    UnsupportedLanguage,
    /// The recognition call itself failed after bitmap and recognizer were obtained.
    RecognitionFailed,
}

impl OcrError {
    /// A caller-facing description of the failure.
    pub fn message(&self) -> (r: String)
        ensures
            *self == OcrError::PathUnavailable ==> r@ == "Could not open file"@,
            *self == OcrError::DecodeFailed ==> r@ == "Could not decode image"@,
            *self == OcrError::NoLanguageAvailable ==> r@ == "No OCR language is available"@,
            *self == OcrError::UnsupportedLanguage ==> r@ == "The requested language is not supported"@,
            *self == OcrError::RecognitionFailed ==> r@ == "Text recognition failed"@,
    {
        match self {
            OcrError::PathUnavailable => "Could not open file".to_owned(),
            OcrError::DecodeFailed => "Could not decode image".to_owned(),
            OcrError::NoLanguageAvailable => "No OCR language is available".to_owned(),
            OcrError::UnsupportedLanguage => "The requested language is not supported".to_owned(),
            OcrError::RecognitionFailed => "Text recognition failed".to_owned(),
        }
    }
}

} // verus!
