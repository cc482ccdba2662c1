use win_ocr::{select_auto_language, OcrError};

#[test]
fn empty_list_yields_no_language_available() {
    let r = select_auto_language(Vec::new());
    assert_eq!(r, Err(OcrError::NoLanguageAvailable));
}

#[test]
fn first_platform_language_wins() {
    let tags = vec!["ja".to_string(), "en".to_string(), "de".to_string()];
    let r = select_auto_language(tags);
    assert_eq!(r, Ok("ja".to_string()));
}

#[test]
fn single_language_is_chosen() {
    let tags = vec!["en-US".to_string()];
    assert_eq!(select_auto_language(tags), Ok("en-US".to_string()));
}

#[test]
fn error_messages_are_distinct_and_fixed() {
    assert_eq!(OcrError::PathUnavailable.message(), "Could not open file");
    assert_eq!(OcrError::DecodeFailed.message(), "Could not decode image");
    assert_eq!(
        OcrError::NoLanguageAvailable.message(),
        "No OCR language is available"
    );
    assert_eq!(
        OcrError::UnsupportedLanguage.message(),
        "The requested language is not supported"
    );
    assert_eq!(
        OcrError::RecognitionFailed.message(),
        "Text recognition failed"
    );
}
