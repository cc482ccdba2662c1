use win_ocr::{
    run_script, start_from_bitmap, start_from_path, step, LanguageMode, OcrAction, OcrError,
    OcrEvent, OcrState,
};

/// Feeds the scripted events into the machine one by one and returns the
/// final state together with every action the machine asked for.
fn drive(
    mode: &LanguageMode,
    start: (OcrState, OcrAction),
    events: Vec<OcrEvent>,
) -> (OcrState, Vec<OcrAction>) {
    let (mut state, first) = start;
    let mut actions = vec![first];
    for event in events {
        let (next, action) = step(mode, state, event);
        state = next;
        actions.push(action);
    }
    (state, actions)
}

#[test]
fn successful_auto_run_returns_platform_text() {
    let mode = LanguageMode::Auto;
    let start = start_from_path("img.png");
    assert!(matches!(&start.1, OcrAction::ResolvePath(p) if p == "img.png"));
    let events = vec![
        OcrEvent::PathResolved("\\\\?\\C:\\img.png".to_string()),
        OcrEvent::BitmapReady,
        OcrEvent::LanguagesListed(vec!["en".to_string(), "ja".to_string()]),
        OcrEvent::RecognizerReady,
        OcrEvent::TextRecognized("Sample Text".to_string()),
    ];
    let (state, actions) = drive(&mode, start, events);
    assert!(matches!(&state, OcrState::Done(t) if t == "Sample Text"));
    assert!(matches!(&actions[1], OcrAction::LoadBitmap(p) if p == "C:\\img.png"));
    assert!(matches!(actions[2], OcrAction::ListLanguages));
    assert!(matches!(&actions[3], OcrAction::CreateRecognizer(t) if t == "en"));
    assert!(matches!(actions[4], OcrAction::Recognize));
    assert!(matches!(actions[5], OcrAction::Stop));
}

#[test]
fn successful_explicit_run_returns_platform_text() {
    let mode = LanguageMode::Explicit("ja".to_string());
    let start = start_from_path("サンプル.png");
    let events = vec![
        OcrEvent::PathResolved("C:\\サンプル.png".to_string()),
        OcrEvent::BitmapReady,
        OcrEvent::RecognizerReady,
        OcrEvent::TextRecognized("サンプルテキスト".to_string()),
    ];
    let (state, actions) = drive(&mode, start, events);
    assert!(matches!(&state, OcrState::Done(t) if t == "サンプルテキスト"));
    // Explicit mode never queries the platform's language list.
    assert!(!actions
        .iter()
        .any(|a| matches!(a, OcrAction::ListLanguages)));
    assert!(matches!(&actions[2], OcrAction::CreateRecognizer(t) if t == "ja"));
}

#[test]
fn unresolvable_path_fails_without_decoding() {
    let mode = LanguageMode::Auto;
    let start = start_from_path("missing.png");
    let events = vec![OcrEvent::PathNotResolved];
    let (state, actions) = drive(&mode, start, events);
    assert!(matches!(state, OcrState::Failed(OcrError::PathUnavailable)));
    assert!(!actions
        .iter()
        .any(|a| matches!(a, OcrAction::LoadBitmap(_))));
}

#[test]
fn corrupt_file_fails_with_decode_error() {
    let mode = LanguageMode::Auto;
    let start = start_from_path("corrupt.png");
    let events = vec![
        OcrEvent::PathResolved("C:\\corrupt.png".to_string()),
        OcrEvent::BitmapError,
    ];
    let (state, _) = drive(&mode, start, events);
    assert!(matches!(state, OcrState::Failed(OcrError::DecodeFailed)));
    assert!(!matches!(state, OcrState::Failed(OcrError::PathUnavailable)));
}

#[test]
fn unknown_tag_fails_where_auto_succeeds() {
    // The same path: explicit mode with an unbindable tag fails with
    // UnsupportedLanguage, while auto mode on identical platform answers
    // succeeds.
    let resolved = "C:\\img.png".to_string();
    let explicit = LanguageMode::Explicit("xx-unknown".to_string());
    let (state, _) = drive(
        &explicit,
        start_from_path("img.png"),
        vec![
            OcrEvent::PathResolved(resolved.clone()),
            OcrEvent::BitmapReady,
            OcrEvent::RecognizerUnavailable,
        ],
    );
    assert!(matches!(
        state,
        OcrState::Failed(OcrError::UnsupportedLanguage)
    ));

    let auto = LanguageMode::Auto;
    let (state, _) = drive(
        &auto,
        start_from_path("img.png"),
        vec![
            OcrEvent::PathResolved(resolved),
            OcrEvent::BitmapReady,
            OcrEvent::LanguagesListed(vec!["en".to_string()]),
            OcrEvent::RecognizerReady,
            OcrEvent::TextRecognized("Sample Text".to_string()),
        ],
    );
    assert!(matches!(&state, OcrState::Done(t) if t == "Sample Text"));
}

#[test]
fn empty_language_list_fails_auto_mode() {
    let mode = LanguageMode::Auto;
    let start = start_from_path("img.png");
    let events = vec![
        OcrEvent::PathResolved("C:\\img.png".to_string()),
        OcrEvent::BitmapReady,
        OcrEvent::LanguagesListed(Vec::new()),
    ];
    let (state, _) = drive(&mode, start, events);
    assert!(matches!(
        state,
        OcrState::Failed(OcrError::NoLanguageAvailable)
    ));
}

#[test]
fn recognition_error_fails_the_run() {
    let mode = LanguageMode::Explicit("en".to_string());
    let start = start_from_path("img.png");
    let events = vec![
        OcrEvent::PathResolved("C:\\img.png".to_string()),
        OcrEvent::BitmapReady,
        OcrEvent::RecognizerReady,
        OcrEvent::RecognitionError,
    ];
    let (state, _) = drive(&mode, start, events);
    assert!(matches!(state, OcrState::Failed(OcrError::RecognitionFailed)));
}

#[test]
fn identical_runs_yield_identical_text() {
    let mode = LanguageMode::Auto;
    let script = || {
        vec![
            OcrEvent::PathResolved("C:\\img.png".to_string()),
            OcrEvent::BitmapReady,
            OcrEvent::LanguagesListed(vec!["en".to_string()]),
            OcrEvent::RecognizerReady,
            OcrEvent::TextRecognized("Sample Text".to_string()),
        ]
    };
    let (first, _) = drive(&mode, start_from_path("img.png"), script());
    let (second, _) = drive(&mode, start_from_path("img.png"), script());
    let first_text = match first {
        OcrState::Done(t) => t,
        _ => panic!("first run did not finish"),
    };
    let second_text = match second {
        OcrState::Done(t) => t,
        _ => panic!("second run did not finish"),
    };
    assert_eq!(first_text, second_text);
}

#[test]
fn path_run_and_bitmap_run_agree() {
    let mode = LanguageMode::Explicit("en".to_string());
    let tail = || {
        vec![OcrEvent::RecognizerReady, OcrEvent::TextRecognized("Sample Text".to_string())]
    };
    let mut from_path = vec![
        OcrEvent::PathResolved("C:\\img.png".to_string()),
        OcrEvent::BitmapReady,
    ];
    from_path.extend(tail());
    let (path_state, _) = drive(&mode, start_from_path("img.png"), from_path);
    let (bitmap_state, _) = drive(&mode, start_from_bitmap(&mode), tail());
    let path_text = match path_state {
        OcrState::Done(t) => t,
        _ => panic!("path run did not finish"),
    };
    let bitmap_text = match bitmap_state {
        OcrState::Done(t) => t,
        _ => panic!("bitmap run did not finish"),
    };
    assert_eq!(path_text, bitmap_text);
}

#[test]
fn scripted_run_agrees_with_stepwise_run() {
    let mode = LanguageMode::Auto;
    let script = || {
        vec![
            OcrEvent::PathResolved("\\\\?\\C:\\img.png".to_string()),
            OcrEvent::BitmapReady,
            OcrEvent::LanguagesListed(vec!["en".to_string()]),
            OcrEvent::RecognizerReady,
            OcrEvent::TextRecognized("Sample Text".to_string()),
        ]
    };
    let (stepwise, _) = drive(&mode, start_from_path("img.png"), script());
    let (start_state, _) = start_from_path("img.png");
    let (scripted, actions) = run_script(&mode, start_state, script());
    let stepwise_text = match stepwise {
        OcrState::Done(t) => t,
        _ => panic!("stepwise run did not finish"),
    };
    let scripted_text = match scripted {
        OcrState::Done(t) => t,
        _ => panic!("scripted run did not finish"),
    };
    assert_eq!(stepwise_text, scripted_text);
    assert!(matches!(&actions[0], OcrAction::LoadBitmap(p) if p == "C:\\img.png"));
    assert!(matches!(actions[4], OcrAction::Stop));
}

#[test]
fn finished_run_ignores_further_events() {
    let mode = LanguageMode::Auto;
    let start = start_from_path("missing.png");
    let events = vec![
        OcrEvent::PathNotResolved,
        OcrEvent::BitmapReady,
        OcrEvent::TextRecognized("late".to_string()),
    ];
    let (state, actions) = drive(&mode, start, events);
    assert!(matches!(state, OcrState::Failed(OcrError::PathUnavailable)));
    assert!(matches!(actions[2], OcrAction::Stop));
    assert!(matches!(actions[3], OcrAction::Stop));
}
