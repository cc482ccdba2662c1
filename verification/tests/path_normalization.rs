use win_ocr::strip_verbatim_prefix;

#[test]
fn empty_path_stays_empty() {
    assert_eq!(strip_verbatim_prefix(""), "");
}

#[test]
fn plain_path_is_unchanged() {
    assert_eq!(
        strip_verbatim_prefix("C:\\Users\\me\\img.png"),
        "C:\\Users\\me\\img.png"
    );
}

#[test]
fn leading_marker_is_removed() {
    assert_eq!(strip_verbatim_prefix("\\\\?\\C:\\img.png"), "C:\\img.png");
}

#[test]
fn every_marker_is_removed() {
    assert_eq!(strip_verbatim_prefix("a\\\\?\\b\\\\?\\c"), "abc");
}

#[test]
fn marker_alone_leaves_nothing() {
    assert_eq!(strip_verbatim_prefix("\\\\?\\"), "");
}

#[test]
fn unicode_around_marker_is_kept() {
    assert_eq!(
        strip_verbatim_prefix("サンプル\\\\?\\テキスト"),
        "サンプルテキスト"
    );
}

#[test]
fn removal_scans_left_to_right_without_overlap() {
    // Removing the inner marker joins `\\` and `?\` into a fresh marker,
    // which a single left-to-right pass does not remove again.
    let input = "\\\\\\\\?\\?\\";
    assert_eq!(strip_verbatim_prefix(input), "\\\\?\\");
}

#[test]
fn matches_replace_all_semantics() {
    let samples = [
        "",
        "\\",
        "\\\\?\\",
        "\\\\?\\C:\\a\\b.png",
        "\\\\\\?\\",
        "\\\\??\\",
        "x\\\\?\\y",
        "\\\\?\\\\\\?\\",
        "\\\\\\\\?\\?\\",
        "no markers here",
    ];
    for s in samples {
        assert_eq!(strip_verbatim_prefix(s), s.replace("\\\\?\\", ""));
    }
}
