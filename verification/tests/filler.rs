use speakin::filler::clean_pure_fillers;

#[test]
fn removes_pure_filler_segments() {
    assert_eq!(clean_pure_fillers("嗯，今天天气不错"), "今天天气不错");
    assert_eq!(clean_pure_fillers("呃呃呃，你好"), "你好");
    assert_eq!(clean_pure_fillers("嗯嗯 好的"), "好的");
}

#[test]
fn preserves_normal_text_with_filler_chars() {
    // "嗯" is part of a larger word — should NOT be removed
    assert_eq!(clean_pure_fillers("嗯哼，好的"), "嗯哼，好的");
}

#[test]
fn preserves_connectors() {
    assert_eq!(clean_pure_fillers("然后，我们去吃饭"), "然后，我们去吃饭");
    assert_eq!(clean_pure_fillers("但是这个不行"), "但是这个不行");
}

#[test]
fn handles_empty_and_all_filler() {
    assert_eq!(clean_pure_fillers(""), "");
    assert_eq!(clean_pure_fillers("嗯"), "");
    assert_eq!(clean_pure_fillers("嗯嗯嗯"), "");
}

#[test]
fn handles_mixed_content() {
    assert_eq!(clean_pure_fillers("嗯，今天，呃，天气不错，嗯"), "今天，天气不错");
}

#[test]
fn drops_trailing_delimiters_and_whitespace() {
    assert_eq!(clean_pure_fillers("好的。。 "), "好的");
    assert_eq!(clean_pure_fillers("  好的，就是说呃，行"), "好的，行");
}

#[test]
fn keeps_second_delimiter_after_filler() {
    // Only the delimiter right after a filler segment is dropped.
    assert_eq!(clean_pure_fillers("你好，嗯，，再见"), "你好，，再见");
}

#[test]
fn only_whole_filler_segments_are_dropped() {
    assert_eq!(
        clean_pure_fillers("嗯，好的。呃呃 我们开始，嗯哼"),
        "好的。我们开始，嗯哼"
    );
}
