use youdao_dict::is_chinese;

#[test]
fn chinese_query_detected() {
    assert!(is_chinese("你好"));
}

#[test]
fn non_chinese_query_rejected() {
    assert!(!is_chinese("hello"));
}

#[test]
fn empty_query_rejected() {
    assert!(!is_chinese(""));
}

#[test]
fn mixed_text_detected() {
    assert!(is_chinese("abc中def"));
}

#[test]
fn block_boundaries() {
    assert!(is_chinese("\u{4e00}"));
    assert!(is_chinese("\u{9fff}"));
    assert!(!is_chinese("\u{4dff}"));
    assert!(!is_chinese("\u{a000}"));
}

#[test]
fn punctuation_and_kana_rejected() {
    // Neither CJK punctuation nor kana lies in the Unified Ideographs block.
    assert!(!is_chinese("。、"));
    assert!(!is_chinese("ひらがな"));
}
