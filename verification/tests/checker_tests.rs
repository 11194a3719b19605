use icie::checker::{bytes_equal, tokenize, ws_tokens_equal};

#[test]
fn free_whitespace_judges_equal_despite_spacing() {
    assert!(ws_tokens_equal(b"1 2\n3", b"1  2\n\n3\n"));
}

#[test]
fn free_whitespace_rejects_different_tokens() {
    assert!(!ws_tokens_equal(b"1 2", b"1 3"));
}

#[test]
fn free_whitespace_ignores_leading_and_trailing_whitespace() {
    assert!(ws_tokens_equal(b"  hello world  ", b"hello\nworld"));
    assert!(ws_tokens_equal(b"", b" \t\r\n"));
}

#[test]
fn free_whitespace_respects_token_boundaries() {
    assert!(!ws_tokens_equal(b"ab c", b"a bc"));
    assert!(!ws_tokens_equal(b"1 2 3", b"1 2"));
}

#[test]
fn tokenize_splits_on_whitespace_runs() {
    let toks = tokenize(b" a\tbc\r\nd ");
    assert_eq!(toks, vec![b"a".to_vec(), b"bc".to_vec(), b"d".to_vec()]);
}

#[test]
fn tokenize_of_empty_is_empty() {
    let toks = tokenize(b"");
    assert!(toks.is_empty());
}

#[test]
fn bytes_equal_compares_exactly() {
    assert!(bytes_equal(b"abc", b"abc"));
    assert!(!bytes_equal(b"abc", b"abd"));
    assert!(!bytes_equal(b"abc", b"ab"));
}
