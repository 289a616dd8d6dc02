use chat_narrator::segment::segment;

#[test]
fn segments_reply_into_two_fragments() {
    let frags = segment("안녕! 반가워요.");
    assert_eq!(frags, vec!["안녕".to_string(), " 반가워요".to_string()]);
}

#[test]
fn segment_empty_input_is_total() {
    let frags = segment("");
    assert_eq!(frags, Vec::<String>::new());
}

#[test]
fn segment_all_punctuation_strips_everything() {
    let frags = segment("@#$%^&*()");
    assert_eq!(frags, Vec::<String>::new());
}

#[test]
fn segment_all_delimiters_yields_empty_fragments() {
    let frags = segment(".,!?");
    assert_eq!(frags, vec!["".to_string(), "".to_string(), "".to_string(), "".to_string()]);
}

#[test]
fn segment_no_punctuation_is_one_fragment() {
    let frags = segment("hello world");
    assert_eq!(frags, vec!["hello world".to_string()]);
}

#[test]
fn segment_is_deterministic() {
    assert_eq!(segment("안녕! 반가워요."), segment("안녕! 반가워요."));
    assert_eq!(segment(""), segment(""));
    assert_eq!(segment("a, b! c?"), segment("a, b! c?"));
}

#[test]
fn segment_strips_non_speech_characters() {
    assert_eq!(segment("a@b"), vec!["ab".to_string()]);
    assert_eq!(segment("*안녕*"), vec!["안녕".to_string()]);
    assert_eq!(segment("[x] y"), vec!["x y".to_string()]);
}

#[test]
fn segment_keeps_hyphen_and_whitespace() {
    assert_eq!(segment("well-known phrase"), vec!["well-known phrase".to_string()]);
    assert_eq!(segment("a\tb"), vec!["a\tb".to_string()]);
}

#[test]
fn segment_discards_boundaries_and_keeps_adjacent_empties() {
    assert_eq!(segment("a,b"), vec!["a".to_string(), "b".to_string()]);
    assert_eq!(segment("a,,b"), vec!["a".to_string(), "".to_string(), "b".to_string()]);
}

#[test]
fn segment_trailing_delimiter_closes_last_fragment() {
    assert_eq!(segment("abc."), vec!["abc".to_string()]);
}
