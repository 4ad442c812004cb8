use input_monitor::text::{
    clamp_range_text, deep_text, needs_descendant, needs_range, retrieve_known, shallow_text, Stage, TextAnswer,
    TextQuery, TextRetrieval, TextStep, MAX_TEXT_LEN,
};

#[test]
fn range_text_beyond_limit_is_truncated() {
    let long: String = std::iter::repeat('x').take(5000).collect();
    let r = clamp_range_text(long);
    assert_eq!(r.chars().count(), 4096);
    assert_eq!(MAX_TEXT_LEN, 4096);
}

#[test]
fn truncation_keeps_the_first_characters() {
    let src: String = (0..5000).map(|i| if i % 3 == 0 { '中' } else { char::from(b'a' + (i % 26) as u8) }).collect();
    let r = clamp_range_text(src.clone());
    let expected: String = src.chars().take(4096).collect();
    assert_eq!(r, expected);
}

#[test]
fn short_range_text_is_kept() {
    assert_eq!(clamp_range_text("hello".to_string()), "hello");
    let exact: String = std::iter::repeat('y').take(4096).collect();
    assert_eq!(clamp_range_text(exact.clone()), exact);
}

#[test]
fn shallow_prefers_non_empty_value() {
    assert_eq!(shallow_text(Some("val".to_string()), Some("range".to_string())), "val");
}

#[test]
fn shallow_falls_back_to_range_text() {
    assert_eq!(shallow_text(Some(String::new()), Some("range".to_string())), "range");
    assert_eq!(shallow_text(None, Some("range".to_string())), "range");
    let long: String = std::iter::repeat('z').take(4100).collect();
    assert_eq!(shallow_text(None, Some(long)).chars().count(), 4096);
}

#[test]
fn shallow_without_capabilities_is_empty() {
    assert_eq!(shallow_text(None, None), "");
    assert_eq!(shallow_text(Some(String::new()), None), "");
}

#[test]
fn deep_text_uses_descendant_value() {
    let own = shallow_text(None, None);
    assert!(needs_descendant(&own));
    let d = shallow_text(Some("hello".to_string()), None);
    assert_eq!(deep_text(own, Some(d)), "hello");
}

#[test]
fn deep_text_keeps_direct_value() {
    let own = shallow_text(Some("direct".to_string()), None);
    assert!(!needs_descendant(&own));
    assert_eq!(deep_text(own, Some("other".to_string())), "direct");
}

#[test]
fn deep_text_without_descendant_is_empty() {
    assert_eq!(deep_text(String::new(), None), "");
}

#[test]
fn range_needed_only_without_value() {
    assert!(needs_range(&None));
    assert!(needs_range(&Some(String::new())));
    assert!(!needs_range(&Some("v".to_string())));
}

#[test]
fn retrieval_with_direct_value_does_not_descend() {
    let (mut m, q) = TextRetrieval::start();
    assert_eq!(q, TextQuery::Value);
    match m.advance(TextAnswer::Value(Some("direct".to_string()))) {
        TextStep::Done(t) => assert_eq!(t, "direct"),
        TextStep::Ask(_) => panic!("no further question expected"),
    }
    assert_eq!(m.current_stage(), Stage::Finished);
}

#[test]
fn retrieval_falls_back_to_descendant_value() {
    let (mut m, _) = TextRetrieval::start();
    assert!(matches!(m.advance(TextAnswer::Value(None)), TextStep::Ask(TextQuery::Range)));
    assert!(matches!(m.advance(TextAnswer::Range(None)), TextStep::Ask(TextQuery::FindDescendant)));
    assert!(matches!(m.advance(TextAnswer::Descendant(true)), TextStep::Ask(TextQuery::Value)));
    match m.advance(TextAnswer::Value(Some("hello".to_string()))) {
        TextStep::Done(t) => assert_eq!(t, "hello"),
        TextStep::Ask(_) => panic!("no further question expected"),
    }
}

#[test]
fn retrieval_uses_range_text_of_element() {
    let (mut m, _) = TextRetrieval::start();
    assert!(matches!(m.advance(TextAnswer::Value(Some(String::new()))), TextStep::Ask(TextQuery::Range)));
    assert_eq!(m.current_stage(), Stage::ElementRange);
    match m.advance(TextAnswer::Range(Some("doc".to_string()))) {
        TextStep::Done(t) => assert_eq!(t, "doc"),
        TextStep::Ask(_) => panic!("no further question expected"),
    }
}

#[test]
fn retrieval_without_descendant_is_empty() {
    let (mut m, _) = TextRetrieval::start();
    m.advance(TextAnswer::Value(None));
    m.advance(TextAnswer::Range(Some(String::new())));
    match m.advance(TextAnswer::Descendant(false)) {
        TextStep::Done(t) => assert_eq!(t, ""),
        TextStep::Ask(_) => panic!("no further question expected"),
    }
}

#[test]
fn known_answers_descendant_hello() {
    assert_eq!(retrieve_known(None, None, Some((Some("hello".to_string()), None))), "hello");
    assert_eq!(retrieve_known(Some(String::new()), Some(String::new()), Some((Some("hello".to_string()), None))), "hello");
}

#[test]
fn known_answers_direct_value_wins() {
    assert_eq!(retrieve_known(Some("mine".to_string()), None, Some((Some("child".to_string()), None))), "mine");
    assert_eq!(retrieve_known(None, Some("range".to_string()), Some((Some("child".to_string()), None))), "range");
}

#[test]
fn known_answers_descendant_range_is_truncated() {
    let long: String = std::iter::repeat('q').take(4500).collect();
    let r = retrieve_known(None, None, Some((None, Some(long))));
    assert_eq!(r.chars().count(), 4096);
    assert_eq!(retrieve_known(None, None, None), "");
}
