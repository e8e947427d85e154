use pdf_gradient::text::{
    case, lower, smallcaps, upper, Behaviour, Case, Content, EmphNode, ExpectedStrOrContent,
    LinebreakNode, SpaceNode, StrongNode, Toggle, Value, ValueKind,
};

#[test]
fn case_applies_to_strings() {
    assert_eq!(Case::Lower.apply("Hello World"), "hello world");
    assert_eq!(Case::Upper.apply("Hello World"), "HELLO WORLD");
    assert_eq!(Case::Upper.apply("straße"), "STRASSE");
    match lower(Value::Str("ABC".to_string())) {
        Ok(Value::Str(s)) => assert_eq!(s, "abc"),
        other => panic!("unexpected {:?}", other),
    }
    match upper(Value::Str("abc".to_string())) {
        Ok(Value::Str(s)) => assert_eq!(s, "ABC"),
        other => panic!("unexpected {:?}", other),
    }
}

#[test]
fn case_styles_content_and_rejects_others() {
    match case(Case::Upper, Value::Content(Content::plain("x"))) {
        Ok(Value::Content(c)) => {
            assert_eq!(c.case, Some(Case::Upper));
            assert_eq!(c.text, "x");
        }
        other => panic!("unexpected {:?}", other),
    }
    match lower(Value::Int(3)) {
        Err(e) => assert_eq!(e, ExpectedStrOrContent { found: ValueKind::Int }),
        other => panic!("unexpected {:?}", other),
    }
    match upper(Value::Nothing) {
        Err(e) => assert_eq!(e.found, ValueKind::Nothing),
        other => panic!("unexpected {:?}", other),
    }
}

#[test]
fn smallcaps_marks_content() {
    match smallcaps(Content::plain("abc")) {
        Value::Content(c) => {
            assert!(c.smallcaps);
            assert!(!c.bold);
        }
        other => panic!("unexpected {:?}", other),
    }
}

#[test]
fn strong_and_emph_toggle() {
    let s = StrongNode::construct(Content::plain("a"));
    let shown = s.show();
    assert!(shown.bold);
    assert!(!StrongNode::construct(shown).show().bold);
    let e = EmphNode::construct(Content::plain("b"));
    assert!(e.show().italic);
    assert!(matches!(e.field("body"), Some(Value::Content(c)) if c.text == "b"));
    assert!(e.field("other").is_none());
    assert!(matches!(s.field("body"), Some(Value::Content(c)) if c.text == "a"));
    assert!(Toggle.fold(false));
    assert!(!Toggle.fold(true));
}

#[test]
fn spaces_and_breaks() {
    assert_eq!(SpaceNode::construct().behaviour(), Behaviour::Weak(2));
    let b = LinebreakNode::construct(None);
    assert!(!b.justify);
    assert!(LinebreakNode::construct(Some(true)).justify);
    assert_eq!(b.behaviour(), Behaviour::Destructive);
}
