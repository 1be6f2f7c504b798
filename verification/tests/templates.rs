use media_recommendation_engine::templating::{split_template, Template};

fn chars(s: &str) -> Vec<char> {
    s.chars().collect()
}

#[test]
fn template_splits_into_text_and_slots() {
    let parts = split_template(&chars("Hello {{name}}, you have {{count}} messages"));
    assert_eq!(
        parts,
        vec![
            Some("Hello ".to_string()),
            None,
            Some(", you have ".to_string()),
            None,
            Some(" messages".to_string()),
        ]
    );
}

#[test]
fn unclosed_slot_stays_text() {
    let parts = split_template(&chars("a {{b"));
    assert_eq!(parts, vec![Some("a ".to_string()), Some("{{b".to_string())]);
    assert_eq!(split_template(&chars("")), Vec::<Option<String>>::new());
}

#[test]
fn render_fills_slots_in_insertion_order() {
    let mut t = Template::parse("Hello {{name}}, you have {{count}} messages", "greeting.html".to_string());
    t.insert(&[("World".to_string(), 0), ("5".to_string(), 1)]);
    t.insert(&[("!".to_string(), 0)]);
    assert_eq!(t.render(), "Hello World!, you have 5 messages");
    assert_eq!(t.render(), "Hello , you have  messages");
}

#[test]
fn render_only_with_ignores_held_inserts() {
    let mut t = Template::parse("<{{x}}>", "x.html".to_string());
    t.insert(&[("held".to_string(), 0)]);
    assert_eq!(t.render_only_with(&[("given".to_string(), 0)]), "<given>");
    assert_eq!(t.render(), "<held>");
}

#[test]
fn text_without_slots_renders_unchanged() {
    let t = Template::parse("plain } text", "p.html".to_string());
    assert_eq!(t.render_only_with(&[("ignored".to_string(), 0), ("also".to_string(), 3)]), "plain } text");
}

#[test]
fn inserts_for_missing_slots_are_ignored() {
    let t = Template::parse("[{{a}}]", "a.html".to_string());
    assert_eq!(t.render_only_with(&[("x".to_string(), 0), ("y".to_string(), 1), ("z".to_string(), -1)]), "[x]");
}

#[test]
fn insert_content_accepts_str_and_string() {
    let mut t = Template::parse("{{a}}-{{b}}", "ab.html".to_string());
    t.insert_content("one", 0);
    t.insert_content(String::from("two"), 1);
    assert_eq!(t.render(), "one-two");
}
