use pastebin::highlight::{HighlightError, Highlighter};
use pastebin::ident::{id_to_string, parse_id};
use pastebin::paste::{PasteError, PasteStore, Post, Timestamp};
use pastebin::pipeline::{
    after_insert, build_post, fetch, parse_paste_id, render_error, submit, SubmitStep,
    DEFAULT_THEME,
};

fn sample(id: u128) -> Post {
    build_post(
        id,
        7,
        "Rust",
        "fn f() {}\n",
        &String::from("<pre></pre>"),
        Timestamp { secs: 1_600_000_000, nanos: 5 },
    )
}

#[test]
fn build_post_fields() {
    let p = sample(42);
    assert_eq!(p.post_id, 42);
    assert_eq!(p.deletion_token, 7);
    assert_eq!(p.user_id, None);
    assert_eq!(p.expires_date, None);
    assert_eq!(p.created_date, Timestamp { secs: 1_600_000_000, nanos: 5 });
    assert_eq!(p.language, "Rust");
    assert_eq!(p.contents, b"fn f() {}\n".to_vec());
    assert_eq!(p.rendered, "<pre></pre>");
}

#[test]
fn store_is_create_only() {
    let mut store = PasteStore::new();
    assert_eq!(store.get_paste(1).unwrap_err(), PasteError::NotFound);
    assert_eq!(store.insert_paste(sample(1)), Ok(()));
    assert!(store.contains(1));
    assert!(!store.contains(2));
    let mut other = sample(1);
    other.rendered = String::from("changed");
    assert_eq!(store.insert_paste(other), Err(PasteError::Conflict));
    assert_eq!(store.get_paste(1).unwrap().rendered, "<pre></pre>");
    assert_eq!(store.insert_paste(sample(2)), Ok(()));
    assert_eq!(store.get_paste(2).unwrap().post_id, 2);
}

#[test]
fn insert_decisions() {
    assert_eq!(after_insert(0, Ok(())), SubmitStep::Done);
    assert_eq!(after_insert(1, Ok(())), SubmitStep::Done);
    assert_eq!(after_insert(0, Err(PasteError::Conflict)), SubmitStep::Retry);
    assert_eq!(after_insert(1, Err(PasteError::Conflict)), SubmitStep::Fail(PasteError::Conflict));
    assert_eq!(
        after_insert(0, Err(PasteError::Unavailable)),
        SubmitStep::Fail(PasteError::Unavailable)
    );
}

#[test]
fn highlighter_errors_map_over() {
    assert_eq!(render_error(HighlightError::Highlighting), PasteError::Highlighting);
}

#[test]
fn submit_then_fetch_round_trip() {
    let hl = Highlighter::new();
    let mut store = PasteStore::new();
    let content = "fn main() {\n    let x = 1;\n}\n";
    let id = submit(&mut store, &hl, "Rust", content).unwrap();
    let text = id_to_string(id);
    let post = fetch(&store, &text).unwrap();
    let expected = hl.highlighted(content, "Rust", DEFAULT_THEME).unwrap();
    assert_eq!(post.rendered, expected);
    assert_eq!(post.post_id, id);
    assert_eq!(post.contents, content.as_bytes().to_vec());
    assert_eq!(post.language, "Rust");
    assert_eq!(post.user_id, None);
    assert_eq!(post.expires_date, None);
    assert_ne!(post.deletion_token, post.post_id);
    assert!(post.created_date.nanos < 2_000_000_000);
    assert!(post.created_date.secs > 1_500_000_000);
    assert_eq!(post.rendered.matches("class=\"line\"").count(), content.lines().count());
}

#[test]
fn fetch_never_submitted_is_not_found() {
    let hl = Highlighter::new();
    let mut store = PasteStore::new();
    submit(&mut store, &hl, "Plain Text", "x\n").unwrap();
    assert_eq!(
        fetch(&store, "00000000-0000-4000-8000-000000000000").unwrap_err(),
        PasteError::NotFound
    );
}

#[test]
fn fetch_malformed_is_invalid() {
    let store = PasteStore::new();
    assert_eq!(fetch(&store, "abc").unwrap_err(), PasteError::InvalidIdentifier);
    assert_eq!(
        fetch(&store, "zzzzzzzz-0000-4000-8000-000000000000").unwrap_err(),
        PasteError::InvalidIdentifier
    );
    assert_eq!(parse_paste_id("12"), Err(PasteError::InvalidIdentifier));
    assert_eq!(
        parse_paste_id("550e8400-e29b-41d4-a716-446655440000"),
        Ok(0x550e8400_e29b_41d4_a716_446655440000)
    );
}

#[test]
fn plain_text_submission_has_two_anchored_lines() {
    let hl = Highlighter::new();
    let mut store = PasteStore::new();
    let id = submit(&mut store, &hl, "Plain Text", "hello\nworld\n").unwrap();
    let post = fetch(&store, &id_to_string(id)).unwrap();
    let html = &post.rendered;
    assert_eq!(html.matches("class=\"line\"").count(), 2);
    assert!(html.contains("<a id=\"L1\" href=\"#L1\" class=\"line\"></a>"));
    assert!(html.contains("<a id=\"L2\" href=\"#L2\" class=\"line\"></a>"));
    assert!(!html.contains("L3"));
    assert!(!html.contains("<span style=\"background-color"));
}

#[test]
fn unsupported_language_submission_renders_plain() {
    let hl = Highlighter::new();
    let mut store = PasteStore::new();
    let id = submit(&mut store, &hl, "NoSuchLanguage123", "a < b\nc\n").unwrap();
    let text = id_to_string(id);
    assert_eq!(parse_id(&text), Some(id));
    let post = fetch(&store, &text).unwrap();
    assert_eq!(post.language, "NoSuchLanguage123");
    let plain = hl.highlighted("a < b\nc\n", "Plain Text", DEFAULT_THEME).unwrap();
    assert_eq!(post.rendered, plain);
}

#[test]
fn many_submissions_stay_apart() {
    let hl = Highlighter::new();
    let mut store = PasteStore::new();
    let mut ids = Vec::new();
    for i in 0..20 {
        let content = format!("line {}\n", i);
        ids.push((submit(&mut store, &hl, "Plain Text", &content).unwrap(), content));
    }
    for (id, content) in &ids {
        let post = fetch(&store, &id_to_string(*id)).unwrap();
        assert_eq!(post.contents, content.as_bytes().to_vec());
    }
}
