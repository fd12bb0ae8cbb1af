use pastebin::highlight::Highlighter;
use pastebin::pipeline::DEFAULT_THEME;
use pastebin::text::{digit_char, push_decimal, push_hex2};

fn anchor(n: usize) -> String {
    format!("<a id=\"L{}\" href=\"#L{}\" class=\"line\"></a>", n, n)
}

#[test]
fn decimal_and_hex_text() {
    let mut s = String::from("x");
    push_decimal(&mut s, 0);
    assert_eq!(s, "x0");
    push_decimal(&mut s, 1907);
    assert_eq!(s, "x01907");
    let mut s = String::new();
    push_decimal(&mut s, usize::MAX);
    assert_eq!(s, usize::MAX.to_string());
    let mut h = String::new();
    push_hex2(&mut h, 0x0f);
    push_hex2(&mut h, 0xa0);
    push_hex2(&mut h, 255);
    assert_eq!(h, "0fa0ff");
    assert_eq!(digit_char(11), 'b');
}

#[test]
fn catalog_lists_plain_text_and_default_theme() {
    let hl = Highlighter::new();
    let names = hl.get_syntaxes();
    assert!(names.len() > 1);
    assert!(names.iter().any(|n| n == "Plain Text"));
    assert!(names.iter().any(|n| n == "Rust"));
    assert!(hl.has_syntax("Rust"));
    assert!(!hl.has_syntax("NoSuchLanguage123"));
    assert!(hl.has_theme(DEFAULT_THEME));
    assert!(!hl.has_theme("NoSuchTheme"));
}

#[test]
fn plain_text_two_lines() {
    let hl = Highlighter::new();
    let out = hl.highlighted("hello\nworld\n", "Plain Text", DEFAULT_THEME).unwrap();
    assert!(out.starts_with("<pre class=\"contents\" style=\"background-color:#2b303b\">"));
    assert!(out.ends_with("</pre>"));
    assert_eq!(out.matches("class=\"line\"").count(), 2);
    assert!(out.contains(&anchor(1)));
    assert!(out.contains(&anchor(2)));
    assert!(!out.contains(&anchor(3)));
    assert!(out.find(&anchor(1)).unwrap() < out.find("hello").unwrap());
    assert!(out.find("hello").unwrap() < out.find(&anchor(2)).unwrap());
    assert!(out.find(&anchor(2)).unwrap() < out.find("world").unwrap());
    assert!(!out.contains("<span style=\"background-color"));
}

#[test]
fn last_line_without_newline_counts() {
    let hl = Highlighter::new();
    let out = hl.highlighted("a\nb", "Plain Text", DEFAULT_THEME).unwrap();
    assert_eq!(out.matches("class=\"line\"").count(), 2);
    let out = hl.highlighted("\n\n\n", "Plain Text", DEFAULT_THEME).unwrap();
    assert_eq!(out.matches("class=\"line\"").count(), 3);
}

#[test]
fn empty_text_is_an_empty_pre() {
    let hl = Highlighter::new();
    let out = hl.highlighted("", "Rust", DEFAULT_THEME).unwrap();
    assert_eq!(out, "<pre class=\"contents\" style=\"background-color:#2b303b\"></pre>");
}

#[test]
fn unknown_language_renders_as_plain_text() {
    let hl = Highlighter::new();
    let text = "fn main() {\n    println!(\"hi\");\n}\n";
    let a = hl.highlighted(text, "NoSuchLanguage123", DEFAULT_THEME).unwrap();
    let b = hl.highlighted(text, "Plain Text", DEFAULT_THEME).unwrap();
    assert_eq!(a, b);
    let r = hl.highlighted(text, "Rust", DEFAULT_THEME).unwrap();
    assert_ne!(r, b);
}

#[test]
fn rendering_is_deterministic() {
    let hl = Highlighter::new();
    let text = "let x = 1;\n// note\nx + 2\n";
    let a = hl.highlighted(text, "Rust", DEFAULT_THEME).unwrap();
    let b = hl.highlighted(text, "Rust", DEFAULT_THEME).unwrap();
    assert_eq!(a, b);
    let other = Highlighter::new();
    assert_eq!(other.highlighted(text, "Rust", DEFAULT_THEME).unwrap(), a);
}

#[test]
fn light_theme_background() {
    let hl = Highlighter::new();
    let out = hl.highlighted("x\n", "Plain Text", "InspiredGitHub").unwrap();
    assert!(out.starts_with("<pre class=\"contents\" style=\"background-color:#ffffff\">"));
}

#[test]
fn markup_in_text_is_escaped() {
    let hl = Highlighter::new();
    let out = hl.highlighted("<b>&</b>\n", "Plain Text", DEFAULT_THEME).unwrap();
    assert!(!out.contains("<b>"));
    assert!(out.contains("&lt;b&gt;"));
}
