use anki_tui::html::{html_to_text, text_or_html};

#[test]
fn html_is_rendered_as_text() {
    let html = "<p>Hello <i>there</i></p>";
    let text = html_to_text(html, 80);
    assert_ne!(text, html);
    assert!(text.contains("Hello"));
    assert!(!text.contains("<p>"));
}

#[test]
fn narrow_widths_still_render() {
    let text = html_to_text("<p>word</p>", 0);
    assert!(text.contains("word"));
}

#[test]
fn failed_rendering_falls_back_to_html() {
    assert_eq!(text_or_html(None, "<b>x</b>"), "<b>x</b>");
    assert_eq!(text_or_html(Some("x".into()), "<b>x</b>"), "x");
}
