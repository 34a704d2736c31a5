use crowdchoir::server::{guess_mime_type, mime_type_for_lowercase, render_index_template};
use crowdchoir::text::{replace_all, str_contains, str_ends_with, str_equal};

#[test]
fn mime_types_by_extension() {
    assert_eq!(guess_mime_type("index.html"), "text/html");
    assert_eq!(guess_mime_type("INDEX.HTML"), "text/html");
    assert_eq!(guess_mime_type("a/b/main.MJS"), "application/javascript");
    assert_eq!(guess_mime_type("photo.jpeg"), "image/jpeg");
    assert_eq!(guess_mime_type("font.woff2"), "font/woff2");
    assert_eq!(guess_mime_type("font.woff"), "font/woff");
    assert_eq!(guess_mime_type("samples/C3.mp3"), "audio/mpeg");
    assert_eq!(guess_mime_type("data/chords.json"), "application/json");
    assert_eq!(guess_mime_type("README"), "application/octet-stream");
    assert_eq!(mime_type_for_lowercase("STYLE.CSS"), "application/octet-stream");
    assert_eq!(mime_type_for_lowercase("style.css"), "text/css");
}

#[test]
fn index_template_is_rendered() {
    let template = "<script>window.MUSIC_DATA = {{ music_data | tojson }};</script>\
<script src=\"{{ url_for('static', filename='main.js') }}\"></script>";
    let html = render_index_template(template, "{\"a\":1}");
    assert_eq!(
        html,
        "<script>window.MUSIC_DATA = {\"a\":1};</script><script src=\"/static/main.js\"></script>"
    );
}

#[test]
fn text_helpers() {
    assert!(str_equal("abc", "abc"));
    assert!(!str_equal("abc", "abd"));
    assert!(str_contains("Driver IAC Bus 1", "IAC"));
    assert!(str_contains("x", ""));
    assert!(!str_contains("IA", "IAC"));
    assert!(str_ends_with("a.html", ".html"));
    assert!(!str_ends_with("html", ".html"));
    assert_eq!(replace_all("aaa", "aa", "b"), "ba");
    assert_eq!(replace_all("héllo wörld", "ö", "o"), "héllo world");
}
