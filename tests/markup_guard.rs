use rss_to_md::classify::{classify, MissingRecord};
use rss_to_md::convert::{convert_html_to_markdown, ConvertError};
use rss_to_md::feed::Entry;
use rss_to_md::markup::is_supported_markup;

fn converts(html: &str) -> bool {
    convert_html_to_markdown(String::from(html)).is_ok()
}

#[test]
fn unterminated_doctype_is_malformed() {
    assert!(!is_supported_markup(b"<!DOCTYPE html"));
    assert_eq!(
        convert_html_to_markdown(String::from("<!DOCTYPE html")),
        Err(ConvertError::MalformedMarkup)
    );
    assert!(converts("<!DOCTYPE html><h1>T</h1>"));
}

#[test]
fn doctype_inside_comment_is_skipped() {
    assert!(is_supported_markup(b"<!-- <!DOCTYPE --><p>x</p>"));
}

#[test]
fn split_character_before_tag_end_is_malformed() {
    assert!(!is_supported_markup("<éé>/".as_bytes()));
    assert_eq!(
        convert_html_to_markdown(String::from("<éé>/")),
        Err(ConvertError::MalformedMarkup)
    );
}

#[test]
fn split_character_without_self_closing_converts() {
    assert_eq!(convert_html_to_markdown(String::from("<p title=é>x</p>")), Ok(String::from("x\n")));
    assert_eq!(convert_html_to_markdown(String::from("<p title=é></p>")), Ok(String::new()));
}

#[test]
fn non_ascii_attributes_convert() {
    assert!(is_supported_markup("<a title=\"Jürgen\">x</a>".as_bytes()));
    assert!(converts("<a title=\"Jürgen\">x</a>"));
    assert_eq!(convert_html_to_markdown(String::from("<p>café</p>")), Ok(String::from("café\n")));
}

#[test]
fn quoted_bracket_extends_tag() {
    assert!(is_supported_markup(b"<a title=\"x>y\">z</a>"));
    assert!(is_supported_markup("<a title=\"x>é\">z</a>".as_bytes()));
    assert!(is_supported_markup("<a title=\"x>\"é>z</a>".as_bytes()));
}

#[test]
fn ordinary_list_start_converts() {
    assert_eq!(
        convert_html_to_markdown(String::from("<ol start=\"2\"><li>x</li></ol>")),
        Ok(String::from("2. x\n"))
    );
    assert_eq!(convert_html_to_markdown(String::from("<ol start=\"2\"></ol>")), Ok(String::new()));
}

#[test]
fn huge_list_start_is_malformed() {
    let without_equals = "<ol start\"18446744073709551615\"><li>a</li></ol>";
    let with_equals = "<ol start=18446744073709551615><li>a</li></ol>";
    assert!(!is_supported_markup(without_equals.as_bytes()));
    assert!(!is_supported_markup(with_equals.as_bytes()));
    assert_eq!(
        convert_html_to_markdown(String::from(without_equals)),
        Err(ConvertError::MalformedMarkup)
    );
    assert!(!is_supported_markup(b"<ol start=1844674407\"3709551615\"><li>a</li></ol>"));
    assert!(!is_supported_markup(b"<ol start=  18446744073709551615><li>a</li></ol>"));
    assert!(is_supported_markup(b"<ol start=\"999999999999999999\"></ol>"));
    assert!(is_supported_markup(b"<p>start=18446744073709551615</p>"));
}

#[test]
fn many_sibling_tags_convert() {
    let siblings = "<b>x</b>".repeat(1000);
    assert!(is_supported_markup(siblings.as_bytes()));
    assert!(converts(&siblings));
}

#[test]
fn nesting_limit() {
    let at_limit = format!("{}x{}", "<div>".repeat(256), "</div>".repeat(256));
    let over_limit = format!("{}x{}", "<div>".repeat(257), "</div>".repeat(257));
    assert!(is_supported_markup(at_limit.as_bytes()));
    assert!(converts(&at_limit));
    assert!(!is_supported_markup(over_limit.as_bytes()));
}

#[test]
fn empty_markup_is_supported() {
    assert!(is_supported_markup(b""));
    assert!(is_supported_markup(b"plain text"));
}

#[test]
fn unsupported_entry_is_routed_to_missing() {
    let entries = vec![
        Entry { title: Some(String::from("ok")), content: Some(String::from("<p>fine</p>")) },
        Entry { title: Some(String::from("doc")), content: Some(String::from("<!DOCTYPE")) },
    ];
    let (converted, missing) = classify(&entries);
    assert_eq!(converted.len(), 1);
    assert_eq!(missing, vec![MissingRecord { title: String::from("doc") }]);
}
