use rss_to_md::classify::{classify, classify_entry, route_entry, ConvertedDocument, MissingRecord, Routed};
use rss_to_md::convert::{convert_html_to_markdown, ConvertError};
use rss_to_md::feed::{feed_from_response, Entry, Feed, FetchError};
use rss_to_md::persist::{
    count_failures, document_file, normalize_dir, plan_writes, record_file, sanitize_title,
};
use rss_to_md::run::{parse_arguments, plan_feed, plan_from_response, ArgumentError, Config, RunError};

const RSS_CONTENT: &str = r#"<?xml version="1.0" encoding="UTF-8"?>
	<rss version="2.0">
		<channel>
			<title>Test Feed</title>
			<description>A test RSS feed</description>
			<item>
				<title>Test Item</title>
				<description>Test description</description>
			</item>
		</channel>
	</rss>"#;

const TWO_ITEMS: &str = r#"<?xml version="1.0" encoding="UTF-8"?>
<rss version="2.0" xmlns:content="http://purl.org/rss/1.0/modules/content/">
  <channel>
    <title>Two</title>
    <item>
      <title>With content</title>
      <content:encoded><![CDATA[<h1>Hi</h1>]]></content:encoded>
    </item>
    <item>
      <title>Without content</title>
    </item>
  </channel>
</rss>"#;

fn entry(title: Option<&str>, content: Option<&str>) -> Entry {
    Entry { title: title.map(String::from), content: content.map(String::from) }
}

fn config() -> Config {
    parse_arguments(&vec![String::from("http://example.com/feed.xml"), String::from("out")]).unwrap()
}

#[test]
fn convert_html() {
    let html = String::from("<h1>Hello World!</h1>");

    assert_eq!(Ok(String::from("# Hello World!\n")), convert_html_to_markdown(html));
}

#[test]
fn test_fetch_rss_success() {
    let result = feed_from_response(200, RSS_CONTENT.as_bytes());
    assert!(result.is_ok());
    let channel = result.unwrap();
    assert_eq!(channel.title, "Test Feed");
    assert_eq!(channel.entries.len(), 1);
    assert_eq!(channel.entries[0].title, Some(String::from("Test Item")));
    assert_eq!(channel.entries[0].content, None);
}

#[test]
fn conversion_is_repeatable() {
    let html = "<h2>Twice</h2><p>same <strong>text</strong></p>";
    let a = convert_html_to_markdown(String::from(html));
    let b = convert_html_to_markdown(String::from(html));
    assert!(a.is_ok());
    assert_eq!(a, b);
}

#[test]
fn malformed_markup_is_an_error() {
    let r = convert_html_to_markdown(String::from("<br/><!-- unfinished"));
    assert_eq!(r, Err(ConvertError::MalformedMarkup));
}

#[test]
fn route_nonempty_document() {
    let r = route_entry(String::from("t"), Some(Ok(String::from("doc"))));
    assert_eq!(
        r,
        Routed::Converted(ConvertedDocument { title: String::from("t"), document: String::from("doc") })
    );
}

#[test]
fn route_empty_document_is_missing() {
    let empty = route_entry(String::from("t"), Some(Ok(String::new())));
    let absent = route_entry(String::from("t"), None);
    assert_eq!(empty, Routed::Missing(MissingRecord { title: String::from("t") }));
    assert_eq!(empty, absent);
}

#[test]
fn route_failed_conversion_is_missing() {
    let r = route_entry(String::from("t"), Some(Err(ConvertError::MalformedMarkup)));
    assert_eq!(r, Routed::Missing(MissingRecord { title: String::from("t") }));
}

#[test]
fn classify_entry_without_title() {
    let r = classify_entry(&entry(None, Some("<h1>A</h1>")));
    assert_eq!(
        r,
        Routed::Converted(ConvertedDocument { title: String::new(), document: String::from("# A\n") })
    );
}

#[test]
fn classify_keeps_order_and_routes_each_entry_once() {
    let entries = vec![
        entry(Some("one"), Some("<h1>One</h1>")),
        entry(Some("two"), None),
        entry(Some("three"), Some("<h2>Three</h2>")),
        entry(Some("four"), Some("")),
    ];
    let (converted, missing) = classify(&entries);
    assert_eq!(converted.len() + missing.len(), entries.len());
    assert_eq!(
        converted,
        vec![
            ConvertedDocument { title: String::from("one"), document: String::from("# One\n") },
            ConvertedDocument { title: String::from("three"), document: String::from("## Three\n") },
        ]
    );
    assert_eq!(
        missing,
        vec![MissingRecord { title: String::from("two") }, MissingRecord { title: String::from("four") }]
    );
}

#[test]
fn classify_isolates_malformed_entry() {
    let entries = vec![
        entry(Some("a"), Some("<h1>A</h1>")),
        entry(Some("bad"), Some("<br/><article")),
        entry(Some("c"), Some("<h1>C</h1>")),
    ];
    let (converted, missing) = classify(&entries);
    assert_eq!(converted.len(), 2);
    assert_eq!(converted[0].title, "a");
    assert_eq!(converted[1].title, "c");
    assert_eq!(converted[1].document, "# C\n");
    assert_eq!(missing, vec![MissingRecord { title: String::from("bad") }]);
}

#[test]
fn classify_empty_feed() {
    let (converted, missing) = classify(&Vec::new());
    assert!(converted.is_empty());
    assert!(missing.is_empty());
}

#[test]
fn fetch_not_found_is_fatal() {
    let r = feed_from_response(404, RSS_CONTENT.as_bytes());
    assert_eq!(r, Err(FetchError::HttpStatus(404)));
    let planned = plan_from_response(404, RSS_CONTENT.as_bytes(), &config());
    assert_eq!(planned, Err(RunError::Fetch(FetchError::HttpStatus(404))));
    assert_eq!(planned.unwrap_err().exit_code(), 2);
}

#[test]
fn fetch_status_bounds() {
    assert_eq!(feed_from_response(199, RSS_CONTENT.as_bytes()), Err(FetchError::HttpStatus(199)));
    assert_eq!(feed_from_response(300, RSS_CONTENT.as_bytes()), Err(FetchError::HttpStatus(300)));
    assert!(feed_from_response(299, RSS_CONTENT.as_bytes()).is_ok());
}

#[test]
fn fetch_body_that_is_no_feed() {
    let r = feed_from_response(200, b"this is not xml");
    assert!(matches!(r, Err(FetchError::ParseFailure(_))));
}

#[test]
fn feed_with_one_missing_and_one_converted() {
    let planned = plan_from_response(200, TWO_ITEMS.as_bytes(), &config()).unwrap();
    assert_eq!(planned.len(), 2);
    assert_eq!(planned[0].path, "out/With content.md");
    assert_eq!(planned[0].contents, "# Hi\n");
    assert_eq!(planned[1].path, "out/errors/Without content.txt");
    assert_eq!(planned[1].contents, "Without content");
}

#[test]
fn plan_feed_writes_documents_then_records() {
    let feed = Feed {
        title: String::from("F"),
        entries: vec![entry(Some("x"), None), entry(Some("y"), Some("<p>why</p>"))],
    };
    let planned = plan_feed(&feed, &config());
    assert_eq!(planned.len(), 2);
    assert_eq!(planned[0].path, "out/y.md");
    assert_eq!(planned[1].path, "out/errors/x.txt");
    assert_eq!(planned[1].contents, "x");
}

#[test]
fn plan_writes_paths() {
    let converted = vec![ConvertedDocument { title: String::from("a/b"), document: String::from("d") }];
    let missing = vec![MissingRecord { title: String::from("m") }];
    let planned = plan_writes(&converted, &missing, "docs/", "err");
    assert_eq!(planned[0].path, "docs/a_b.md");
    assert_eq!(planned[0].contents, "d");
    assert_eq!(planned[1].path, "err/m.txt");
    assert_eq!(planned[1].contents, "m");
}

#[test]
fn sanitize_replaces_separators_and_controls() {
    assert_eq!(sanitize_title("a/b\\c\nd\u{7f}é"), "a_b_c_d_é");
    assert_eq!(sanitize_title(""), "");
}

#[test]
fn normalize_dir_adds_separator_once() {
    assert_eq!(normalize_dir("out"), "out/");
    assert_eq!(normalize_dir("out/"), "out/");
    assert_eq!(normalize_dir(""), "");
}

#[test]
fn file_names() {
    assert_eq!(document_file("dir", "Post"), "dir/Post.md");
    assert_eq!(record_file("dir/", "../x"), "dir/.._x.txt");
}

#[test]
fn arguments() {
    assert_eq!(parse_arguments(&vec![]), Err(ArgumentError::MissingFeedUrl));
    assert_eq!(parse_arguments(&vec![String::from("u")]), Err(ArgumentError::MissingOutputDir));
    assert_eq!(
        parse_arguments(&vec![String::from("u"), String::from("o"), String::from("x")]),
        Err(ArgumentError::UnexpectedArgument)
    );
    let c = parse_arguments(&vec![String::from("u"), String::from("o")]).unwrap();
    assert_eq!(c.feed_url, "u");
    assert_eq!(c.output_dir, "o/");
    assert_eq!(c.error_dir, "o/errors/");
    assert_eq!(RunError::Arguments(ArgumentError::MissingFeedUrl).exit_code(), 1);
}

#[test]
fn failures_are_counted() {
    assert_eq!(count_failures(&vec![true, false, true, false, false]), 3);
    assert_eq!(count_failures(&vec![]), 0);
}

#[test]
fn parse_failure_carries_the_parser_message() {
    match feed_from_response(200, b"this is not xml") {
        Err(FetchError::ParseFailure(m)) => assert!(!m.is_empty()),
        other => panic!("unexpected result: {:?}", other),
    }
}

fn nested_feed(levels: usize) -> String {
    format!(
        "<rss version=\"2.0\" xmlns:x=\"urn:x\"><channel><title>Deep</title><item><title>i</title>{}{}</item></channel></rss>",
        "<x:a>".repeat(levels),
        "</x:a>".repeat(levels)
    )
}

#[test]
fn deeply_nested_feed_is_refused() {
    let body = nested_feed(300);
    assert_eq!(
        feed_from_response(200, body.as_bytes()),
        Err(FetchError::ParseFailure(String::from("element nesting too deep")))
    );
}

#[test]
fn nested_feed_within_limit_parses() {
    let body = nested_feed(250);
    let feed = feed_from_response(200, body.as_bytes()).unwrap();
    assert_eq!(feed.title, "Deep");
    assert_eq!(feed.entries.len(), 1);
    assert_eq!(feed.entries[0].title, Some(String::from("i")));
}

#[test]
fn feed_with_comment_cdata_and_doctype() {
    let body = "<?xml version=\"1.0\"?><!DOCTYPE rss SYSTEM \"a>b\"><rss version=\"2.0\"><!-- </channel></rss> --><channel><title>T</title><item><title><![CDATA[</item></channel>]]></title></item></channel></rss>";
    let feed = feed_from_response(200, body.as_bytes()).unwrap();
    assert_eq!(feed.title, "T");
    assert_eq!(feed.entries[0].title, Some(String::from("</item></channel>")));
}
