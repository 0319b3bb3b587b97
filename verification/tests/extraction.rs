use ghostbrowse::browse::{BrowseState, Mode};
use ghostbrowse::query::{query_from_args, search_url};
use ghostbrowse::record::{extract_records, make_record, RawFields};
use ghostbrowse::scrape::extract;
use ghostbrowse::text::{has_http_prefix, normalize_display_url, sanitize_display, truncate_string};

fn fields(title: &str, url: &str) -> RawFields {
    RawFields {
        title: Some(title.to_string()),
        url: Some(url.to_string()),
        display_url: None,
        description: None,
    }
}

fn container(title: &str, href: &str, display: &str, desc: &str) -> String {
    format!(
        "<div class=\"snippet\"><a class=\"heading-serpresult\" href=\"{href}\">\
         <div class=\"title\">{title}</div></a>\
         <div class=\"snippet-url\">{display}</div>\
         <div class=\"snippet-description\">{desc}</div></div>"
    )
}

#[test]
fn sanitize_strips_control_characters() {
    assert_eq!(sanitize_display("Foo\nBar  "), "FooBar");
}

#[test]
fn sanitize_keeps_inner_spaces() {
    assert_eq!(sanitize_display("  a b\tc "), "a bc");
}

#[test]
fn sanitize_empty_and_blank() {
    assert_eq!(sanitize_display(""), "");
    assert_eq!(sanitize_display(" \n\t "), "");
}

#[test]
fn truncate_keeps_short_strings() {
    assert_eq!(truncate_string("hello", 10), "hello");
    assert_eq!(truncate_string("hello", 5), "hello");
}

#[test]
fn truncate_appends_ellipsis() {
    assert_eq!(truncate_string("hello world", 5), "hello...");
}

#[test]
fn display_url_takes_first_token() {
    assert_eq!(
        normalize_display_url("example.com \u{203a} docs"),
        "example.com"
    );
    assert_eq!(
        normalize_display_url("example.com\u{203a}docs more"),
        "example.com/docs"
    );
    assert_eq!(normalize_display_url("   "), "");
}

#[test]
fn http_prefix_guard() {
    assert!(has_http_prefix("https://x"));
    assert!(has_http_prefix("http"));
    assert!(!has_http_prefix("/relative"));
    assert!(!has_http_prefix("htt"));
}

#[test]
fn record_discarded_without_title() {
    let f = RawFields {
        title: Some("\n \n".to_string()),
        url: Some("https://example.com".to_string()),
        display_url: None,
        description: None,
    };
    assert!(make_record(&f).is_none());
}

#[test]
fn record_discarded_without_url() {
    let f = RawFields {
        title: Some("Hi".to_string()),
        url: None,
        display_url: None,
        description: None,
    };
    assert!(make_record(&f).is_none());
}

#[test]
fn record_built_and_sanitized() {
    let f = RawFields {
        title: Some(" A\u{7f}B ".to_string()),
        url: Some("https://x".to_string()),
        display_url: Some("a.com \u{203a} b".to_string()),
        description: Some(" d\ne ".to_string()),
    };
    let r = make_record(&f).unwrap();
    assert_eq!(r.title, "AB");
    assert_eq!(r.url, "https://x");
    assert_eq!(r.display_url, "a.com");
    assert_eq!(r.description, "de");
}

#[test]
fn extraction_of_nothing_is_empty() {
    let raw: Vec<RawFields> = Vec::new();
    assert!(extract_records(&raw).is_empty());
}

#[test]
fn extraction_caps_at_ten() {
    let mut raw = Vec::new();
    for i in 0..12 {
        raw.push(fields(&format!("title {i}"), &format!("https://e.com/{i}")));
    }
    let rs = extract_records(&raw);
    assert_eq!(rs.len(), 10);
    for i in 0..10 {
        assert_eq!(rs[i].title, format!("title {i}"));
        assert_eq!(rs[i].url, format!("https://e.com/{i}"));
    }
}

#[test]
fn extraction_skips_malformed_keeps_order() {
    let raw = vec![
        fields("one", "https://a"),
        RawFields {
            title: None,
            url: Some("https://b".to_string()),
            display_url: None,
            description: None,
        },
        fields("three", "https://c"),
    ];
    let rs = extract_records(&raw);
    assert_eq!(rs.len(), 2);
    assert_eq!(rs[0].title, "one");
    assert_eq!(rs[1].title, "three");
}

#[test]
fn query_needs_an_argument() {
    assert!(query_from_args(&vec!["prog".to_string()]).is_none());
    assert!(query_from_args(&Vec::new()).is_none());
}

#[test]
fn query_joins_arguments_with_spaces() {
    let args = vec![
        "prog".to_string(),
        "rust".to_string(),
        "programming".to_string(),
    ];
    assert_eq!(query_from_args(&args).unwrap(), "rust programming");
}

#[test]
fn url_encodes_spaces_as_plus() {
    assert_eq!(
        search_url("rust programming"),
        "https://search.brave.com/search?q=rust+programming"
    );
}

#[test]
fn extract_from_markup_three_good_one_malformed() {
    let mut body = String::new();
    body.push_str(&container(
        "First Result",
        "https://example.com/one",
        "example.com \u{203a} one",
        "first snippet",
    ));
    body.push_str(&container(
        "Second Result",
        "https://example.com/two",
        "example.com \u{203a} two",
        "second snippet",
    ));
    body.push_str(
        "<div class=\"snippet\"><a href=\"https://example.com/broken\"></a>\
         <div class=\"snippet-description\">no title</div></div>",
    );
    body.push_str(&container(
        "Third Result",
        "https://example.com/three",
        "example.com \u{203a} three",
        "third snippet",
    ));
    let markup = format!("<html><body>{body}</body></html>");
    let results = extract(&markup);
    assert_eq!(results.len(), 3);
    assert_eq!(results[0].title, "First Result");
    assert_eq!(results[0].url, "https://example.com/one");
    assert_eq!(results[0].display_url, "example.com");
    assert_eq!(results[0].description, "first snippet");
    assert_eq!(results[1].title, "Second Result");
    assert_eq!(results[2].title, "Third Result");
    assert_eq!(results[2].url, "https://example.com/three");

    let query = query_from_args(&vec![
        "prog".to_string(),
        "rust".to_string(),
        "programming".to_string(),
    ])
    .unwrap();
    assert_eq!(query, "rust programming");
    let state = BrowseState::new(results, query);
    assert_eq!(state.cursor, Some(0));
    assert_eq!(state.mode, Mode::Normal);
    assert!(!state.should_quit);
}

#[test]
fn extract_skips_non_http_links() {
    let markup = "<html><body><div class=\"snippet\">\
        <a href=\"/tracking\">x</a>\
        <a href=\"https://real.example/page\">y</a>\
        <div class=\"title\">T</div></div></body></html>";
    let results = extract(markup);
    assert_eq!(results.len(), 1);
    assert_eq!(results[0].url, "https://real.example/page");
    assert_eq!(results[0].title, "T");
}

#[test]
fn extract_picks_first_http_link() {
    let markup = "<html><body><div class=\"snippet\">\
        <a href=\"/relative\">r</a>\
        <a href=\"https://first.example/a\">f</a>\
        <a href=\"https://second.example/b\">s</a>\
        <div class=\"title\">T</div></div></body></html>";
    let results = extract(markup);
    assert_eq!(results.len(), 1);
    assert_eq!(results[0].url, "https://first.example/a");
}

#[test]
fn extract_empty_markup_no_results() {
    assert!(extract("<html><body><p>nothing here</p></body></html>").is_empty());
    assert!(extract("").is_empty());
}

#[test]
fn extract_caps_at_ten_containers() {
    let mut body = String::new();
    for i in 0..12 {
        body.push_str(&container(
            &format!("T{i}"),
            &format!("https://e.com/{i}"),
            "e.com",
            "d",
        ));
    }
    let results = extract(&format!("<html><body>{body}</body></html>"));
    assert_eq!(results.len(), 10);
    assert_eq!(results[0].title, "T0");
    assert_eq!(results[9].title, "T9");
}
