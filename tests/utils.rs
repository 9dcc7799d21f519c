use pulldown_html_ext::utils::{escape_href, escape_html, sanitize_id, unicode_length};

#[test]
fn test_escape_html() {
    let mut output = String::new();
    escape_html(&mut output, "<div class=\"test\">&");
    assert_eq!(output, "&lt;div class=&quot;test&quot;&gt;&amp;");
}

#[test]
fn test_escape_href() {
    let mut output = String::new();
    escape_href(&mut output, "https://example.com/path with spaces?q=test&x=1");
    assert!(output.contains("%20"));
    assert!(!output.contains(' '));
    assert!(output.contains('&'));
}

#[test]
fn test_sanitize_id() {
    assert_eq!(sanitize_id("Hello World!"), "hello-world");
    assert_eq!(sanitize_id("Test 123"), "test-123");
    assert_eq!(sanitize_id("Multiple   Spaces"), "multiple-spaces");
    assert_eq!(sanitize_id("special@#chars"), "special-chars");
    assert_eq!(sanitize_id("--multiple---dashes--"), "multiple-dashes");
}

#[test]
fn test_unicode_length() {
    assert_eq!(unicode_length("Hello"), 5);
    assert_eq!(unicode_length("\u{1F44B} Hello"), 7);
    assert_eq!(unicode_length("\u{6C49}\u{5B57}"), 2);
    assert_eq!(unicode_length(""), 0);
}

#[test]
fn test_complex_escaping() {
    let mut output = String::new();
    escape_html(&mut output, "<script>alert('xss')</script>");
    assert_eq!(output, "&lt;script&gt;alert(&#x27;xss&#x27;)&lt;/script&gt;");
}

#[test]
fn test_href_special_chars() {
    let mut output = String::new();
    escape_href(&mut output, "/path/with\"quotes'and<brackets>");
    assert!(output.contains("%22"));
    assert!(output.contains("%27"));
    assert!(output.contains("%3C"));
    assert!(output.contains("%3E"));
}

#[test]
fn escape_html_appends_to_existing_output() {
    let mut output = String::from("x");
    escape_html(&mut output, "a&b");
    assert_eq!(output, "xa&amp;b");
}

#[test]
fn escape_href_exact_codes() {
    let mut output = String::new();
    escape_href(&mut output, "a b\n\r\t<>\"'?=&\u{e9}");
    assert_eq!(output, "a%20b%0A%0D%09%3C%3E%22%27?=&\u{e9}");
}

#[test]
fn sanitize_id_keeps_unicode_letters() {
    assert_eq!(sanitize_id("\u{c9}t\u{e9} 2024"), "\u{c9}t\u{e9}-2024");
    assert_eq!(sanitize_id(""), "");
    assert_eq!(sanitize_id("!!!"), "");
    assert_eq!(sanitize_id("ABC"), "abc");
}
