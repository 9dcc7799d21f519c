use pulldown_html_ext::config::{
    default_class_style, default_inject_css, level_classes_from_entries, parse_heading_level,
};
use pulldown_html_ext::{
    AttributeMappings, ClassStyle, HtmlConfig, HtmlError, SyntectConfig, SyntectConfigStyle,
};

#[test]
fn test_default_config() {
    let config = HtmlConfig::default();
    assert!(!config.html.escape_html);
    assert!(config.html.break_on_newline);
    assert!(!config.html.xhtml_style);
    assert!(config.html.pretty_print);
}

#[test]
fn test_heading_map_deserialization() {
    let entries = vec![
        ("1".to_string(), "title".to_string()),
        ("2".to_string(), "subtitle".to_string()),
        ("6".to_string(), "small-title".to_string()),
    ];
    let map = level_classes_from_entries(&entries).unwrap();
    assert_eq!(map.get(&1).unwrap(), "title");
    assert_eq!(map.get(&2).unwrap(), "subtitle");
    assert_eq!(map.get(&6).unwrap(), "small-title");
}

#[test]
fn test_invalid_heading_level() {
    let entries = vec![("7".to_string(), "invalid".to_string())];
    let result = level_classes_from_entries(&entries);
    assert!(result.is_err());
}

#[test]
fn test_attribute_map_deserialization() {
    let mut map = AttributeMappings::new();
    map.insert(
        "h1".to_string(),
        vec![
            ("class".to_string(), "title".to_string()),
            ("data-level".to_string(), "1".to_string()),
        ],
    );
    map.insert("pre".to_string(), vec![("class".to_string(), "code-block".to_string())]);
    let h1 = map.get("h1").unwrap();
    assert_eq!(h1[0], ("class".to_string(), "title".to_string()));
    assert_eq!(h1[1], ("data-level".to_string(), "1".to_string()));
    assert_eq!(map.get("pre").unwrap()[0], ("class".to_string(), "code-block".to_string()));
}

#[test]
fn default_config_other_options() {
    let config = HtmlConfig::default();
    assert!(config.elements.headings.add_ids);
    assert_eq!(config.elements.headings.id_prefix, "heading-");
    assert!(config.elements.headings.level_classes.is_empty());
    assert!(config.elements.links.nofollow_external);
    assert!(config.elements.links.open_external_blank);
    assert_eq!(config.elements.code_blocks.default_language, None);
    assert!(config.attributes.element_attributes.is_empty());
    assert!(config.syntect.is_none());
}

#[test]
fn parse_heading_level_accepts_levels() {
    assert_eq!(parse_heading_level("1"), Ok(1));
    assert_eq!(parse_heading_level("6"), Ok(6));
    assert_eq!(parse_heading_level("+3"), Ok(3));
    assert_eq!(parse_heading_level("003"), Ok(3));
}

#[test]
fn parse_heading_level_rejects_others() {
    for key in ["0", "7", "", "+", "h1", "256", "-1", " 1", "99999999999"] {
        assert!(
            matches!(parse_heading_level(key), Err(HtmlError::Config(_))),
            "{key}"
        );
    }
}

#[test]
fn later_level_entry_replaces_earlier() {
    let entries = vec![
        ("2".to_string(), "first".to_string()),
        ("+2".to_string(), "second".to_string()),
    ];
    let map = level_classes_from_entries(&entries).unwrap();
    assert_eq!(map.len(), 1);
    assert_eq!(map.get(&2).unwrap(), "second");
}

#[test]
fn attribute_insert_replaces_and_keeps_order() {
    let mut map = AttributeMappings::new();
    map.insert("p".to_string(), vec![("class".to_string(), "a".to_string())]);
    map.insert("em".to_string(), vec![]);
    map.insert("p".to_string(), vec![("id".to_string(), "b".to_string())]);
    assert_eq!(map.element_attributes.len(), 2);
    assert_eq!(map.element_attributes[0].0, "p");
    assert_eq!(map.get("p").unwrap()[0].0, "id");
    assert!(map.get("div").is_none());
}

#[test]
fn syntect_defaults() {
    let style = SyntectConfigStyle::default();
    assert_eq!(style.theme, "base16-ocean.dark");
    assert_eq!(style.class_style, ClassStyle::Spaced);
    assert!(style.inject_css);
    assert_eq!(default_class_style(), ClassStyle::Spaced);
    assert!(default_inject_css());
}

#[test]
fn with_syntect_keeps_defaults() {
    let mut sc = SyntectConfig::default();
    sc.style.theme = "InspiredGitHub".to_string();
    let config = HtmlConfig::with_syntect(sc);
    assert_eq!(config.syntect.unwrap().theme, "InspiredGitHub");
    assert!(config.html.break_on_newline);
    assert_eq!(config.elements.headings.id_prefix, "heading-");
}

#[test]
fn error_messages() {
    assert_eq!(HtmlError::Config("bad".to_string()).message(), "Configuration error: bad");
    assert_eq!(HtmlError::Io("gone".to_string()).message(), "IO error: gone");
    assert_eq!(HtmlError::Theme("t".to_string()).message(), "Theme error: t");
    assert_eq!(HtmlError::Render("r".to_string()).message(), "Rendering error: r");
    assert_eq!(
        HtmlError::Write.message(),
        "Write error: an error occurred when formatting an argument"
    );
}
