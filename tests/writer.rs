use pulldown_html_ext::utils::escape_html;
use pulldown_html_ext::{CodeBlockKind, DefaultHtmlWriter, HtmlConfig};

fn handler_config() -> HtmlConfig {
    let mut config = HtmlConfig::default();
    config.html.break_on_newline = false;
    config
}

#[test]
fn writer_test_paragraph() {
    let config = handler_config();
    let mut w = DefaultHtmlWriter::new(&config);
    w.start_paragraph().unwrap();
    w.text("Hello world").unwrap();
    w.end_paragraph().unwrap();
    assert_eq!(w.get_writer(), "<p>Hello world</p>");
}

#[test]
fn writer_test_blockquote() {
    let config = handler_config();
    let mut w = DefaultHtmlWriter::new(&config);
    w.start_blockquote().unwrap();
    w.text("Quote").unwrap();
    w.end_blockquote().unwrap();
    assert_eq!(w.get_writer(), "<blockquote>Quote</blockquote>");
}

#[test]
fn writer_test_emphasis() {
    let config = handler_config();
    let mut w = DefaultHtmlWriter::new(&config);
    w.start_emphasis().unwrap();
    w.text("emphasized").unwrap();
    w.end_emphasis().unwrap();
    assert_eq!(w.get_writer(), "<em>emphasized</em>");
}

#[test]
fn writer_test_strong() {
    let config = handler_config();
    let mut w = DefaultHtmlWriter::new(&config);
    w.start_strong().unwrap();
    w.text("bold").unwrap();
    w.end_strong().unwrap();
    assert_eq!(w.get_writer(), "<strong>bold</strong>");
}

#[test]
fn writer_test_strikethrough() {
    let config = handler_config();
    let mut w = DefaultHtmlWriter::new(&config);
    w.start_strikethrough().unwrap();
    w.text("strike").unwrap();
    w.end_strikethrough().unwrap();
    assert_eq!(w.get_writer(), "<del>strike</del>");
}

#[test]
fn writer_test_inline_code() {
    let config = handler_config();
    let mut w = DefaultHtmlWriter::new(&config);
    w.start_inline_code().unwrap();
    w.text("code").unwrap();
    w.end_inline_code().unwrap();
    assert_eq!(w.get_writer(), "<code>code</code>");
}

#[test]
fn writer_test_line_breaks() {
    let config = handler_config();
    let mut w = DefaultHtmlWriter::new(&config);
    w.soft_break().unwrap();
    w.hard_break().unwrap();
    assert_eq!(w.get_writer(), "\n<br>");
}

#[test]
fn writer_test_horizontal_rule() {
    let config = handler_config();
    let mut w = DefaultHtmlWriter::new(&config);
    w.horizontal_rule().unwrap();
    assert_eq!(w.get_writer(), "<hr>");
}

#[test]
fn writer_test_task_list() {
    let config = handler_config();
    let mut w = DefaultHtmlWriter::new(&config);
    w.task_list_item(true).unwrap();
    w.text("Done").unwrap();
    assert_eq!(w.get_writer(), "<input type=\"checkbox\" disabled checked>Done");

    let mut w = DefaultHtmlWriter::new(&config);
    w.task_list_item(false).unwrap();
    w.text("Todo").unwrap();
    assert_eq!(w.get_writer(), "<input type=\"checkbox\" disabled>Todo");
}

#[test]
fn writer_test_footnote_definition() {
    let config = handler_config();
    let mut w = DefaultHtmlWriter::new(&config);
    w.start_footnote_definition("1").unwrap();
    w.text("Footnote content").unwrap();
    w.end_footnote_definition().unwrap();
    assert_eq!(
        w.get_writer(),
        "<div class=\"footnote-definition\" id=\"1\">\
         <sup class=\"footnote-definition-label\">1</sup>\
         Footnote content</div>"
    );
}

#[test]
fn writer_test_list_endings() {
    let config = handler_config();
    let mut w = DefaultHtmlWriter::new(&config);
    w.end_list(true).unwrap();
    assert_eq!(w.get_writer(), "</ol>");

    let mut w = DefaultHtmlWriter::new(&config);
    w.end_list(false).unwrap();
    assert_eq!(w.get_writer(), "</ul>");
}

#[test]
fn writer_test_table_structure() {
    let config = handler_config();
    let mut w = DefaultHtmlWriter::new(&config);
    w.end_table_head().unwrap();
    w.end_table_row().unwrap();
    w.end_table_cell().unwrap();
    w.end_table().unwrap();
    assert_eq!(w.get_writer(), "</tr></thead><tbody></tr></td></tbody></table>");
}

#[test]
fn tag_handler_test_paragraph() {
    let config = handler_config();
    let mut w = DefaultHtmlWriter::new(&config);
    w.start_paragraph().unwrap();
    w.text("Hello world").unwrap();
    w.end_paragraph().unwrap();
    assert_eq!(w.get_writer(), "<p>Hello world</p>");
}

#[test]
fn tag_handler_test_blockquote() {
    let config = handler_config();
    let mut w = DefaultHtmlWriter::new(&config);
    w.start_blockquote().unwrap();
    w.text("Quote").unwrap();
    w.end_blockquote().unwrap();
    assert_eq!(w.get_writer(), "<blockquote>Quote</blockquote>");
}

#[test]
fn tag_handler_test_emphasis() {
    let config = handler_config();
    let mut w = DefaultHtmlWriter::new(&config);
    w.start_emphasis().unwrap();
    w.text("emphasized").unwrap();
    w.end_emphasis().unwrap();
    assert_eq!(w.get_writer(), "<em>emphasized</em>");
}

#[test]
fn tag_handler_test_strong() {
    let config = handler_config();
    let mut w = DefaultHtmlWriter::new(&config);
    w.start_strong().unwrap();
    w.text("bold").unwrap();
    w.end_strong().unwrap();
    assert_eq!(w.get_writer(), "<strong>bold</strong>");
}

#[test]
fn tag_handler_test_strikethrough() {
    let config = handler_config();
    let mut w = DefaultHtmlWriter::new(&config);
    w.start_strikethrough().unwrap();
    w.text("strike").unwrap();
    w.end_strikethrough().unwrap();
    assert_eq!(w.get_writer(), "<del>strike</del>");
}

#[test]
fn tag_handler_test_inline_code() {
    let config = handler_config();
    let mut w = DefaultHtmlWriter::new(&config);
    w.start_inline_code().unwrap();
    w.text("code").unwrap();
    w.end_inline_code().unwrap();
    assert_eq!(w.get_writer(), "<code>code</code>");
}

#[test]
fn tag_handler_test_line_breaks() {
    let config = handler_config();
    let mut w = DefaultHtmlWriter::new(&config);
    w.soft_break().unwrap();
    w.hard_break().unwrap();
    assert_eq!(w.get_writer(), "\n<br>");
}

#[test]
fn tag_handler_test_horizontal_rule() {
    let config = handler_config();
    let mut w = DefaultHtmlWriter::new(&config);
    w.horizontal_rule().unwrap();
    assert_eq!(w.get_writer(), "<hr>");
}

#[test]
fn tag_handler_test_task_list() {
    let config = handler_config();
    let mut w = DefaultHtmlWriter::new(&config);
    w.task_list_item(true).unwrap();
    w.text("Done").unwrap();
    assert_eq!(w.get_writer(), "<input type=\"checkbox\" disabled checked>Done");

    let mut w = DefaultHtmlWriter::new(&config);
    w.task_list_item(false).unwrap();
    w.text("Todo").unwrap();
    assert_eq!(w.get_writer(), "<input type=\"checkbox\" disabled>Todo");
}

#[test]
fn tag_handler_test_footnote_definition() {
    let config = handler_config();
    let mut w = DefaultHtmlWriter::new(&config);
    w.start_footnote_definition("1").unwrap();
    w.text("Footnote content").unwrap();
    w.end_footnote_definition().unwrap();
    assert_eq!(
        w.get_writer(),
        "<div class=\"footnote-definition\" id=\"1\">\
         <sup class=\"footnote-definition-label\">1</sup>\
         Footnote content</div>"
    );
}

#[test]
fn tag_handler_test_list_endings() {
    let config = handler_config();
    let mut w = DefaultHtmlWriter::new(&config);
    w.end_list(true).unwrap();
    assert_eq!(w.get_writer(), "</ol>");

    let mut w = DefaultHtmlWriter::new(&config);
    w.end_list(false).unwrap();
    assert_eq!(w.get_writer(), "</ul>");
}

#[test]
fn tag_handler_test_table_structure() {
    let config = handler_config();
    let mut w = DefaultHtmlWriter::new(&config);
    w.end_table_head().unwrap();
    w.end_table_row().unwrap();
    w.end_table_cell().unwrap();
    w.end_table().unwrap();
    assert_eq!(w.get_writer(), "</tr></thead><tbody></tr></td></tbody></table>");
}

#[test]
fn default_test_basic_writing() {
    let config = HtmlConfig::default();
    let mut writer = DefaultHtmlWriter::new(&config);
    writer.write_str("<p>").unwrap();
    escape_html(&mut writer.output, "Hello & World");
    writer.write_str("</p>").unwrap();
    assert_eq!(writer.get_writer(), "<p>Hello &amp; World</p>");
}

#[test]
fn default_test_attributes() {
    let mut config = HtmlConfig::default();
    config
        .attributes
        .insert("p".to_string(), vec![("class".to_string(), "test".to_string())]);
    let mut writer = DefaultHtmlWriter::new(&config);
    writer.start_paragraph().unwrap();
    writer.text("Test").unwrap();
    writer.end_paragraph().unwrap();
    assert_eq!(writer.get_writer(), r#"<p class="test">Test</p>"#);
}

#[test]
fn default_test_custom_writer() {
    let config = HtmlConfig::default();
    let mut writer = DefaultHtmlWriter::new(&config);
    writer.write_str("Test").unwrap();
    assert_eq!(writer.get_writer(), "Test");
}

#[test]
fn default_test_state_tracking() {
    let mut config = HtmlConfig::default();
    config.html.escape_html = true;
    let mut writer = DefaultHtmlWriter::new(&config);
    assert!(!writer.get_state().currently_in_code_block);
    writer.state.currently_in_code_block = true;
    writer.start_code_block(&CodeBlockKind::Fenced("rust".to_string())).unwrap();
    assert!(writer.get_state().currently_in_code_block);
    writer.end_code_block().unwrap();
    writer.state.currently_in_code_block = false;
    assert!(!writer.get_state().currently_in_code_block);
}
