use pulldown_html_ext::{
    create_html_renderer, push_html, Alignment, CodeBlockKind, DefaultHtmlWriter, Event,
    HeadingLevel, HtmlConfig, LinkType, Tag, TagEnd, TableContext,
};

fn render(events: Vec<Event>, config: &HtmlConfig) -> String {
    let mut out = String::new();
    push_html(&mut out, &events, config).unwrap();
    out
}

fn heading(level: HeadingLevel) -> Tag {
    Tag::Heading { level, id: None, classes: vec![], attrs: vec![] }
}

fn text(s: &str) -> Event {
    Event::Text(s.to_string())
}

fn link(dest: &str, title: &str) -> Tag {
    Tag::Link {
        link_type: LinkType::Inline,
        dest_url: dest.to_string(),
        title: title.to_string(),
        id: String::new(),
    }
}

fn image(dest: &str, title: &str) -> Tag {
    Tag::Image {
        link_type: LinkType::Inline,
        dest_url: dest.to_string(),
        title: title.to_string(),
        id: String::new(),
    }
}

#[test]
fn heading_with_default_config() {
    let events = vec![
        Event::Start(heading(HeadingLevel::H1)),
        text("Hello"),
        Event::End(TagEnd::Heading(HeadingLevel::H1)),
    ];
    assert_eq!(render(events, &HtmlConfig::default()), r#"<h1 id="heading-1">Hello</h1>"#);
}

#[test]
fn default_heading_ids_for_every_level() {
    let levels = [
        (HeadingLevel::H1, 1),
        (HeadingLevel::H2, 2),
        (HeadingLevel::H3, 3),
        (HeadingLevel::H4, 4),
        (HeadingLevel::H5, 5),
        (HeadingLevel::H6, 6),
    ];
    for (level, n) in levels {
        let events = vec![Event::Start(heading(level)), text("T"), Event::End(TagEnd::Heading(level))];
        assert_eq!(
            render(events, &HtmlConfig::default()),
            format!("<h{n} id=\"heading-{n}\">T</h{n}>")
        );
    }
}

#[test]
fn heading_classes_attrs_and_configured_attributes() {
    let mut config = HtmlConfig::default();
    config.elements.headings.level_classes.insert(2, "subtitle".to_string());
    config.attributes.insert("h2".to_string(), vec![("data-x".to_string(), "1".to_string())]);
    let events = vec![
        Event::Start(Tag::Heading {
            level: HeadingLevel::H2,
            id: Some("my\"id".to_string()),
            classes: vec!["a".to_string(), "b<".to_string()],
            attrs: vec![("k".to_string(), Some("v&".to_string())), ("flag".to_string(), None)],
        }),
        Event::End(TagEnd::Heading(HeadingLevel::H2)),
    ];
    assert_eq!(
        render(events, &config),
        r#"<h2 id="my&quot;id" class="subtitle a b&lt;" k="v&amp;" flag data-x="1"></h2>"#
    );
}

#[test]
fn heading_without_ids_and_custom_prefix() {
    let mut config = HtmlConfig::default();
    config.elements.headings.add_ids = false;
    let events = vec![Event::Start(heading(HeadingLevel::H3)), Event::End(TagEnd::Heading(HeadingLevel::H3))];
    assert_eq!(render(events.clone(), &config), "<h3></h3>");
    let mut config = HtmlConfig::default();
    config.elements.headings.id_prefix = "sec-".to_string();
    assert_eq!(render(events, &config), r#"<h3 id="sec-3"></h3>"#);
}

#[test]
fn heading_id_stack_pushed_and_popped() {
    let config = HtmlConfig::default();
    let mut w = DefaultHtmlWriter::new(&config);
    w.start_heading(HeadingLevel::H4, None, &vec![], &vec![]).unwrap();
    assert_eq!(w.get_state().heading_stack, vec!["heading-4".to_string()]);
    w.end_heading(HeadingLevel::H4).unwrap();
    assert!(w.get_state().heading_stack.is_empty());
}

#[test]
fn external_link_gets_nofollow_and_blank() {
    let events = vec![
        Event::Start(link("https://example.com", "")),
        text("Example"),
        Event::End(TagEnd::Link),
    ];
    assert_eq!(
        render(events, &HtmlConfig::default()),
        r#"<a href="https://example.com" rel="nofollow" target="_blank">Example</a>"#
    );
}

#[test]
fn internal_link_gets_neither() {
    let events = vec![Event::Start(link("/local", "A title")), text("x"), Event::End(TagEnd::Link)];
    assert_eq!(
        render(events, &HtmlConfig::default()),
        r#"<a href="/local" title="A title">x</a>"#
    );
    let events = vec![Event::Start(link("//cdn.example.com", "")), Event::End(TagEnd::Link)];
    assert_eq!(render(events, &HtmlConfig::default()), r#"<a href="//cdn.example.com"></a>"#);
}

#[test]
fn link_policy_flags_are_independent() {
    let mut config = HtmlConfig::default();
    config.elements.links.nofollow_external = false;
    let events = vec![Event::Start(link("http://a.b/?q=1&r=2", "")), Event::End(TagEnd::Link)];
    assert_eq!(
        render(events.clone(), &config),
        r#"<a href="http://a.b/?q=1&r=2" target="_blank"></a>"#
    );
    config.elements.links.nofollow_external = true;
    config.elements.links.open_external_blank = false;
    assert_eq!(render(events, &config), r#"<a href="http://a.b/?q=1&r=2" rel="nofollow"></a>"#);
}

#[test]
fn link_destination_is_percent_encoded() {
    let events = vec![Event::Start(link("/a b\"c", "t\"")), Event::End(TagEnd::Link)];
    assert_eq!(
        render(events, &HtmlConfig::default()),
        r#"<a href="/a%20b%22c" title="t&quot;"></a>"#
    );
}

#[test]
fn fenced_code_block_with_language() {
    let events = vec![
        Event::Start(Tag::CodeBlock(CodeBlockKind::Fenced("python".to_string()))),
        text("print(1)"),
        Event::End(TagEnd::CodeBlock),
    ];
    assert_eq!(
        render(events, &HtmlConfig::default()),
        r#"<pre><code class="language-python">print(1)</code></pre>"#
    );
}

#[test]
fn code_block_default_language() {
    let mut config = HtmlConfig::default();
    config.elements.code_blocks.default_language = Some("text".to_string());
    let fenced = vec![
        Event::Start(Tag::CodeBlock(CodeBlockKind::Fenced(String::new()))),
        Event::End(TagEnd::CodeBlock),
    ];
    assert_eq!(render(fenced.clone(), &config), r#"<pre><code class="language-text"></code></pre>"#);
    let indented = vec![Event::Start(Tag::CodeBlock(CodeBlockKind::Indented)), Event::End(TagEnd::CodeBlock)];
    assert_eq!(render(indented.clone(), &config), r#"<pre><code class="language-text"></code></pre>"#);
    assert_eq!(render(indented, &HtmlConfig::default()), "<pre><code></code></pre>");
    assert_eq!(render(fenced, &HtmlConfig::default()), "<pre><code></code></pre>");
}

#[test]
fn code_block_flag_follows_block() {
    let config = HtmlConfig::default();
    let mut w = DefaultHtmlWriter::new(&config);
    w.start_code_block(&CodeBlockKind::Indented).unwrap();
    assert!(w.get_state().currently_in_code_block);
    w.end_code_block().unwrap();
    assert!(!w.get_state().currently_in_code_block);
}

#[test]
fn footnote_definition_suppresses_paragraph() {
    let events = vec![
        Event::Start(Tag::FootnoteDefinition("1".to_string())),
        Event::Start(Tag::Paragraph),
        text("Note"),
        Event::End(TagEnd::Paragraph),
        Event::End(TagEnd::FootnoteDefinition),
        Event::Start(Tag::Paragraph),
        text("After"),
        Event::End(TagEnd::Paragraph),
    ];
    let out = render(events, &HtmlConfig::default());
    assert_eq!(
        out,
        "<div class=\"footnote-definition\" id=\"1\"><sup class=\"footnote-definition-label\">1</sup>Note</div><p>After</p>"
    );
}

#[test]
fn footnote_reference_markup() {
    let events = vec![Event::FootnoteReference("n".to_string())];
    assert_eq!(
        render(events, &HtmlConfig::default()),
        r##"<sup class="footnote-reference"><a href="#n">n</a></sup>"##
    );
}

#[test]
fn ordered_list_start_attribute() {
    let list = |n: u64| {
        vec![
            Event::Start(Tag::List(Some(n))),
            Event::Start(Tag::Item),
            text("x"),
            Event::End(TagEnd::Item),
            Event::End(TagEnd::List(true)),
        ]
    };
    assert_eq!(render(list(3), &HtmlConfig::default()), r#"<ol start="3"><li>x</li></ol>"#);
    assert_eq!(render(list(1), &HtmlConfig::default()), "<ol><li>x</li></ol>");
    assert_eq!(render(list(0), &HtmlConfig::default()), r#"<ol start="0"><li>x</li></ol>"#);
    assert_eq!(
        render(list(123456789), &HtmlConfig::default()),
        r#"<ol start="123456789"><li>x</li></ol>"#
    );
    assert_eq!(
        render(list(u64::MAX), &HtmlConfig::default()),
        r#"<ol start="18446744073709551615"><li>x</li></ol>"#
    );
}

#[test]
fn unordered_list_and_stack() {
    let config = HtmlConfig::default();
    let mut w = DefaultHtmlWriter::new(&config);
    w.start_list(None).unwrap();
    w.start_list(Some(5)).unwrap();
    assert_eq!(w.get_state().list_depth(), 2);
    assert_eq!(w.get_state().numbers, vec![5]);
    w.end_list(true).unwrap();
    assert_eq!(w.get_state().list_depth(), 1);
    assert!(w.get_state().numbers.is_empty());
    w.end_list(false).unwrap();
    assert_eq!(w.get_state().list_depth(), 0);
    assert_eq!(w.get_writer(), r#"<ul><ol start="5"></ol></ul>"#);
}

fn cell(s: &str) -> Vec<Event> {
    vec![Event::Start(Tag::TableCell), text(s), Event::End(TagEnd::TableCell)]
}

#[test]
fn table_header_and_body_cells() {
    let mut events = vec![
        Event::Start(Tag::Table(vec![Alignment::Left, Alignment::Unset])),
        Event::Start(Tag::TableHead),
    ];
    events.extend(cell("A"));
    events.extend(cell("B"));
    events.push(Event::End(TagEnd::TableHead));
    for row in [["1", "2", "3"], ["4", "5", "6"]] {
        events.push(Event::Start(Tag::TableRow));
        for c in row {
            events.extend(cell(c));
        }
        events.push(Event::End(TagEnd::TableRow));
    }
    events.push(Event::End(TagEnd::Table));
    let out = render(events, &HtmlConfig::default());
    assert_eq!(
        out,
        "<table><thead><tr><th style=\"text-align: left\">A</th><th>B</th></tr></thead><tbody>\
         <tr><td style=\"text-align: left\">1</td><td>2</td><td>3</td></tr>\
         <tr><td style=\"text-align: left\">4</td><td>5</td><td>6</td></tr></tbody></table>"
    );
}

#[test]
fn table_alignment_styles_and_phase() {
    let config = HtmlConfig::default();
    let mut w = DefaultHtmlWriter::new(&config);
    w.start_table(vec![Alignment::Center, Alignment::Right]).unwrap();
    assert_eq!(w.get_state().table_state, TableContext::InHeader);
    w.start_table_head().unwrap();
    w.start_table_cell().unwrap();
    w.start_table_cell().unwrap();
    w.start_table_cell().unwrap();
    assert_eq!(w.get_state().table_cell_index, 3);
    w.end_table_head().unwrap();
    assert_eq!(w.get_state().table_state, TableContext::InHeader);
    w.start_table_row().unwrap();
    assert_eq!(w.get_state().table_state, TableContext::InBody);
    assert_eq!(w.get_state().table_cell_index, 0);
    w.start_table_row().unwrap();
    assert_eq!(w.get_state().table_state, TableContext::InBody);
    w.end_table().unwrap();
    assert_eq!(w.get_state().table_state, TableContext::NotInTable);
    assert_eq!(
        w.get_writer(),
        "<table><thead><tr><th style=\"text-align: center\"><th style=\"text-align: right\"><th></tr></thead><tbody><tr><tr></tbody></table>"
    );
}

#[test]
fn text_escaped_once_when_enabled() {
    let mut config = HtmlConfig::default();
    config.html.escape_html = true;
    let events = vec![text("a &amp; <b> \"q\" 'x'"), Event::Html("<b>raw & kept</b>".to_string())];
    assert_eq!(
        render(events.clone(), &config),
        "a &amp;amp; &lt;b&gt; &quot;q&quot; &#x27;x&#x27;<b>raw & kept</b>"
    );
    assert_eq!(render(events, &HtmlConfig::default()), "a &amp; <b> \"q\" 'x'<b>raw & kept</b>");
}

#[test]
fn image_alt_text_flattened() {
    let events = vec![
        Event::Start(image("/img.png", "")),
        text("a "),
        Event::Start(Tag::Emphasis),
        text("b"),
        Event::Start(Tag::Strong),
        Event::Code("c<".to_string()),
        Event::End(TagEnd::Strong),
        Event::End(TagEnd::Emphasis),
        Event::SoftBreak,
        text("d"),
        Event::End(TagEnd::Image),
        text("after"),
    ];
    assert_eq!(
        render(events, &HtmlConfig::default()),
        r#"<img src="/img.png" alt="a bc&lt; d">after"#
    );
}

#[test]
fn image_title_and_xhtml_style() {
    let mut config = HtmlConfig::default();
    config.html.xhtml_style = true;
    let events = vec![Event::Start(image("a b.png", "T")), text("x"), Event::End(TagEnd::Image)];
    assert_eq!(render(events, &config), r#"<img src="a%20b.png" alt="x" title="T" />"#);
}

#[test]
fn image_without_end_consumes_rest() {
    let events = vec![Event::Start(image("i", "")), text("x"), Event::Rule];
    assert_eq!(render(events, &HtmlConfig::default()), r#"<img src="i" alt="x">"#);
}

#[test]
fn breaks_rules_and_task_markers() {
    let events = vec![
        text("a"),
        Event::SoftBreak,
        text("b"),
        Event::HardBreak,
        Event::Rule,
        Event::TaskListMarker(true),
        Event::Code("x&y".to_string()),
    ];
    assert_eq!(
        render(events.clone(), &HtmlConfig::default()),
        "a<br>b<br><hr><input type=\"checkbox\" disabled checked><code>x&y</code>"
    );
    let mut config = HtmlConfig::default();
    config.html.break_on_newline = false;
    config.html.escape_html = true;
    assert_eq!(
        render(events, &config),
        "a\nb<br><hr><input type=\"checkbox\" disabled checked><code>x&amp;y</code>"
    );
}

#[test]
fn definition_lists_blockquotes_and_metadata() {
    let events = vec![
        Event::Start(Tag::MetadataBlock(pulldown_html_ext::MetadataBlockKind::YamlStyle)),
        text("ignored: no"),
        Event::End(TagEnd::MetadataBlock(pulldown_html_ext::MetadataBlockKind::YamlStyle)),
        Event::Start(Tag::BlockQuote),
        Event::Start(Tag::DefinitionList),
        Event::Start(Tag::DefinitionListTitle),
        text("t"),
        Event::End(TagEnd::DefinitionListTitle),
        Event::Start(Tag::DefinitionListDefinition),
        text("d"),
        Event::End(TagEnd::DefinitionListDefinition),
        Event::End(TagEnd::DefinitionList),
        Event::End(TagEnd::BlockQuote),
    ];
    assert_eq!(
        render(events, &HtmlConfig::default()),
        "ignored: no<blockquote><dl><dt>t</dt><dd>d</dd></dl></blockquote>"
    );
}

#[test]
fn configured_attributes_are_appended_verbatim() {
    let mut config = HtmlConfig::default();
    config.attributes.insert(
        "a".to_string(),
        vec![("rel".to_string(), "me".to_string()), ("data-q".to_string(), "x\"y".to_string())],
    );
    let events = vec![Event::Start(link("https://e.org", "")), Event::End(TagEnd::Link)];
    assert_eq!(
        render(events, &config),
        r#"<a href="https://e.org" rel="nofollow" target="_blank" rel="me" data-q="x"y"></a>"#
    );
}

#[test]
fn push_html_appends_and_renderer_runs() {
    let config = HtmlConfig::default();
    let mut out = String::from("<!-- -->");
    push_html(&mut out, &vec![text("a")], &config).unwrap();
    push_html(&mut out, &vec![text("b")], &config).unwrap();
    assert_eq!(out, "<!-- -->ab");
    let mut renderer = create_html_renderer(DefaultHtmlWriter::new(&config));
    renderer.run(&vec![Event::Start(Tag::Paragraph), text("p"), Event::End(TagEnd::Paragraph)]).unwrap();
    assert_eq!(renderer.writer.into_output(), "<p>p</p>");
}

#[test]
fn empty_document_renders_nothing() {
    assert_eq!(render(vec![], &HtmlConfig::default()), "");
}
