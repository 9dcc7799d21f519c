//! The writer: one operation per construct of a document, each appending the
//! construct's markup to the output and keeping the render state.

use vstd::prelude::*;
use crate::config::HtmlConfig;
use crate::error::HtmlError;
use crate::event::{Alignment, CodeBlockKind, HeadingLevel, LinkType, MetadataBlockKind};
use crate::markup::{
    configured_attrs, decimal, has_prefix, open_tag, push_attributes, push_decimal,
    push_open_tag, starts_with,
};
use crate::state::{HtmlState, ListContext, StateModel, TableContext};
use crate::utils::{escape_href, escape_html, href_escaped, html_escaped};

verus! {

broadcast use vstd::std_specs::hash::group_hash_axioms;

/// The tag name of a heading of the given level: `h1` to `h6`.
pub open spec fn heading_tag(level: HeadingLevel) -> Seq<char> {
    "h"@ + decimal(level.spec_number() as u64)
}

/// The id of a heading: the one the document gives, else the configured
/// prefix followed by the level.
pub open spec fn heading_id(c: HtmlConfig, level: HeadingLevel, id: Option<Seq<char>>) -> Seq<
    char,
> {
    match id {
        Some(i) => i,
        None => c.elements.headings.id_prefix@ + decimal(level.spec_number() as u64),
    }
}

/// The classes of a heading: the one configured for its level, if any, then
/// those the document gives.
pub open spec fn heading_classes(c: HtmlConfig, level: HeadingLevel, classes: Seq<String>) -> Seq<
    Seq<char>,
> {
    let given = classes.map_values(|s: String| s@);
    if c.elements.headings.level_classes@.contains_key(level.spec_number()) {
        seq![c.elements.headings.level_classes@[level.spec_number()]@] + given
    } else {
        given
    }
}

/// `parts` joined with single spaces.
pub open spec fn join_spaced(parts: Seq<Seq<char>>) -> Seq<char>
    decreases parts.len(),
{
    if parts.len() == 0 {
        Seq::empty()
    } else if parts.len() == 1 {
        parts[0]
    } else {
        join_spaced(parts.drop_last()) + " "@ + parts.last()
    }
}

/// The attribute pairs that a heading carries in the document: ` name` for a
/// pair without a value, ` name="value"` for one with; both escaped.
pub open spec fn heading_attrs_text(attrs: Seq<(String, Option<String>)>) -> Seq<char>
    decreases attrs.len(),
{
    if attrs.len() == 0 {
        Seq::empty()
    } else {
        let (k, v) = attrs.last();
        heading_attrs_text(attrs.drop_last()) + " "@ + html_escaped(k@) + match v {
            Some(val) => "=\""@ + html_escaped(val@) + "\""@,
            None => Seq::empty(),
        }
    }
}

/// The opening tag of a heading.
pub open spec fn heading_open(
    c: HtmlConfig,
    level: HeadingLevel,
    id: Option<Seq<char>>,
    classes: Seq<String>,
    attrs: Seq<(String, Option<String>)>,
) -> Seq<char> {
    let tag = heading_tag(level);
    let id_part = if c.elements.headings.add_ids {
        " id=\""@ + html_escaped(heading_id(c, level, id)) + "\""@
    } else {
        Seq::empty()
    };
    let all = heading_classes(c, level, classes);
    let class_part = if all.len() > 0 {
        " class=\""@ + html_escaped(join_spaced(all)) + "\""@
    } else {
        Seq::empty()
    };
    "<"@ + tag + id_part + class_part + heading_attrs_text(attrs) + configured_attrs(c, tag)
        + ">"@
}

/// Whether a link destination is taken to lead out of the document.
pub open spec fn is_external(url: Seq<char>) -> bool {
    has_prefix(url, "http://"@) || has_prefix(url, "https://"@)
}

/// The language named on a code block: its info string where that is not
/// empty, else the configured default, if any.
pub open spec fn code_language(c: HtmlConfig, kind: CodeBlockKind) -> Option<Seq<char>> {
    let default = match c.elements.code_blocks.default_language {
        Some(l) => Some(l@),
        None => None,
    };
    match kind {
        CodeBlockKind::Fenced(info) => if info@.len() > 0 {
            Some(info@)
        } else {
            default
        },
        CodeBlockKind::Indented => default,
    }
}

/// The markup that opens a code block.
pub open spec fn code_block_open(c: HtmlConfig, kind: CodeBlockKind) -> Seq<char> {
    let lang_part = match code_language(c, kind) {
        Some(l) => " class=\"language-"@ + l + "\""@,
        None => Seq::empty(),
    };
    open_tag(c, "pre"@) + "<"@ + "code"@ + lang_part + configured_attrs(c, "code"@) + ">"@
}

/// The markup that opens a list: `<ol>` with a `start` attribute unless the
/// list starts at 1, or `<ul>`.
pub open spec fn list_open(c: HtmlConfig, first_number: Option<u64>) -> Seq<char> {
    match first_number {
        Some(n) => "<"@ + "ol"@ + (if n != 1 {
            " start=\""@ + decimal(n) + "\""@
        } else {
            Seq::empty()
        }) + configured_attrs(c, "ol"@) + ">"@,
        None => open_tag(c, "ul"@),
    }
}

/// The tag name of a table cell: `th` while the table is in its header, else
/// `td`.
pub open spec fn cell_tag(s: StateModel) -> Seq<char> {
    if s.table_state == TableContext::InHeader {
        "th"@
    } else {
        "td"@
    }
}

/// The alignment style of the next cell, from the column alignments; none
/// for a column past the last alignment.
pub open spec fn cell_style(s: StateModel) -> Seq<char> {
    if s.table_cell_index < s.table_alignments.len() {
        match s.table_alignments[s.table_cell_index as int] {
            Alignment::Left => " style=\"text-align: left\""@,
            Alignment::Center => " style=\"text-align: center\""@,
            Alignment::Right => " style=\"text-align: right\""@,
            Alignment::Unset => Seq::empty(),
        }
    } else {
        Seq::empty()
    }
}

/// The markup that opens a table cell.
pub open spec fn cell_open(c: HtmlConfig, s: StateModel) -> Seq<char> {
    "<"@ + cell_tag(s) + cell_style(s) + configured_attrs(c, cell_tag(s)) + ">"@
}

/// The markup that opens a link.
pub open spec fn link_open(c: HtmlConfig, dest: Seq<char>, title: Seq<char>) -> Seq<char> {
    let title_part = if title.len() > 0 {
        "\" title=\""@ + html_escaped(title)
    } else {
        Seq::empty()
    };
    let rel_part = if is_external(dest) && c.elements.links.nofollow_external {
        "\" rel=\"nofollow"@
    } else {
        Seq::empty()
    };
    let target_part = if is_external(dest) && c.elements.links.open_external_blank {
        "\" target=\"_blank"@
    } else {
        Seq::empty()
    };
    "<a href=\""@ + href_escaped(dest) + title_part + rel_part + target_part + "\""@
        + configured_attrs(c, "a"@) + ">"@
}

/// The markup of an image with its alternative text.
pub open spec fn image_tag(c: HtmlConfig, dest: Seq<char>, title: Seq<char>, alt: Seq<char>) -> Seq<
    char,
> {
    let title_part = if title.len() > 0 {
        " title=\""@ + html_escaped(title) + "\""@
    } else {
        Seq::empty()
    };
    let close = if c.html.xhtml_style {
        " />"@
    } else {
        ">"@
    };
    "<img src=\""@ + href_escaped(dest) + "\" alt=\""@ + html_escaped(alt) + "\""@ + title_part
        + configured_attrs(c, "img"@) + close
}

/// The markup of a reference to a footnote.
pub open spec fn footnote_reference_markup(name: Seq<char>) -> Seq<char> {
    "<sup class=\"footnote-reference\"><a href=\"#"@ + name + "\">"@ + name + "</a></sup>"@
}

/// The markup that opens a footnote definition.
pub open spec fn footnote_definition_open(name: Seq<char>) -> Seq<char> {
    "<div class=\"footnote-definition\" id=\""@ + name
        + "\"><sup class=\"footnote-definition-label\">"@ + name + "</sup>"@
}

/// The markup of a task list marker.
pub open spec fn task_marker(checked: bool) -> Seq<char> {
    "<input type=\"checkbox\" disabled"@ + (if checked {
        " checked"@
    } else {
        Seq::empty()
    }) + ">"@
}

/// The markup of body text: escaped where the configuration asks for it.
pub open spec fn text_markup(c: HtmlConfig, text: Seq<char>) -> Seq<char> {
    if c.html.escape_html {
        html_escaped(text)
    } else {
        text
    }
}

/// The markup of a soft line break.
pub open spec fn soft_break_markup(c: HtmlConfig) -> Seq<char> {
    if c.html.break_on_newline {
        "<br>"@
    } else {
        "\n"@
    }
}

/// The state after a heading opens: its id is pushed where ids are enabled.
pub open spec fn heading_open_state(
    c: HtmlConfig,
    s: StateModel,
    level: HeadingLevel,
    id: Option<Seq<char>>,
) -> StateModel {
    if c.elements.headings.add_ids {
        StateModel { heading_stack: s.heading_stack.push(heading_id(c, level, id)), ..s }
    } else {
        s
    }
}

/// The state after a heading closes: the innermost heading id is popped.
pub open spec fn heading_close_state(s: StateModel) -> StateModel {
    StateModel {
        heading_stack: if s.heading_stack.len() > 0 {
            s.heading_stack.drop_last()
        } else {
            s.heading_stack
        },
        ..s
    }
}

/// The state after a list opens: the list is pushed, and its starting
/// number where it is ordered.
pub open spec fn list_open_state(s: StateModel, first_number: Option<u64>) -> StateModel {
    match first_number {
        Some(n) => StateModel {
            numbers: s.numbers.push(n),
            list_stack: s.list_stack.push(ListContext::Ordered(n)),
            ..s
        },
        None => StateModel { list_stack: s.list_stack.push(ListContext::Unordered), ..s },
    }
}

/// The state after a list closes: the innermost list is popped, and its
/// starting number where it is ordered.
pub open spec fn list_close_state(s: StateModel, ordered: bool) -> StateModel {
    StateModel {
        list_stack: if s.list_stack.len() > 0 {
            s.list_stack.drop_last()
        } else {
            s.list_stack
        },
        numbers: if ordered && s.numbers.len() > 0 {
            s.numbers.drop_last()
        } else {
            s.numbers
        },
        ..s
    }
}

/// The state after a table opens: in its header, at its first column, with
/// its alignments.
pub open spec fn table_open_state(s: StateModel, alignments: Seq<Alignment>) -> StateModel {
    StateModel {
        table_state: TableContext::InHeader,
        table_alignments: alignments,
        table_cell_index: 0,
        ..s
    }
}

/// The state after a body row opens: at the first column, and past the
/// header.
pub open spec fn row_open_state(s: StateModel) -> StateModel {
    StateModel {
        table_cell_index: 0,
        table_state: if s.table_state == TableContext::InHeader {
            TableContext::InBody
        } else {
            s.table_state
        },
        ..s
    }
}

/// The state after a cell opens: at the next column. The index stops at its
/// largest value.
pub open spec fn cell_open_state(s: StateModel) -> StateModel {
    StateModel {
        table_cell_index: if s.table_cell_index < usize::MAX {
            (s.table_cell_index + 1) as usize
        } else {
            s.table_cell_index
        },
        ..s
    }
}

/// Appends the opening tag of a heading.
#[verifier::rlimit(40)]
fn push_heading_open(
    out: &mut String,
    config: &HtmlConfig,
    level: HeadingLevel,
    id: Option<&str>,
    classes: &Vec<String>,
    attrs: &Vec<(String, Option<String>)>,
)
    ensures
        final(out)@ == old(out)@ + heading_open(
            *config,
            level,
            match id {
                Some(i) => Some(i@),
                None => None,
            },
            classes@,
            attrs@,
        ),
{
    let ghost start = out@;
    let ghost idv = match id {
        Some(i) => Some(i@),
        None => None,
    };
    let n = level.number() as u64;
    let mut tag = String::from_str("h");
    push_decimal(&mut tag, n);
    proof {
        reveal_strlit("h");
    }
    out.append("<");
    out.append(tag.as_str());
    if config.elements.headings.add_ids {
        let hid = heading_id_string(config, level, id);
        out.append(" id=\"");
        escape_html(out, hid.as_str());
        out.append("\"");
    }
    let (joined, any) = join_heading_classes(config, level, classes);
    if any {
        out.append(" class=\"");
        escape_html(out, joined.as_str());
        out.append("\"");
    }
    let ghost o3 = out@;
    push_heading_attrs(out, attrs);
    push_attributes(out, config, tag.as_str());
    out.append(">");
    proof {
        let c = *config;
        let t = heading_tag(level);
        let id_part = if c.elements.headings.add_ids {
            " id=\""@ + html_escaped(heading_id(c, level, idv)) + "\""@
        } else {
            Seq::empty()
        };
        let all = heading_classes(c, level, classes@);
        let class_part = if all.len() > 0 {
            " class=\""@ + html_escaped(join_spaced(all)) + "\""@
        } else {
            Seq::empty()
        };
        assert(tag@ == t);
        assert(o3 =~= start + ("<"@ + t + id_part + class_part));
        assert(out@ =~= start + heading_open(c, level, idv, classes@, attrs@));
    }
}

fn heading_id_string(config: &HtmlConfig, level: HeadingLevel, id: Option<&str>) -> (r: String)
    ensures
        r@ == heading_id(
            *config,
            level,
            match id {
                Some(i) => Some(i@),
                None => None,
            },
        ),
{
    match id {
        Some(i) => String::from_str(i),
        None => {
            let mut h = config.elements.headings.id_prefix.clone();
            push_decimal(&mut h, level.number() as u64);
            h
        },
    }
}

/// The classes of a heading joined with spaces, and whether there is any.
fn join_heading_classes(config: &HtmlConfig, level: HeadingLevel, classes: &Vec<String>) -> (r: (
    String,
    bool,
))
    ensures
        r.0@ == join_spaced(heading_classes(*config, level, classes@)),
        r.1 == (heading_classes(*config, level, classes@).len() > 0),
{
    let ghost all = heading_classes(*config, level, classes@);
    let mut joined = String::new();
    let mut any = false;
    let ghost mut parts: Seq<Seq<char>> = Seq::empty();
    match config.elements.headings.level_classes.get(&level.number()) {
        Some(lc) => {
            joined.append(lc.as_str());
            any = true;
            proof {
                parts = seq![lc@];
                assert(joined@ =~= join_spaced(parts));
            }
        },
        None => {},
    }
    let ghost first = parts;
    let nc = classes.len();
    let mut i: usize = 0;
    while i < nc
        invariant
            nc == classes@.len(),
            i <= nc,
            parts == first + classes@.subrange(0, i as int).map_values(|s: String| s@),
            any == (parts.len() > 0),
            joined@ == join_spaced(parts),
        decreases nc - i,
    {
        let ghost prev = parts;
        if any {
            joined.append(" ");
        }
        joined.append(classes[i].as_str());
        any = true;
        proof {
            parts = prev.push(classes@[i as int]@);
            assert(parts.drop_last() == prev);
            assert(classes@.subrange(0, i + 1).map_values(|s: String| s@) =~= classes@.subrange(
                0,
                i as int,
            ).map_values(|s: String| s@).push(classes@[i as int]@));
            assert(joined@ =~= join_spaced(parts));
        }
        i = i + 1;
    }
    assert(classes@.subrange(0, nc as int) == classes@);
    assert(parts =~= all);
    (joined, any)
}

fn push_heading_attrs(out: &mut String, attrs: &Vec<(String, Option<String>)>)
    ensures
        final(out)@ == old(out)@ + heading_attrs_text(attrs@),
{
    let ghost start = out@;
    let na = attrs.len();
    let mut j: usize = 0;
    while j < na
        invariant
            na == attrs@.len(),
            j <= na,
            out@ == start + heading_attrs_text(attrs@.subrange(0, j as int)),
        decreases na - j,
    {
        out.append(" ");
        escape_html(out, attrs[j].0.as_str());
        match &attrs[j].1 {
            Some(v) => {
                out.append("=\"");
                escape_html(out, v.as_str());
                out.append("\"");
            },
            None => {},
        }
        assert(attrs@.subrange(0, j + 1).drop_last() == attrs@.subrange(0, j as int));
        assert(out@ =~= start + heading_attrs_text(attrs@.subrange(0, j + 1)));
        j = j + 1;
    }
    assert(attrs@.subrange(0, na as int) == attrs@);
}

/// Writes the markup of documents with a configuration and a render state.
pub struct DefaultHtmlWriter<'a> {
    /// The markup written so far.
    pub output: String,
    /// The configuration, which the writer never changes.
    pub config: &'a HtmlConfig,
    /// The render state.
    pub state: HtmlState,
}

/// The same writer under the name of the base that custom writers wrap and
/// delegate to.
pub type HtmlWriterBase<'a> = DefaultHtmlWriter<'a>;

impl<'a> DefaultHtmlWriter<'a> {
    /// Whether `self` differs from `before` only by `text` appended to the
    /// output.
    pub open spec fn appended(&self, before: &DefaultHtmlWriter<'a>, text: Seq<char>) -> bool {
        &&& self.output@ == before.output@ + text
        &&& self.config == before.config
        &&& self.state == before.state
    }

    /// Whether `self` differs from `before` by `text` appended to the output
    /// and by its state, which is now `state`.
    pub open spec fn moved(
        &self,
        before: &DefaultHtmlWriter<'a>,
        text: Seq<char>,
        state: StateModel,
    ) -> bool {
        &&& self.output@ == before.output@ + text
        &&& self.config == before.config
        &&& self.state@ == state
    }

    /// A writer with empty output and a fresh state.
    pub fn new(config: &'a HtmlConfig) -> (r: DefaultHtmlWriter<'a>)
        ensures
            r.output@.len() == 0,
            *r.config == *config,
            r.state.is_initial(),
    {
        DefaultHtmlWriter { output: String::new(), config, state: HtmlState::new() }
    }

    /// The markup written so far.
    pub fn get_writer(&self) -> (r: &String)
        ensures
            r == self.output,
    {
        &self.output
    }

    /// The configuration.
    pub fn get_config(&self) -> (r: &HtmlConfig)
        ensures
            *r == *self.config,
    {
        self.config
    }

    /// The render state.
    pub fn get_state(&self) -> (r: &HtmlState)
        ensures
            *r == self.state,
    {
        &self.state
    }

    /// Gives up the writer, handing back the markup written.
    pub fn into_output(self) -> (r: String)
        ensures
            r == self.output,
    {
        self.output
    }

    /// Writes `s` as it is.
    pub fn write_str(&mut self, s: &str) -> (r: Result<(), HtmlError>)
        ensures
            r is Ok,
            final(self).appended(old(self), s@),
    {
        self.output.append(s);
        Ok(())
    }

    /// Writes the attributes configured for the element called `element`.
    pub fn write_attributes(&mut self, element: &str) -> (r: Result<(), HtmlError>)
        ensures
            r is Ok,
            final(self).appended(old(self), configured_attrs(*old(self).config, element@)),
    {
        push_attributes(&mut self.output, self.config, element);
        Ok(())
    }

    /// Whether `url` is taken to lead out of the document: it starts with
    /// `http://` or `https://`.
    pub fn is_external_link(&self, url: &str) -> (r: bool)
        ensures
            r == is_external(url@),
    {
        starts_with(url, "http://") || starts_with(url, "https://")
    }

    fn open_element(&mut self, name: &str) -> (r: Result<(), HtmlError>)
        ensures
            r is Ok,
            final(self).appended(old(self), open_tag(*old(self).config, name@)),
    {
        push_open_tag(&mut self.output, self.config, name);
        Ok(())
    }

    /// Opens a paragraph; inside a footnote definition nothing is written.
    pub fn start_paragraph(&mut self) -> (r: Result<(), HtmlError>)
        ensures
            r is Ok,
            final(self).appended(
                old(self),
                if old(self).state.currently_in_footnote {
                    Seq::empty()
                } else {
                    open_tag(*old(self).config, "p"@)
                },
            ),
    {
        if self.state.currently_in_footnote {
            assert(self.output@ =~= self.output@ + Seq::<char>::empty());
            Ok(())
        } else {
            self.open_element("p")
        }
    }

    /// Closes a paragraph; inside a footnote definition nothing is written.
    pub fn end_paragraph(&mut self) -> (r: Result<(), HtmlError>)
        ensures
            r is Ok,
            final(self).appended(
                old(self),
                if old(self).state.currently_in_footnote {
                    Seq::empty()
                } else {
                    "</p>"@
                },
            ),
    {
        if self.state.currently_in_footnote {
            assert(self.output@ =~= self.output@ + Seq::<char>::empty());
            Ok(())
        } else {
            self.write_str("</p>")
        }
    }

    /// Opens a heading. Where ids are enabled, the heading's id is written and
    /// pushed on the heading stack.
    pub fn start_heading(
        &mut self,
        level: HeadingLevel,
        id: Option<&str>,
        classes: &Vec<String>,
        attrs: &Vec<(String, Option<String>)>,
    ) -> (r: Result<(), HtmlError>)
        ensures
            r is Ok,
            ({
                let idv = match id {
                    Some(i) => Some(i@),
                    None => None,
                };
                final(self).moved(
                    old(self),
                    heading_open(*old(self).config, level, idv, classes@, attrs@),
                    heading_open_state(*old(self).config, old(self).state@, level, idv),
                )
            }),
    {
        push_heading_open(&mut self.output, self.config, level, id, classes, attrs);
        if self.config.elements.headings.add_ids {
            let hid = heading_id_string(self.config, level, id);
            let ghost hv = hid@;
            let ghost before = self.state.heading_stack@;
            self.state.heading_stack.push(hid);
            assert(self.state.heading_stack@.map_values(|h: String| h@) =~= before.map_values(
                |h: String| h@,
            ).push(hv));
        }
        Ok(())
    }

    /// Closes a heading, popping its id where one was pushed.
    pub fn end_heading(&mut self, level: HeadingLevel) -> (r: Result<(), HtmlError>)
        ensures
            r is Ok,
            final(self).moved(
                old(self),
                "</"@ + heading_tag(level) + ">"@,
                heading_close_state(old(self).state@),
            ),
    {
        let ghost start = self.output@;
        self.output.append("</h");
        push_decimal(&mut self.output, level.number() as u64);
        self.output.append(">");
        proof {
            reveal_strlit("</h");
            reveal_strlit("</");
            reveal_strlit("h");
        }
        assert(self.output@ =~= start + ("</"@ + heading_tag(level) + ">"@));
        if self.state.heading_stack.len() > 0 {
            let ghost before = self.state.heading_stack@;
            self.state.heading_stack.pop();
            assert(self.state.heading_stack@.map_values(|h: String| h@) =~= before.map_values(
                |h: String| h@,
            ).drop_last());
        }
        Ok(())
    }
    /// Opens a block quote.
    pub fn start_blockquote(&mut self) -> (r: Result<(), HtmlError>)
        ensures
            r is Ok,
            final(self).appended(old(self), open_tag(*old(self).config, "blockquote"@)),
    {
        self.open_element("blockquote")
    }

    /// Closes a block quote.
    pub fn end_blockquote(&mut self) -> (r: Result<(), HtmlError>)
        ensures
            r is Ok,
            final(self).appended(old(self), "</blockquote>"@),
    {
        self.write_str("</blockquote>")
    }

    /// Opens a code block, naming its language where one is known.
    pub fn start_code_block(&mut self, kind: &CodeBlockKind) -> (r: Result<(), HtmlError>)
        ensures
            r is Ok,
            final(self).moved(
                old(self),
                code_block_open(*old(self).config, *kind),
                StateModel { in_code_block: true, ..old(self).state@ },
            ),
    {
        let ghost start = self.output@;
        self.state.currently_in_code_block = true;
        push_open_tag(&mut self.output, self.config, "pre");
        self.output.append("<");
        self.output.append("code");
        let ghost before_lang = self.output@;
        let lang: Option<&String> = match kind {
            CodeBlockKind::Fenced(info) => {
                if info.unicode_len() > 0 {
                    Some(info)
                } else {
                    self.config.elements.code_blocks.default_language.as_ref()
                }
            },
            CodeBlockKind::Indented => self.config.elements.code_blocks.default_language.as_ref(),
        };
        match lang {
            Some(l) => {
                self.output.append(" class=\"language-");
                self.output.append(l.as_str());
                self.output.append("\"");
            },
            None => {},
        }
        let ghost lang_part = match code_language(*self.config, *kind) {
            Some(l) => " class=\"language-"@ + l + "\""@,
            None => Seq::<char>::empty(),
        };
        assert(self.output@ =~= before_lang + lang_part);
        push_attributes(&mut self.output, self.config, "code");
        self.output.append(">");
        assert(self.output@ =~= start + code_block_open(*self.config, *kind));
        Ok(())
    }

    /// Closes a code block.
    pub fn end_code_block(&mut self) -> (r: Result<(), HtmlError>)
        ensures
            r is Ok,
            final(self).moved(
                old(self),
                "</code></pre>"@,
                StateModel { in_code_block: false, ..old(self).state@ },
            ),
    {
        self.state.currently_in_code_block = false;
        self.output.append("</code></pre>");
        Ok(())
    }

    /// Opens an inline code span.
    pub fn start_inline_code(&mut self) -> (r: Result<(), HtmlError>)
        ensures
            r is Ok,
            final(self).appended(old(self), open_tag(*old(self).config, "code"@)),
    {
        self.open_element("code")
    }

    /// Closes an inline code span.
    pub fn end_inline_code(&mut self) -> (r: Result<(), HtmlError>)
        ensures
            r is Ok,
            final(self).appended(old(self), "</code>"@),
    {
        self.write_str("</code>")
    }

    /// Opens a list: ordered where a starting number is given, and pushes it
    /// on the list stack.
    pub fn start_list(&mut self, first_number: Option<u64>) -> (r: Result<(), HtmlError>)
        ensures
            r is Ok,
            final(self).moved(
                old(self),
                list_open(*old(self).config, first_number),
                list_open_state(old(self).state@, first_number),
            ),
    {
        let ghost start = self.output@;
        match first_number {
            Some(n) => {
                self.state.numbers.push(n);
                self.state.list_stack.push(ListContext::Ordered(n));
                self.output.append("<");
                self.output.append("ol");
                if n != 1 {
                    self.output.append(" start=\"");
                    push_decimal(&mut self.output, n);
                    self.output.append("\"");
                }
                let ghost mid = self.output@;
                push_attributes(&mut self.output, self.config, "ol");
                self.output.append(">");
                assert(self.output@ =~= start + list_open(*self.config, first_number));
            },
            None => {
                self.state.list_stack.push(ListContext::Unordered);
                push_open_tag(&mut self.output, self.config, "ul");
            },
        }
        Ok(())
    }

    /// Closes a list of the given kind and pops it from the list stack.
    pub fn end_list(&mut self, ordered: bool) -> (r: Result<(), HtmlError>)
        ensures
            r is Ok,
            final(self).moved(
                old(self),
                if ordered {
                    "</ol>"@
                } else {
                    "</ul>"@
                },
                list_close_state(old(self).state@, ordered),
            ),
    {
        if self.state.list_stack.len() > 0 {
            self.state.list_stack.pop();
        }
        if ordered {
            if self.state.numbers.len() > 0 {
                self.state.numbers.pop();
            }
            self.output.append("</ol>");
        } else {
            self.output.append("</ul>");
        }
        Ok(())
    }

    /// Opens a list item.
    pub fn start_list_item(&mut self) -> (r: Result<(), HtmlError>)
        ensures
            r is Ok,
            final(self).appended(old(self), open_tag(*old(self).config, "li"@)),
    {
        self.open_element("li")
    }

    /// Closes a list item.
    pub fn end_list_item(&mut self) -> (r: Result<(), HtmlError>)
        ensures
            r is Ok,
            final(self).appended(old(self), "</li>"@),
    {
        self.write_str("</li>")
    }

    /// Opens a table: its header comes first, and its alignments are kept.
    pub fn start_table(&mut self, alignments: Vec<Alignment>) -> (r: Result<(), HtmlError>)
        ensures
            r is Ok,
            final(self).moved(
                old(self),
                open_tag(*old(self).config, "table"@),
                table_open_state(old(self).state@, alignments@),
            ),
    {
        self.state.table_state = TableContext::InHeader;
        self.state.table_alignments = alignments;
        self.state.table_cell_index = 0;
        self.open_element("table")
    }

    /// Closes a table, which leaves the table context.
    pub fn end_table(&mut self) -> (r: Result<(), HtmlError>)
        ensures
            r is Ok,
            final(self).moved(
                old(self),
                "</tbody></table>"@,
                StateModel { table_state: TableContext::NotInTable, ..old(self).state@ },
            ),
    {
        self.state.table_state = TableContext::NotInTable;
        self.output.append("</tbody></table>");
        Ok(())
    }

    /// Opens the header of a table.
    pub fn start_table_head(&mut self) -> (r: Result<(), HtmlError>)
        ensures
            r is Ok,
            final(self).moved(
                old(self),
                "<thead><tr>"@,
                StateModel { table_cell_index: 0, ..old(self).state@ },
            ),
    {
        self.state.table_cell_index = 0;
        self.output.append("<thead><tr>");
        Ok(())
    }

    /// Closes the header of a table and opens its body.
    pub fn end_table_head(&mut self) -> (r: Result<(), HtmlError>)
        ensures
            r is Ok,
            final(self).appended(old(self), "</tr></thead><tbody>"@),
    {
        self.write_str("</tr></thead><tbody>")
    }

    /// Opens a row of a table's body; the first one ends the header phase.
    pub fn start_table_row(&mut self) -> (r: Result<(), HtmlError>)
        ensures
            r is Ok,
            final(self).moved(
                old(self),
                "<tr>"@,
                row_open_state(old(self).state@),
            ),
    {
        self.state.table_cell_index = 0;
        if matches!(self.state.table_state, TableContext::InHeader) {
            self.state.table_state = TableContext::InBody;
        }
        self.output.append("<tr>");
        Ok(())
    }

    /// Closes a table row.
    pub fn end_table_row(&mut self) -> (r: Result<(), HtmlError>)
        ensures
            r is Ok,
            final(self).appended(old(self), "</tr>"@),
    {
        self.write_str("</tr>")
    }

    /// Opens a table cell (`th` in the header, `td` in the body) and moves to
    /// the next column. The column index stops at its largest value.
    pub fn start_table_cell(&mut self) -> (r: Result<(), HtmlError>)
        ensures
            r is Ok,
            final(self).moved(
                old(self),
                cell_open(*old(self).config, old(self).state@),
                cell_open_state(old(self).state@),
            ),
    {
        let ghost start = self.output@;
        let tag = if matches!(self.state.table_state, TableContext::InHeader) {
            "th"
        } else {
            "td"
        };
        self.output.append("<");
        self.output.append(tag);
        let idx = self.state.table_cell_index;
        if idx < self.state.table_alignments.len() {
            match self.state.table_alignments[idx] {
                Alignment::Left => self.output.append(" style=\"text-align: left\""),
                Alignment::Center => self.output.append(" style=\"text-align: center\""),
                Alignment::Right => self.output.append(" style=\"text-align: right\""),
                Alignment::Unset => {},
            }
        }
        let ghost mid = self.output@;
        assert(mid =~= start + "<"@ + cell_tag(self.state@) + cell_style(self.state@));
        push_attributes(&mut self.output, self.config, tag);
        self.output.append(">");
        assert(self.output@ =~= start + cell_open(*self.config, self.state@));
        if idx < usize::MAX {
            self.state.table_cell_index = idx + 1;
        }
        Ok(())
    }

    /// Closes a table cell with the tag it was opened with.
    pub fn end_table_cell(&mut self) -> (r: Result<(), HtmlError>)
        ensures
            r is Ok,
            final(self).appended(old(self), "</"@ + cell_tag(old(self).state@) + ">"@),
    {
        let ghost start = self.output@;
        if matches!(self.state.table_state, TableContext::InHeader) {
            self.output.append("</");
            self.output.append("th");
            self.output.append(">");
        } else {
            self.output.append("</");
            self.output.append("td");
            self.output.append(">");
        }
        assert(self.output@ =~= start + ("</"@ + cell_tag(self.state@) + ">"@));
        Ok(())
    }

    /// Opens emphasis.
    pub fn start_emphasis(&mut self) -> (r: Result<(), HtmlError>)
        ensures
            r is Ok,
            final(self).appended(old(self), open_tag(*old(self).config, "em"@)),
    {
        self.open_element("em")
    }

    /// Closes emphasis.
    pub fn end_emphasis(&mut self) -> (r: Result<(), HtmlError>)
        ensures
            r is Ok,
            final(self).appended(old(self), "</em>"@),
    {
        self.write_str("</em>")
    }

    /// Opens strong emphasis.
    pub fn start_strong(&mut self) -> (r: Result<(), HtmlError>)
        ensures
            r is Ok,
            final(self).appended(old(self), open_tag(*old(self).config, "strong"@)),
    {
        self.open_element("strong")
    }

    /// Closes strong emphasis.
    pub fn end_strong(&mut self) -> (r: Result<(), HtmlError>)
        ensures
            r is Ok,
            final(self).appended(old(self), "</strong>"@),
    {
        self.write_str("</strong>")
    }

    /// Opens struck-through text.
    pub fn start_strikethrough(&mut self) -> (r: Result<(), HtmlError>)
        ensures
            r is Ok,
            final(self).appended(old(self), open_tag(*old(self).config, "del"@)),
    {
        self.open_element("del")
    }

    /// Closes struck-through text.
    pub fn end_strikethrough(&mut self) -> (r: Result<(), HtmlError>)
        ensures
            r is Ok,
            final(self).appended(old(self), "</del>"@),
    {
        self.write_str("</del>")
    }

    /// Opens a link. An external destination gets `rel="nofollow"` and
    /// `target="_blank"` as the configuration asks.
    pub fn start_link(&mut self, link_type: LinkType, dest: &str, title: &str) -> (r: Result<
        (),
        HtmlError,
    >)
        ensures
            r is Ok,
            final(self).appended(old(self), link_open(*old(self).config, dest@, title@)),
    {
        let ghost start = self.output@;
        self.output.append("<a href=\"");
        escape_href(&mut self.output, dest);
        if title.unicode_len() > 0 {
            self.output.append("\" title=\"");
            escape_html(&mut self.output, title);
        }
        let external = self.is_external_link(dest);
        if external && self.config.elements.links.nofollow_external {
            self.output.append("\" rel=\"nofollow");
        }
        if external && self.config.elements.links.open_external_blank {
            self.output.append("\" target=\"_blank");
        }
        self.output.append("\"");
        push_attributes(&mut self.output, self.config, "a");
        self.output.append(">");
        assert(self.output@ =~= start + link_open(*self.config, dest@, title@));
        Ok(())
    }

    /// Closes a link.
    pub fn end_link(&mut self) -> (r: Result<(), HtmlError>)
        ensures
            r is Ok,
            final(self).appended(old(self), "</a>"@),
    {
        self.write_str("</a>")
    }

    /// Writes an image whose alternative text `alt` has been collected from
    /// the events nested in it.
    pub fn start_image(&mut self, link_type: LinkType, dest: &str, title: &str, alt: &str) -> (r:
        Result<(), HtmlError>)
        ensures
            r is Ok,
            final(self).appended(old(self), image_tag(*old(self).config, dest@, title@, alt@)),
    {
        let ghost start = self.output@;
        self.output.append("<img src=\"");
        escape_href(&mut self.output, dest);
        self.output.append("\" alt=\"");
        escape_html(&mut self.output, alt);
        self.output.append("\"");
        if title.unicode_len() > 0 {
            self.output.append(" title=\"");
            escape_html(&mut self.output, title);
            self.output.append("\"");
        }
        push_attributes(&mut self.output, self.config, "img");
        if self.config.html.xhtml_style {
            self.output.append(" />");
        } else {
            self.output.append(">");
        }
        assert(self.output@ =~= start + image_tag(*self.config, dest@, title@, alt@));
        Ok(())
    }

    /// An image is a single element: its end writes nothing.
    pub fn end_image(&mut self) -> (r: Result<(), HtmlError>)
        ensures
            r is Ok,
            *final(self) == *old(self),
    {
        Ok(())
    }

    /// Writes a reference to the footnote called `name`.
    pub fn footnote_reference(&mut self, name: &str) -> (r: Result<(), HtmlError>)
        ensures
            r is Ok,
            final(self).appended(old(self), footnote_reference_markup(name@)),
    {
        let ghost start = self.output@;
        self.output.append("<sup class=\"footnote-reference\"><a href=\"#");
        self.output.append(name);
        self.output.append("\">");
        self.output.append(name);
        self.output.append("</a></sup>");
        assert(self.output@ =~= start + footnote_reference_markup(name@));
        Ok(())
    }

    /// Opens the definition of the footnote called `name`; paragraphs inside
    /// it are not wrapped.
    pub fn start_footnote_definition(&mut self, name: &str) -> (r: Result<(), HtmlError>)
        ensures
            r is Ok,
            final(self).moved(
                old(self),
                footnote_definition_open(name@),
                StateModel { in_footnote: true, ..old(self).state@ },
            ),
    {
        let ghost start = self.output@;
        self.output.append("<div class=\"footnote-definition\" id=\"");
        self.output.append(name);
        self.output.append("\"><sup class=\"footnote-definition-label\">");
        self.output.append(name);
        self.output.append("</sup>");
        self.state.currently_in_footnote = true;
        assert(self.output@ =~= start + footnote_definition_open(name@));
        Ok(())
    }

    /// Closes a footnote definition.
    pub fn end_footnote_definition(&mut self) -> (r: Result<(), HtmlError>)
        ensures
            r is Ok,
            final(self).moved(
                old(self),
                "</div>"@,
                StateModel { in_footnote: false, ..old(self).state@ },
            ),
    {
        self.output.append("</div>");
        self.state.currently_in_footnote = false;
        Ok(())
    }

    /// Writes the check box of a task list item.
    pub fn task_list_item(&mut self, checked: bool) -> (r: Result<(), HtmlError>)
        ensures
            r is Ok,
            final(self).appended(old(self), task_marker(checked)),
    {
        let ghost start = self.output@;
        self.output.append("<input type=\"checkbox\" disabled");
        if checked {
            self.output.append(" checked");
        }
        self.output.append(">");
        assert(self.output@ =~= start + task_marker(checked));
        Ok(())
    }

    /// Writes a thematic break.
    pub fn horizontal_rule(&mut self) -> (r: Result<(), HtmlError>)
        ensures
            r is Ok,
            final(self).appended(old(self), "<hr>"@),
    {
        self.write_str("<hr>")
    }

    /// Writes a soft line break: `<br>` or a newline, as configured.
    pub fn soft_break(&mut self) -> (r: Result<(), HtmlError>)
        ensures
            r is Ok,
            final(self).appended(old(self), soft_break_markup(*old(self).config)),
    {
        if self.config.html.break_on_newline {
            self.write_str("<br>")
        } else {
            self.write_str("\n")
        }
    }

    /// Writes a hard line break.
    pub fn hard_break(&mut self) -> (r: Result<(), HtmlError>)
        ensures
            r is Ok,
            final(self).appended(old(self), "<br>"@),
    {
        self.write_str("<br>")
    }

    /// Writes body text, escaped where the configuration asks for it.
    pub fn text(&mut self, text: &str) -> (r: Result<(), HtmlError>)
        ensures
            r is Ok,
            final(self).appended(old(self), text_markup(*old(self).config, text@)),
    {
        if self.config.html.escape_html {
            escape_html(&mut self.output, text);
        } else {
            self.output.append(text);
        }
        Ok(())
    }

    /// Opens a definition list.
    pub fn start_definition_list(&mut self) -> (r: Result<(), HtmlError>)
        ensures
            r is Ok,
            final(self).appended(old(self), open_tag(*old(self).config, "dl"@)),
    {
        self.open_element("dl")
    }

    /// Closes a definition list.
    pub fn end_definition_list(&mut self) -> (r: Result<(), HtmlError>)
        ensures
            r is Ok,
            final(self).appended(old(self), "</dl>"@),
    {
        self.write_str("</dl>")
    }

    /// Opens the title of a definition.
    pub fn start_definition_list_title(&mut self) -> (r: Result<(), HtmlError>)
        ensures
            r is Ok,
            final(self).appended(old(self), open_tag(*old(self).config, "dt"@)),
    {
        self.open_element("dt")
    }

    /// Closes the title of a definition.
    pub fn end_definition_list_title(&mut self) -> (r: Result<(), HtmlError>)
        ensures
            r is Ok,
            final(self).appended(old(self), "</dt>"@),
    {
        self.write_str("</dt>")
    }

    /// Opens a definition.
    pub fn start_definition_list_definition(&mut self) -> (r: Result<(), HtmlError>)
        ensures
            r is Ok,
            final(self).appended(old(self), open_tag(*old(self).config, "dd"@)),
    {
        self.open_element("dd")
    }

    /// Closes a definition.
    pub fn end_definition_list_definition(&mut self) -> (r: Result<(), HtmlError>)
        ensures
            r is Ok,
            final(self).appended(old(self), "</dd>"@),
    {
        self.write_str("</dd>")
    }

    /// A metadata block is not rendered: its start writes nothing.
    pub fn start_metadata_block(&mut self, kind: &MetadataBlockKind) -> (r: Result<(), HtmlError>)
        ensures
            r is Ok,
            *final(self) == *old(self),
    {
        Ok(())
    }

    /// A metadata block is not rendered: its end writes nothing.
    pub fn end_metadata_block(&mut self) -> (r: Result<(), HtmlError>)
        ensures
            r is Ok,
            *final(self) == *old(self),
    {
        Ok(())
    }

    /// Writes markup passed through from the document, never escaped.
    pub fn html_raw(&mut self, html: &str) -> (r: Result<(), HtmlError>)
        ensures
            r is Ok,
            final(self).appended(old(self), html@),
    {
        self.write_str(html)
    }
}

} // verus!
