//! The renderer: one forward pass over the events of a document, dispatching
//! each to the writer. An image looks ahead to collect its alternative text.

use vstd::prelude::*;
use crate::config::HtmlConfig;
use crate::error::HtmlError;
use crate::event::{Alignment, Event, Tag, TagEnd};
use crate::markup::open_tag;
use crate::state::{StateModel, TableContext};
use crate::utils::push_char;
use crate::writer::{
    cell_open, cell_open_state, cell_tag, code_block_open, footnote_definition_open,
    footnote_reference_markup, heading_close_state, heading_open, heading_open_state,
    heading_tag, image_tag, link_open, list_close_state, list_open, list_open_state,
    row_open_state, soft_break_markup, table_open_state, task_marker, text_markup,
    DefaultHtmlWriter,
};

verus! {

/// What an event gives to an image's alternative text: the content of text
/// and inline code, a space for a line break, nothing for anything else.
pub open spec fn alt_piece(e: Event) -> Seq<char> {
    match e {
        Event::Text(t) => t@,
        Event::Code(t) => t@,
        Event::SoftBreak => seq![' '],
        Event::HardBreak => seq![' '],
        _ => Seq::empty(),
    }
}

/// The alternative text collected from position `i` on, `depth` constructs
/// deep inside the image, and the position just past the `End` that closes
/// the image (or the length of `ev` where none does).
pub open spec fn alt_scan(ev: Seq<Event>, i: int, depth: nat) -> (Seq<char>, int)
    decreases ev.len() - i,
{
    if i < 0 || i >= ev.len() {
        (Seq::empty(), ev.len() as int)
    } else {
        match ev[i] {
            Event::Start(_) => alt_scan(ev, i + 1, depth + 1),
            Event::End(_) => if depth == 0 {
                (Seq::empty(), i + 1)
            } else {
                alt_scan(ev, i + 1, (depth - 1) as nat)
            },
            _ => {
                let rest = alt_scan(ev, i + 1, depth);
                (alt_piece(ev[i]) + rest.0, rest.1)
            },
        }
    }
}

/// Where the alternative text ends: after `i`, and within the events.
pub proof fn lemma_alt_scan_bounds(ev: Seq<Event>, i: int, depth: nat)
    requires
        0 <= i <= ev.len(),
    ensures
        i <= alt_scan(ev, i, depth).1 <= ev.len(),
        i < ev.len() ==> i < alt_scan(ev, i, depth).1,
    decreases ev.len() - i,
{
    if i < ev.len() {
        match ev[i] {
            Event::Start(_) => lemma_alt_scan_bounds(ev, i + 1, depth + 1),
            Event::End(_) => if depth > 0 {
                lemma_alt_scan_bounds(ev, i + 1, (depth - 1) as nat);
            },
            _ => lemma_alt_scan_bounds(ev, i + 1, depth),
        }
    }
}

/// Collects the alternative text of an image whose nested events start at
/// `start`, and returns it with the position just past the image's `End`.
pub fn collect_alt_text(events: &Vec<Event>, start: usize) -> (r: (String, usize))
    requires
        start <= events@.len(),
    ensures
        r.0@ == alt_scan(events@, start as int, 0).0,
        r.1 == alt_scan(events@, start as int, 0).1,
{
    let ghost ev = events@;
    let ghost target = alt_scan(ev, start as int, 0);
    let n = events.len();
    let mut alt = String::new();
    let mut depth: usize = 0;
    let mut i: usize = start;
    while i < n
        invariant
            n == ev.len(),
            ev == events@,
            start <= i <= n,
            depth <= i - start,
            alt@ + alt_scan(ev, i as int, depth as nat).0 == target.0,
            alt_scan(ev, i as int, depth as nat).1 == target.1,
            target == alt_scan(ev, start as int, 0),
        decreases n - i,
    {
        let ghost prev = alt@;
        match &events[i] {
            Event::Start(_) => {
                depth = depth + 1;
            },
            Event::End(_) => {
                if depth == 0 {
                    assert(alt_scan(ev, i as int, 0) == (Seq::<char>::empty(), i + 1));
                    assert(alt@ =~= target.0);
                    return (alt, i + 1);
                }
                depth = depth - 1;
            },
            Event::Text(t) => {
                alt.append(t.as_str());
                assert(alt@ + alt_scan(ev, i + 1, depth as nat).0 =~= prev + alt_scan(
                    ev,
                    i as int,
                    depth as nat,
                ).0);
            },
            Event::Code(t) => {
                alt.append(t.as_str());
                assert(alt@ + alt_scan(ev, i + 1, depth as nat).0 =~= prev + alt_scan(
                    ev,
                    i as int,
                    depth as nat,
                ).0);
            },
            Event::SoftBreak => {
                push_char(&mut alt, ' ');
                assert(alt@ + alt_scan(ev, i + 1, depth as nat).0 =~= prev + alt_scan(
                    ev,
                    i as int,
                    depth as nat,
                ).0);
            },
            Event::HardBreak => {
                push_char(&mut alt, ' ');
                assert(alt@ + alt_scan(ev, i + 1, depth as nat).0 =~= prev + alt_scan(
                    ev,
                    i as int,
                    depth as nat,
                ).0);
            },
            _ => {
                assert(alt@ + alt_scan(ev, i + 1, depth as nat).0 =~= prev + alt_scan(
                    ev,
                    i as int,
                    depth as nat,
                ).0);
            },
        }
        i = i + 1;
    }
    assert(alt@ =~= target.0);
    (alt, n)
}

/// A copy of the column alignments of a table.
fn copy_alignments(v: &Vec<Alignment>) -> (r: Vec<Alignment>)
    ensures
        r@ == v@,
{
    let mut r: Vec<Alignment> = Vec::new();
    let n = v.len();
    let mut i: usize = 0;
    while i < n
        invariant
            n == v@.len(),
            i <= n,
            r@ == v@.subrange(0, i as int),
        decreases n - i,
    {
        r.push(v[i]);
        assert(r@ =~= v@.subrange(0, i + 1));
        i = i + 1;
    }
    assert(v@.subrange(0, n as int) =~= v@);
    r
}

/// The markup written for the `Start` of `tag` at position `i`, the state
/// after it, and the position of the next event to render.
pub open spec fn start_step(c: HtmlConfig, s: StateModel, tag: Tag, ev: Seq<Event>, i: int) -> (
    Seq<char>,
    StateModel,
    int,
) {
    match tag {
        Tag::Paragraph => (
            if s.in_footnote {
                Seq::empty()
            } else {
                open_tag(c, "p"@)
            },
            s,
            i + 1,
        ),
        Tag::Heading { level, id, classes, attrs } => {
            let idv = match id {
                Some(x) => Some(x@),
                None => None,
            };
            (heading_open(c, level, idv, classes@, attrs@), heading_open_state(c, s, level, idv), i
                + 1)
        },
        Tag::BlockQuote => (open_tag(c, "blockquote"@), s, i + 1),
        Tag::CodeBlock(kind) => (
            code_block_open(c, kind),
            StateModel { in_code_block: true, ..s },
            i + 1,
        ),
        Tag::HtmlBlock => (Seq::empty(), s, i + 1),
        Tag::List(first) => (list_open(c, first), list_open_state(s, first), i + 1),
        Tag::Item => (open_tag(c, "li"@), s, i + 1),
        Tag::FootnoteDefinition(name) => (
            footnote_definition_open(name@),
            StateModel { in_footnote: true, ..s },
            i + 1,
        ),
        Tag::DefinitionList => (open_tag(c, "dl"@), s, i + 1),
        Tag::DefinitionListTitle => (open_tag(c, "dt"@), s, i + 1),
        Tag::DefinitionListDefinition => (open_tag(c, "dd"@), s, i + 1),
        Tag::Table(alignments) => (open_tag(c, "table"@), table_open_state(s, alignments@), i + 1),
        Tag::TableHead => ("<thead><tr>"@, StateModel { table_cell_index: 0, ..s }, i + 1),
        Tag::TableRow => ("<tr>"@, row_open_state(s), i + 1),
        Tag::TableCell => (cell_open(c, s), cell_open_state(s), i + 1),
        Tag::Emphasis => (open_tag(c, "em"@), s, i + 1),
        Tag::Strong => (open_tag(c, "strong"@), s, i + 1),
        Tag::Strikethrough => (open_tag(c, "del"@), s, i + 1),
        Tag::Link { link_type, dest_url, title, id } => (link_open(c, dest_url@, title@), s, i + 1),
        Tag::Image { link_type, dest_url, title, id } => {
            let alt = alt_scan(ev, i + 1, 0);
            (image_tag(c, dest_url@, title@, alt.0), s, alt.1)
        },
        Tag::MetadataBlock(_) => (Seq::empty(), s, i + 1),
    }
}

/// The markup written for the `End` of `tag`, and the state after it.
pub open spec fn end_step(c: HtmlConfig, s: StateModel, tag: TagEnd) -> (Seq<char>, StateModel) {
    match tag {
        TagEnd::Paragraph => (
            if s.in_footnote {
                Seq::empty()
            } else {
                "</p>"@
            },
            s,
        ),
        TagEnd::Heading(level) => ("</"@ + heading_tag(level) + ">"@, heading_close_state(s)),
        TagEnd::BlockQuote => ("</blockquote>"@, s),
        TagEnd::CodeBlock => ("</code></pre>"@, StateModel { in_code_block: false, ..s }),
        TagEnd::HtmlBlock => (Seq::empty(), s),
        TagEnd::List(ordered) => (
            if ordered {
                "</ol>"@
            } else {
                "</ul>"@
            },
            list_close_state(s, ordered),
        ),
        TagEnd::Item => ("</li>"@, s),
        TagEnd::FootnoteDefinition => ("</div>"@, StateModel { in_footnote: false, ..s }),
        TagEnd::DefinitionList => ("</dl>"@, s),
        TagEnd::DefinitionListTitle => ("</dt>"@, s),
        TagEnd::DefinitionListDefinition => ("</dd>"@, s),
        TagEnd::Table => (
            "</tbody></table>"@,
            StateModel { table_state: TableContext::NotInTable, ..s },
        ),
        TagEnd::TableHead => ("</tr></thead><tbody>"@, s),
        TagEnd::TableRow => ("</tr>"@, s),
        TagEnd::TableCell => ("</"@ + cell_tag(s) + ">"@, s),
        TagEnd::Emphasis => ("</em>"@, s),
        TagEnd::Strong => ("</strong>"@, s),
        TagEnd::Strikethrough => ("</del>"@, s),
        TagEnd::Link => ("</a>"@, s),
        TagEnd::Image => (Seq::empty(), s),
        TagEnd::MetadataBlock(_) => (Seq::empty(), s),
    }
}

/// The markup written for an event that neither starts nor ends a construct.
pub open spec fn leaf_markup(c: HtmlConfig, e: Event) -> Seq<char> {
    match e {
        Event::Text(t) => text_markup(c, t@),
        Event::Code(t) => open_tag(c, "code"@) + text_markup(c, t@) + "</code>"@,
        Event::Html(h) => h@,
        Event::SoftBreak => soft_break_markup(c),
        Event::HardBreak => "<br>"@,
        Event::Rule => "<hr>"@,
        Event::FootnoteReference(name) => footnote_reference_markup(name@),
        Event::TaskListMarker(checked) => task_marker(checked),
        _ => Seq::empty(),
    }
}

/// The markup written for the event at position `i`, the state after it, and
/// the position of the next event to render.
pub open spec fn render_step(c: HtmlConfig, s: StateModel, ev: Seq<Event>, i: int) -> (
    Seq<char>,
    StateModel,
    int,
) {
    match ev[i] {
        Event::Start(tag) => start_step(c, s, tag, ev, i),
        Event::End(tag) => {
            let (m, s2) = end_step(c, s, tag);
            (m, s2, i + 1)
        },
        e => (leaf_markup(c, e), s, i + 1),
    }
}

/// The markup of the events from position `i` on, rendered from state `s`,
/// and the state at the end.
pub open spec fn render_from(c: HtmlConfig, s: StateModel, ev: Seq<Event>, i: int) -> (
    Seq<char>,
    StateModel,
)
    decreases ev.len() - i,
{
    if i < 0 || i >= ev.len() {
        (Seq::empty(), s)
    } else {
        let (m, s2, j) = render_step(c, s, ev, i);
        if i < j <= ev.len() {
            let (rest, s3) = render_from(c, s2, ev, j);
            (m + rest, s3)
        } else {
            (m, s2)
        }
    }
}

/// The markup of a whole document.
pub open spec fn rendered(c: HtmlConfig, ev: Seq<Event>) -> Seq<char> {
    render_from(c, StateModel::initial(), ev, 0).0
}

/// Drives a writer over the events of a document.
pub struct HtmlRenderer<'a> {
    /// The writer the events are dispatched to.
    pub writer: DefaultHtmlWriter<'a>,
}

impl<'a> HtmlRenderer<'a> {
    /// A renderer around `writer`.
    pub fn new(writer: DefaultHtmlWriter<'a>) -> (r: HtmlRenderer<'a>)
        ensures
            r.writer == writer,
    {
        HtmlRenderer { writer }
    }

    fn handle_start(&mut self, tag: &Tag, events: &Vec<Event>, i: usize) -> (r: Result<
        usize,
        HtmlError,
    >)
        requires
            i < events@.len() <= usize::MAX,
            events@[i as int] == Event::Start(*tag),
        ensures
            ({
                let (m, s2, j) = start_step(
                    *old(self).writer.config,
                    old(self).writer.state@,
                    *tag,
                    events@,
                    i as int,
                );
                &&& r == Ok::<usize, HtmlError>(j as usize)
                &&& final(self).writer.output@ == old(self).writer.output@ + m
                &&& final(self).writer.state@ == s2
                &&& final(self).writer.config == old(self).writer.config
                &&& i < j <= events@.len()
            }),
    {
        let after = i + 1;
        let w = &mut self.writer;
        match tag {
            Tag::Paragraph => w.start_paragraph()?,
            Tag::Heading { level, id, classes, attrs } => {
                let idr: Option<&str> = match id {
                    Some(x) => Some(x.as_str()),
                    None => None,
                };
                w.start_heading(*level, idr, classes, attrs)?
            },
            Tag::BlockQuote => w.start_blockquote()?,
            Tag::CodeBlock(kind) => w.start_code_block(kind)?,
            Tag::HtmlBlock => {},
            Tag::List(first) => w.start_list(*first)?,
            Tag::Item => w.start_list_item()?,
            Tag::FootnoteDefinition(name) => w.start_footnote_definition(name.as_str())?,
            Tag::DefinitionList => w.start_definition_list()?,
            Tag::DefinitionListTitle => w.start_definition_list_title()?,
            Tag::DefinitionListDefinition => w.start_definition_list_definition()?,
            Tag::Table(alignments) => w.start_table(copy_alignments(alignments))?,
            Tag::TableHead => w.start_table_head()?,
            Tag::TableRow => w.start_table_row()?,
            Tag::TableCell => w.start_table_cell()?,
            Tag::Emphasis => w.start_emphasis()?,
            Tag::Strong => w.start_strong()?,
            Tag::Strikethrough => w.start_strikethrough()?,
            Tag::Link { link_type, dest_url, title, id } => w.start_link(
                *link_type,
                dest_url.as_str(),
                title.as_str(),
            )?,
            Tag::Image { link_type, dest_url, title, id } => {
                let (alt, next) = collect_alt_text(events, after);
                proof {
                    lemma_alt_scan_bounds(events@, i + 1, 0);
                }
                w.start_image(*link_type, dest_url.as_str(), title.as_str(), alt.as_str())?;
                return Ok(next);
            },
            Tag::MetadataBlock(kind) => w.start_metadata_block(kind)?,
        }
        Ok(after)
    }
    fn handle_end(&mut self, tag: TagEnd) -> (r: Result<(), HtmlError>)
        ensures
            ({
                let (m, s2) = end_step(*old(self).writer.config, old(self).writer.state@, tag);
                &&& r is Ok
                &&& final(self).writer.output@ == old(self).writer.output@ + m
                &&& final(self).writer.state@ == s2
                &&& final(self).writer.config == old(self).writer.config
            }),
    {
        let w = &mut self.writer;
        match tag {
            TagEnd::Paragraph => w.end_paragraph(),
            TagEnd::Heading(level) => w.end_heading(level),
            TagEnd::BlockQuote => w.end_blockquote(),
            TagEnd::CodeBlock => w.end_code_block(),
            TagEnd::HtmlBlock => Ok(()),
            TagEnd::List(ordered) => w.end_list(ordered),
            TagEnd::Item => w.end_list_item(),
            TagEnd::FootnoteDefinition => w.end_footnote_definition(),
            TagEnd::DefinitionList => w.end_definition_list(),
            TagEnd::DefinitionListTitle => w.end_definition_list_title(),
            TagEnd::DefinitionListDefinition => w.end_definition_list_definition(),
            TagEnd::Table => w.end_table(),
            TagEnd::TableHead => w.end_table_head(),
            TagEnd::TableRow => w.end_table_row(),
            TagEnd::TableCell => w.end_table_cell(),
            TagEnd::Emphasis => w.end_emphasis(),
            TagEnd::Strong => w.end_strong(),
            TagEnd::Strikethrough => w.end_strikethrough(),
            TagEnd::Link => w.end_link(),
            TagEnd::Image => w.end_image(),
            TagEnd::MetadataBlock(_) => w.end_metadata_block(),
        }
    }

    fn handle_inline_code(&mut self, text: &str) -> (r: Result<(), HtmlError>)
        ensures
            r is Ok,
            final(self).writer.appended(
                &old(self).writer,
                open_tag(*old(self).writer.config, "code"@) + text_markup(
                    *old(self).writer.config,
                    text@,
                ) + "</code>"@,
            ),
    {
        let ghost start = self.writer.output@;
        self.writer.start_inline_code()?;
        self.writer.text(text)?;
        self.writer.end_inline_code()?;
        assert(self.writer.output@ =~= start + (open_tag(*self.writer.config, "code"@)
            + text_markup(*self.writer.config, text@) + "</code>"@));
        Ok(())
    }

    fn handle_event(&mut self, events: &Vec<Event>, i: usize) -> (r: Result<usize, HtmlError>)
        requires
            i < events@.len() <= usize::MAX,
        ensures
            ({
                let (m, s2, j) = render_step(
                    *old(self).writer.config,
                    old(self).writer.state@,
                    events@,
                    i as int,
                );
                &&& r == Ok::<usize, HtmlError>(j as usize)
                &&& final(self).writer.output@ == old(self).writer.output@ + m
                &&& final(self).writer.state@ == s2
                &&& final(self).writer.config == old(self).writer.config
                &&& i < j <= events@.len()
            }),
    {
        let after = i + 1;
        match &events[i] {
            Event::Start(tag) => {
                return self.handle_start(tag, events, i);
            },
            Event::End(tag) => self.handle_end(*tag)?,
            Event::Text(t) => self.writer.text(t.as_str())?,
            Event::Code(t) => self.handle_inline_code(t.as_str())?,
            Event::Html(h) => self.writer.html_raw(h.as_str())?,
            Event::SoftBreak => self.writer.soft_break()?,
            Event::HardBreak => self.writer.hard_break()?,
            Event::Rule => self.writer.horizontal_rule()?,
            Event::FootnoteReference(name) => self.writer.footnote_reference(name.as_str())?,
            Event::TaskListMarker(checked) => self.writer.task_list_item(*checked)?,
        }
        Ok(after)
    }

    /// Renders the events of a document, in order, through the writer.
    pub fn run(&mut self, events: &Vec<Event>) -> (r: Result<(), HtmlError>)
        ensures
            r is Ok,
            final(self).writer.config == old(self).writer.config,
            final(self).writer.output@ == old(self).writer.output@ + render_from(
                *old(self).writer.config,
                old(self).writer.state@,
                events@,
                0,
            ).0,
            final(self).writer.state@ == render_from(
                *old(self).writer.config,
                old(self).writer.state@,
                events@,
                0,
            ).1,
    {
        let ghost c = *self.writer.config;
        let ghost whole = render_from(c, self.writer.state@, events@, 0);
        let ghost start = self.writer.output@;
        let n = events.len();
        let mut i: usize = 0;
        while i < n
            invariant
                n == events@.len(),
                i <= n,
                *self.writer.config == c,
                self.writer.config == old(self).writer.config,
                whole == render_from(c, old(self).writer.state@, events@, 0),
                start == old(self).writer.output@,
                start + whole.0 == self.writer.output@ + render_from(
                    c,
                    self.writer.state@,
                    events@,
                    i as int,
                ).0,
                whole.1 == render_from(c, self.writer.state@, events@, i as int).1,
            decreases n - i,
        {
            let ghost before = self.writer.output@;
            let ghost s = self.writer.state@;
            let next = self.handle_event(events, i)?;
            proof {
                let (m, s2, j) = render_step(c, s, events@, i as int);
                let rest = render_from(c, s2, events@, j);
                assert(render_from(c, s, events@, i as int) == (m + rest.0, rest.1));
                assert(before + (m + rest.0) =~= self.writer.output@ + rest.0);
            }
            i = next;
        }
        assert(start + whole.0 =~= self.writer.output@);
        Ok(())
    }
}

/// A renderer around `writer`.
pub fn create_html_renderer<'a>(writer: DefaultHtmlWriter<'a>) -> (r: HtmlRenderer<'a>)
    ensures
        r.writer == writer,
{
    HtmlRenderer::new(writer)
}

/// Renders the events of a document with `config` and appends the markup to
/// `output`.
pub fn push_html(output: &mut String, events: &Vec<Event>, config: &HtmlConfig) -> (r: Result<
    (),
    HtmlError,
>)
    ensures
        r is Ok,
        final(output)@ == old(output)@ + rendered(*config, events@),
{
    let writer = DefaultHtmlWriter::new(config);
    let mut renderer = HtmlRenderer::new(writer);
    renderer.run(events)?;
    output.append(renderer.writer.output.as_str());
    Ok(())
}

} // verus!
