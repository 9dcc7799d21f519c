//! Properties of rendering that hold for every input.

use vstd::prelude::*;
use crate::config::HtmlConfig;
use crate::event::{Alignment, Event, HeadingLevel, Tag, TagEnd};
use crate::markup::{configured_attrs, decimal, digit_char, has_prefix};
use crate::renderer::{alt_piece, alt_scan, lemma_alt_scan_bounds, leaf_markup, render_from, render_step};
use crate::state::{StateModel, TableContext};
use crate::utils::{html_escape_char, html_escaped};
use crate::writer::{cell_open, cell_tag, table_open_state, heading_attrs_text, heading_classes, heading_id, join_spaced, heading_open, heading_open_state, heading_tag, is_external, link_open, list_open, text_markup};

verus! {

/// Escaping leaves alone text without `<`, `>`, `"`, `&` or `'`.
pub proof fn lemma_escape_plain(s: Seq<char>)
    requires
        forall|i: int|
            0 <= i < s.len() ==> #[trigger] s[i] != '<' && s[i] != '>' && s[i] != '"' && s[i]
                != '&' && s[i] != '\'',
    ensures
        html_escaped(s) == s,
    decreases s.len(),
{
    if s.len() > 0 {
        lemma_escape_plain(s.drop_last());
        assert(html_escape_char(s.last()) == seq![s.last()]);
        assert(s.drop_last().push(s.last()) =~= s);
    }
}

/// With the default configuration, a heading without an explicit id gets the
/// id `heading-` followed by its level, and that id is pushed on the heading
/// stack.
pub proof fn law_default_heading_id(
    c: HtmlConfig,
    s: StateModel,
    level: HeadingLevel,
    classes: Seq<String>,
    attrs: Seq<(String, Option<String>)>,
)
    requires
        c.is_default(),
    ensures
        has_prefix(
            heading_open(c, level, None, classes, attrs),
            "<"@ + heading_tag(level) + " id=\""@ + "heading-"@ + decimal(level.spec_number() as u64)
                + "\""@,
        ),
        heading_open_state(c, s, level, None).heading_stack == s.heading_stack.push(
            "heading-"@ + decimal(level.spec_number() as u64),
        ),
{
    let n = level.spec_number() as u64;
    let id = "heading-"@ + decimal(n);
    reveal_strlit("heading-");
    assert(decimal(n) == seq![digit_char(n)]);
    assert(digit_char(n) == '1' || digit_char(n) == '2' || digit_char(n) == '3' || digit_char(n)
        == '4' || digit_char(n) == '5' || digit_char(n) == '6');
    lemma_escape_plain(id);
    assert(heading_id(c, level, None) == id);
    let whole = heading_open(c, level, None, classes, attrs);
    let head = "<"@ + heading_tag(level) + " id=\""@ + "heading-"@ + decimal(n) + "\""@;
    let all = heading_classes(c, level, classes);
    let class_part = if all.len() > 0 {
        " class=\""@ + html_escaped(join_spaced(all)) + "\""@
    } else {
        Seq::empty()
    };
    let rest = class_part + heading_attrs_text(attrs) + configured_attrs(c, heading_tag(level))
        + ">"@;
    assert(whole =~= head + rest);
    assert(whole.subrange(0, head.len() as int) =~= head);
}

/// An ordered list with no configured attributes opens with a `start`
/// attribute exactly when it does not start at 1.
pub proof fn law_ordered_list_start(c: HtmlConfig, n: u64)
    requires
        configured_attrs(c, "ol"@).len() == 0,
    ensures
        n == 1 ==> list_open(c, Some(n)) == "<ol>"@,
        n != 1 ==> list_open(c, Some(n)) == "<ol start=\""@ + decimal(n) + "\">"@,
{
    reveal_strlit("<ol>");
    reveal_strlit("<");
    reveal_strlit("ol");
    reveal_strlit(">");
    reveal_strlit("<ol start=\"");
    reveal_strlit(" start=\"");
    reveal_strlit("\"");
    reveal_strlit("\">");
    if n == 1 {
        assert(list_open(c, Some(n)) =~= "<ol>"@);
    } else {
        assert(list_open(c, Some(n)) =~= "<ol start=\""@ + decimal(n) + "\">"@);
    }
}

/// A link to a destination starting with `http://` or `https://` gets
/// `rel="nofollow"` and `target="_blank"` when both link options are on; a
/// link to any other destination gets neither, whatever the options.
pub proof fn law_external_links(c: HtmlConfig, dest: Seq<char>, title: Seq<char>)
    ensures
        ({
            let title_part = if title.len() > 0 {
                "\" title=\""@ + html_escaped(title)
            } else {
                Seq::empty()
            };
            let base = "<a href=\""@ + crate::utils::href_escaped(dest) + title_part;
            let tail = "\""@ + configured_attrs(c, "a"@) + ">"@;
            &&& (has_prefix(dest, "http://"@) || has_prefix(dest, "https://"@))
                && c.elements.links.nofollow_external && c.elements.links.open_external_blank
                ==> link_open(c, dest, title) == base + "\" rel=\"nofollow"@
                + "\" target=\"_blank"@ + tail
            &&& !(has_prefix(dest, "http://"@) || has_prefix(dest, "https://"@)) ==> link_open(
                c,
                dest,
                title,
            ) == base + tail
        }),
{
    let title_part = if title.len() > 0 {
        "\" title=\""@ + html_escaped(title)
    } else {
        Seq::empty()
    };
    let base = "<a href=\""@ + crate::utils::href_escaped(dest) + title_part;
    let tail = "\""@ + configured_attrs(c, "a"@) + ">"@;
    if is_external(dest) && c.elements.links.nofollow_external
        && c.elements.links.open_external_blank {
        assert(link_open(c, dest, title) =~= base + "\" rel=\"nofollow"@ + "\" target=\"_blank"@
            + tail);
    }
    if !is_external(dest) {
        assert(link_open(c, dest, title) =~= base + tail);
    }
}

/// Text is escaped once, when it is written, and only where the
/// configuration asks for it; markup passed through is never escaped.
pub proof fn law_escape_once(c: HtmlConfig, s: StateModel, t: String)
    ensures
        render_from(c, s, seq![Event::Text(t)], 0).0 == if c.html.escape_html {
            html_escaped(t@)
        } else {
            t@
        },
        render_from(c, s, seq![Event::Html(t)], 0).0 == t@,
{
    let e1 = seq![Event::Text(t)];
    let e2 = seq![Event::Html(t)];
    assert(render_from(c, s, e1, 1).0 == Seq::<char>::empty());
    assert(render_from(c, s, e2, 1).0 == Seq::<char>::empty());
    assert(render_from(c, s, e1, 0).0 =~= text_markup(c, t@));
    assert(render_from(c, s, e2, 0).0 =~= t@);
}

/// How much deeper an event takes the nesting of constructs.
pub open spec fn nest_change(e: Event) -> int {
    match e {
        Event::Start(_) => 1,
        Event::End(_) => -1,
        _ => 0,
    }
}

/// How much deeper a run of events leaves the nesting.
pub open spec fn balance(s: Seq<Event>) -> int
    decreases s.len(),
{
    if s.len() == 0 {
        0
    } else {
        nest_change(s[0]) + balance(s.drop_first())
    }
}

/// The content of a run of events with every construct taken away: text and
/// inline code as they are, a space for each line break.
pub open spec fn flat_text(s: Seq<Event>) -> Seq<char>
    decreases s.len(),
{
    if s.len() == 0 {
        Seq::empty()
    } else {
        alt_piece(s[0]) + flat_text(s.drop_first())
    }
}

/// Whether the event at `m` is an `End` met at depth zero, reading from `i`
/// at depth `d`.
pub open spec fn closes_at(ev: Seq<Event>, i: int, d: int, m: int) -> bool {
    ev[m] is End && d + balance(ev.subrange(i, m)) == 0
}

/// The alternative text of an image is the content of the events nested in
/// it with all markup flattened away, and the lookahead stops at the `End`
/// that matches the image, however deeply constructs nest before it. Reading
/// from `i` at depth `d` (0 for an image), the lookahead stops at `stop`:
/// either an `End` met at depth zero, consumed, or the end of the events.
/// Before it the depth never drops below zero and no `End` meets depth zero.
pub proof fn law_alt_text(ev: Seq<Event>, i: int, d: nat)
    requires
        0 <= i <= ev.len(),
    ensures
        ({
            let (alt, j) = alt_scan(ev, i, d);
            let ended = j > i && closes_at(ev, i, d as int, j - 1);
            let stop = if ended {
                j - 1
            } else {
                j
            };
            &&& i <= stop <= j <= ev.len()
            &&& ended || j == ev.len()
            &&& alt == flat_text(ev.subrange(i, stop))
            &&& forall|m: int|
                i <= m < stop ==> d + #[trigger] balance(ev.subrange(i, m)) >= 0 && !closes_at(
                    ev,
                    i,
                    d as int,
                    m,
                )
        }),
    decreases ev.len() - i,
{
    if i < ev.len() {
        let e = ev[i];
        let d2: nat = match e {
            Event::Start(_) => d + 1,
            Event::End(_) => if d > 0 {
                (d - 1) as nat
            } else {
                0
            },
            _ => d,
        };
        assert(ev.subrange(i, i) =~= Seq::<Event>::empty());
        if e is End && d == 0 {
            assert(alt_scan(ev, i, d) == (Seq::<char>::empty(), i + 1));
            assert(closes_at(ev, i, 0, i));
        } else {
            law_alt_text(ev, i + 1, d2);
            let (alt2, j) = alt_scan(ev, i + 1, d2);
            let ended2 = j > i + 1 && closes_at(ev, i + 1, d2 as int, j - 1);
            let stop2 = if ended2 {
                j - 1
            } else {
                j
            };
            assert forall|m: int| i + 1 <= m <= ev.len() implies #[trigger] balance(
                ev.subrange(i, m),
            ) == nest_change(e) + balance(ev.subrange(i + 1, m)) by {
                assert(ev.subrange(i, m).drop_first() =~= ev.subrange(i + 1, m));
            }
            assert(d + nest_change(e) == d2);
            lemma_alt_scan_bounds(ev, i + 1, d2);
            if j > i + 1 {
                assert(closes_at(ev, i, d as int, j - 1) == closes_at(ev, i + 1, d2 as int, j - 1));
            } else {
                assert(!closes_at(ev, i, d as int, i));
            }
            assert(alt_scan(ev, i, d).1 == j);
            assert(alt_scan(ev, i, d).0 == alt_piece(e) + alt2);
            assert(ev.subrange(i, stop2).drop_first() =~= ev.subrange(i + 1, stop2));
            assert forall|m: int| i <= m < stop2 implies d + balance(ev.subrange(i, m)) >= 0
                && !closes_at(ev, i, d as int, m) by {
                if m > i {
                    assert(d2 + balance(ev.subrange(i + 1, m)) >= 0);
                    assert(!closes_at(ev, i + 1, d2 as int, m));
                } else {
                    assert(ev.subrange(i, m) =~= Seq::<Event>::empty());
                }
            }
        }
    }
}

/// Whether an event is rendered without looking ahead: anything but the
/// start of an image.
pub open spec fn no_lookahead(e: Event) -> bool {
    !(e matches Event::Start(Tag::Image { .. }))
}

/// Rendering from `i` is rendering up to `k`, then from `k` on in the state
/// reached there, where nothing in between looks ahead.
pub proof fn lemma_render_split(c: HtmlConfig, s: StateModel, ev: Seq<Event>, i: int, k: int)
    requires
        0 <= i <= k <= ev.len(),
        forall|m: int| i <= m < k ==> #[trigger] no_lookahead(ev[m]),
    ensures
        ({
            let p = render_from(c, s, ev.subrange(0, k), i);
            let r = render_from(c, p.1, ev, k);
            render_from(c, s, ev, i) == (p.0 + r.0, r.1)
        }),
    decreases k - i,
{
    let pre = ev.subrange(0, k);
    if i == k {
        let r = render_from(c, s, ev, k);
        assert(Seq::<char>::empty() + r.0 =~= r.0);
    } else {
        assert(no_lookahead(ev[i]));
        assert(pre[i] == ev[i]);
        assert(render_step(c, s, ev, i) == render_step(c, s, pre, i));
        let (m, s2, j) = render_step(c, s, ev, i);
        assert(j == i + 1);
        lemma_render_split(c, s2, ev, i + 1, k);
        let mid = render_from(c, s2, pre, i + 1);
        let r = render_from(c, mid.1, ev, k);
        assert(m + (mid.0 + r.0) =~= (m + mid.0) + r.0);
    }
}

/// The state after the first `k` events is the state after the first `k - 1`
/// moved on by the event at `k - 1`.
pub proof fn lemma_state_prefix(c: HtmlConfig, s: StateModel, ev: Seq<Event>, k: int)
    requires
        0 <= k < ev.len(),
        forall|m: int| 0 <= m <= k ==> #[trigger] no_lookahead(ev[m]),
    ensures
        render_from(c, s, ev.subrange(0, k + 1), 0).1 == render_step(
            c,
            render_from(c, s, ev.subrange(0, k), 0).1,
            ev,
            k,
        ).1,
{
    let pre = ev.subrange(0, k + 1);
    lemma_render_split(c, s, pre, 0, k);
    assert(pre.subrange(0, k) =~= ev.subrange(0, k));
    let st = render_from(c, s, ev.subrange(0, k), 0).1;
    assert(pre[k] == ev[k]);
    assert(no_lookahead(ev[k]));
    assert(render_step(c, st, pre, k) == render_step(c, st, ev, k));
    let (m, s2, j) = render_step(c, st, pre, k);
    assert(j == k + 1);
    assert(render_from(c, s2, pre, k + 1) == (Seq::<char>::empty(), s2));
}

/// Whether an event may stand inside a table without ending it: anything
/// but the start or end of a table, or an image.
pub open spec fn table_content(e: Event) -> bool {
    &&& no_lookahead(e)
    &&& !(e matches Event::Start(Tag::Table(_)))
    &&& e != Event::End(TagEnd::Table)
}

/// Whether one of the first `k` events starts a table row.
pub open spec fn row_started(ev: Seq<Event>, k: int) -> bool {
    exists|j: int| 0 <= j < k && ev[j] == Event::Start(Tag::TableRow)
}

/// Within a table, only the start of a row moves the table phase, and only
/// from the header to the body.
pub proof fn lemma_table_phase_step(c: HtmlConfig, s: StateModel, ev: Seq<Event>, k: int)
    requires
        0 <= k < ev.len(),
        table_content(ev[k]),
    ensures
        render_step(c, s, ev, k).1.table_state == if ev[k] == Event::Start(Tag::TableRow)
            && s.table_state == TableContext::InHeader {
            TableContext::InBody
        } else {
            s.table_state
        },
{
    match ev[k] {
        Event::Start(tag) => {
            assert(tag is TableRow ==> ev[k] == Event::Start(Tag::TableRow));
        },
        Event::End(tag) => {},
        _ => {},
    }
}

/// From a table's header, the phase after the first `k` events is the body
/// exactly where one of them starts a row.
proof fn lemma_table_phase(c: HtmlConfig, s0: StateModel, ev: Seq<Event>, k: int)
    requires
        s0.table_state == TableContext::InHeader,
        0 <= k <= ev.len(),
        forall|m: int| 0 <= m < ev.len() ==> #[trigger] table_content(ev[m]),
    ensures
        render_from(c, s0, ev.subrange(0, k), 0).1.table_state == if row_started(ev, k) {
            TableContext::InBody
        } else {
            TableContext::InHeader
        },
    decreases k,
{
    if k == 0 {
        assert(ev.subrange(0, 0) =~= Seq::<Event>::empty());
        assert(!row_started(ev, 0));
    } else {
        lemma_table_phase(c, s0, ev, k - 1);
        assert(table_content(ev[k - 1]));
        assert forall|m: int| 0 <= m <= k - 1 implies #[trigger] no_lookahead(ev[m]) by {
            assert(table_content(ev[m]));
        }
        lemma_state_prefix(c, s0, ev, k - 1);
        let prev = render_from(c, s0, ev.subrange(0, k - 1), 0).1;
        lemma_table_phase_step(c, prev, ev, k - 1);
        if ev[k - 1] == Event::Start(Tag::TableRow) {
            assert(row_started(ev, k));
        } else {
            if row_started(ev, k) {
                let j = choose|j: int| 0 <= j < k && ev[j] == Event::Start(Tag::TableRow);
                assert(row_started(ev, k - 1));
            }
            if row_started(ev, k - 1) {
                let j = choose|j: int| 0 <= j < k - 1 && ev[j] == Event::Start(Tag::TableRow);
                assert(row_started(ev, k));
            }
        }
    }
}

/// Inside a table, every cell is a header cell (`th`) until the first body
/// row starts, and a data cell (`td`) from then on, however many rows and
/// columns there are. Rendering the events that follow the table's start is
/// rendering the first `k` of them, then the rest in the state `st` reached
/// there; a cell that starts at `k` opens with the tag that `st` gives.
pub proof fn law_table_cells(
    c: HtmlConfig,
    s: StateModel,
    alignments: Seq<Alignment>,
    ev: Seq<Event>,
    k: int,
)
    requires
        0 <= k <= ev.len(),
        forall|m: int| 0 <= m < ev.len() ==> #[trigger] table_content(ev[m]),
    ensures
        ({
            let s0 = table_open_state(s, alignments);
            let st = render_from(c, s0, ev.subrange(0, k), 0).1;
            &&& render_from(c, s0, ev, 0).0 == render_from(c, s0, ev.subrange(0, k), 0).0
                + render_from(c, st, ev, k).0
            &&& st.table_state == if row_started(ev, k) {
                TableContext::InBody
            } else {
                TableContext::InHeader
            }
            &&& cell_tag(st) == if row_started(ev, k) {
                "td"@
            } else {
                "th"@
            }
            &&& k < ev.len() && ev[k] == Event::Start(Tag::TableCell) ==> has_prefix(
                render_from(c, st, ev, k).0,
                cell_open(c, st),
            )
        }),
    decreases k,
{
    let s0 = table_open_state(s, alignments);
    assert forall|m: int| 0 <= m < k implies #[trigger] no_lookahead(ev[m]) by {
        assert(table_content(ev[m]));
    }
    lemma_render_split(c, s0, ev, 0, k);
    lemma_table_phase(c, s0, ev, k);
    let st = render_from(c, s0, ev.subrange(0, k), 0).1;
    if k < ev.len() && ev[k] == Event::Start(Tag::TableCell) {
        let (m, s2, j) = render_step(c, st, ev, k);
        let rest = render_from(c, s2, ev, j);
        assert(render_from(c, st, ev, k).0 == m + rest.0);
        assert((m + rest.0).subrange(0, m.len() as int) =~= m);
    }
}

} // verus!
