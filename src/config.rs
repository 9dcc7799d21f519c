//! The configuration that parameterizes every rendering decision.

use std::collections::HashMap;
use vstd::prelude::*;
use crate::error::HtmlError;

verus! {

broadcast use vstd::std_specs::hash::group_hash_axioms;

/// How highlighted code names its CSS classes.
#[derive(Clone, Debug, PartialEq, Eq)]
pub enum ClassStyle {
    /// Plain scope names, separated by spaces.
    Spaced,
    /// Scope names with a prefix, separated by spaces.
    SpacedPrefixed { prefix: String },
}

/// The class style that a highlighting configuration gets when it names none.
pub fn default_class_style() -> (r: ClassStyle)
    ensures
        r == ClassStyle::Spaced,
{
    ClassStyle::Spaced
}

/// Whether a highlighting configuration injects its CSS when it does not say.
pub fn default_inject_css() -> (r: bool)
    ensures
        r,
{
    true
}

/// The style part of a syntax-highlighting configuration.
#[derive(Clone, Debug, PartialEq, Eq)]
pub struct SyntectConfigStyle {
    /// Name of the theme to use (e.g. "base16-ocean.dark").
    pub theme: String,
    /// Style of the CSS classes to generate.
    pub class_style: ClassStyle,
    /// Whether to put the theme's CSS in the output.
    pub inject_css: bool,
}

impl Default for SyntectConfigStyle {
    fn default() -> (r: SyntectConfigStyle)
        ensures
            r.theme@ == "base16-ocean.dark"@,
            r.class_style == ClassStyle::Spaced,
            r.inject_css,
    {
        SyntectConfigStyle {
            theme: String::from_str("base16-ocean.dark"),
            class_style: default_class_style(),
            inject_css: default_inject_css(),
        }
    }
}

/// A complete syntax-highlighting configuration.
#[derive(Clone, Debug, PartialEq, Eq)]
pub struct SyntectConfig {
    /// The style to highlight with.
    pub style: SyntectConfigStyle,
}

impl Default for SyntectConfig {
    fn default() -> (r: SyntectConfig)
        ensures
            r.style.theme@ == "base16-ocean.dark"@,
            r.style.class_style == ClassStyle::Spaced,
            r.style.inject_css,
    {
        SyntectConfig { style: SyntectConfigStyle::default() }
    }
}

/// Options of the HTML output as a whole.
#[derive(Clone, Debug)]
pub struct HtmlOptions {
    /// Whether body text is escaped.
    pub escape_html: bool,
    /// Whether a soft line break becomes `<br>`.
    pub break_on_newline: bool,
    /// Whether void elements are closed XHTML-style (` />`).
    pub xhtml_style: bool,
    /// Whether block elements are followed by newlines.
    pub pretty_print: bool,
}

/// Options of the individual kinds of element.
#[derive(Clone, Debug)]
pub struct ElementOptions {
    pub headings: HeadingOptions,
    pub links: LinkOptions,
    pub code_blocks: CodeBlockOptions,
}

/// Options of headings.
#[derive(Clone, Debug)]
pub struct HeadingOptions {
    /// Whether headings get an `id` attribute.
    pub add_ids: bool,
    /// Prefix of the generated heading ids.
    pub id_prefix: String,
    /// A CSS class for each heading level (1 to 6) that has one.
    pub level_classes: HashMap<u8, String>,
}

/// Options of links.
#[derive(Clone, Debug)]
pub struct LinkOptions {
    /// Whether external links get `rel="nofollow"`.
    pub nofollow_external: bool,
    /// Whether external links get `target="_blank"`.
    pub open_external_blank: bool,
}

/// Options of code blocks.
#[derive(Clone, Debug)]
pub struct CodeBlockOptions {
    /// The language of code blocks that name none.
    pub default_language: Option<String>,
    /// Whether code blocks get line numbers.
    pub line_numbers: bool,
}

/// Literal attributes added to elements, by element name.
#[derive(Clone, Debug)]
pub struct AttributeMappings {
    /// For each element name, its attributes in the order they are written.
    /// Where a name occurs twice, the first entry counts.
    pub element_attributes: Vec<(String, Vec<(String, String)>)>,
}

/// The attributes that `entries` gives the element called `name`: those of
/// its first entry.
pub open spec fn attributes_for(
    entries: Seq<(String, Vec<(String, String)>)>,
    name: Seq<char>,
) -> Option<Seq<(String, String)>>
    decreases entries.len(),
{
    if entries.len() == 0 {
        None
    } else if entries[0].0@ == name {
        Some(entries[0].1@)
    } else {
        attributes_for(entries.drop_first(), name)
    }
}

impl AttributeMappings {
    /// No attributes for any element.
    pub fn new() -> (r: AttributeMappings)
        ensures
            r.element_attributes@.len() == 0,
    {
        AttributeMappings { element_attributes: Vec::new() }
    }

    /// The attributes configured for the element called `name`, if any.
    pub fn get(&self, name: &str) -> (r: Option<&Vec<(String, String)>>)
        ensures
            match r {
                Some(v) => attributes_for(self.element_attributes@, name@) == Some(v@),
                None => attributes_for(self.element_attributes@, name@) is None,
            },
    {
        let key = String::from_str(name);
        let n = self.element_attributes.len();
        let mut i: usize = 0;
        assert(self.element_attributes@.subrange(0, n as int) == self.element_attributes@);
        while i < n
            invariant
                n == self.element_attributes@.len(),
                i <= n,
                key@ == name@,
                attributes_for(self.element_attributes@, name@) == attributes_for(
                    self.element_attributes@.subrange(i as int, n as int),
                    name@,
                ),
            decreases n - i,
        {
            let ghost rest = self.element_attributes@.subrange(i as int, n as int);
            assert(rest.drop_first() == self.element_attributes@.subrange(i + 1, n as int));
            if self.element_attributes[i].0 == key {
                return Some(&self.element_attributes[i].1);
            }
            i = i + 1;
        }
        None
    }

    /// Sets the attributes of the element called `name`, in place of the
    /// ones it had.
    pub fn insert(&mut self, name: String, attrs: Vec<(String, String)>)
        ensures
            attributes_for(final(self).element_attributes@, name@) == Some(attrs@),
            forall|other: Seq<char>|
                other != name@ ==> #[trigger] attributes_for(final(self).element_attributes@, other)
                    == attributes_for(old(self).element_attributes@, other),
    {
        let n = self.element_attributes.len();
        let mut i: usize = 0;
        while i < n
            invariant
                n == self.element_attributes@.len(),
                self.element_attributes == old(self).element_attributes,
                i <= n,
                forall|j: int| 0 <= j < i ==> #[trigger] self.element_attributes@[j].0@ != name@,
            decreases n - i,
        {
            if self.element_attributes[i].0 == name {
                let ghost before = self.element_attributes@;
                self.element_attributes.set(i, (name, attrs));
                proof {
                    lemma_attributes_for_set(before, i as int, self.element_attributes@);
                }
                return;
            }
            i = i + 1;
        }
        let ghost before = self.element_attributes@;
        self.element_attributes.push((name, attrs));
        proof {
            lemma_attributes_for_push(before, self.element_attributes@);
        }
    }
}

proof fn lemma_attributes_for_set(
    before: Seq<(String, Vec<(String, String)>)>,
    i: int,
    after: Seq<(String, Vec<(String, String)>)>,
)
    requires
        0 <= i < before.len(),
        after.len() == before.len(),
        forall|j: int| 0 <= j < before.len() && j != i ==> #[trigger] after[j] == before[j],
        after[i].0@ == before[i].0@,
        forall|j: int| 0 <= j < i ==> #[trigger] before[j].0@ != before[i].0@,
    ensures
        attributes_for(after, before[i].0@) == Some(after[i].1@),
        forall|other: Seq<char>|
            other != before[i].0@ ==> #[trigger] attributes_for(after, other) == attributes_for(
                before,
                other,
            ),
    decreases i,
{
    let name = before[i].0@;
    if i > 0 {
        lemma_attributes_for_set(before.drop_first(), i - 1, after.drop_first());
        assert(after[0] == before[0]);
        assert forall|other: Seq<char>| other != name implies #[trigger] attributes_for(after, other)
            == attributes_for(before, other) by {
            if before[0].0@ != other {
                assert(attributes_for(after.drop_first(), other) == attributes_for(
                    before.drop_first(),
                    other,
                ));
            }
        }
    } else {
        assert(after.drop_first() =~= before.drop_first());
        assert forall|other: Seq<char>| other != name implies #[trigger] attributes_for(after, other)
            == attributes_for(before, other) by {}
    }
}

proof fn lemma_attributes_for_push(
    before: Seq<(String, Vec<(String, String)>)>,
    after: Seq<(String, Vec<(String, String)>)>,
)
    requires
        after.len() == before.len() + 1,
        forall|j: int| 0 <= j < before.len() ==> #[trigger] after[j] == before[j],
        forall|j: int| 0 <= j < before.len() ==> #[trigger] before[j].0@ != after.last().0@,
    ensures
        attributes_for(after, after.last().0@) == Some(after.last().1@),
        forall|other: Seq<char>|
            other != after.last().0@ ==> #[trigger] attributes_for(after, other)
                == attributes_for(before, other),
    decreases before.len(),
{
    let name = after.last().0@;
    if before.len() > 0 {
        lemma_attributes_for_push(before.drop_first(), after.drop_first());
        assert(after[0] == before[0]);
        assert forall|other: Seq<char>| other != name implies #[trigger] attributes_for(after, other)
            == attributes_for(before, other) by {
            if before[0].0@ != other {
                assert(attributes_for(after.drop_first(), other) == attributes_for(
                    before.drop_first(),
                    other,
                ));
            }
        }
    } else {
        assert(after.drop_first() =~= Seq::<(String, Vec<(String, String)>)>::empty());
        assert(after[0] == after.last());
        assert forall|other: Seq<char>| other != name implies #[trigger] attributes_for(after, other)
            == attributes_for(before, other) by {
            assert(attributes_for(after.drop_first(), other) is None);
        }
    }
}

/// The whole configuration of a render. It is read, never changed, while a
/// render runs.
#[derive(Clone, Debug)]
pub struct HtmlConfig {
    /// Options of the HTML output as a whole.
    pub html: HtmlOptions,
    /// Options of the individual kinds of element.
    pub elements: ElementOptions,
    /// Literal attributes added to elements.
    pub attributes: AttributeMappings,
    /// Syntax-highlighting style, where highlighting is wanted.
    pub syntect: Option<SyntectConfigStyle>,
}

impl HtmlConfig {
    /// Whether `self` holds the default value of every option.
    pub open spec fn is_default(&self) -> bool {
        &&& !self.html.escape_html
        &&& self.html.break_on_newline
        &&& !self.html.xhtml_style
        &&& self.html.pretty_print
        &&& self.elements.headings.add_ids
        &&& self.elements.headings.id_prefix@ == "heading-"@
        &&& self.elements.headings.level_classes@ == Map::<u8, String>::empty()
        &&& self.elements.links.nofollow_external
        &&& self.elements.links.open_external_blank
        &&& self.elements.code_blocks.default_language is None
        &&& !self.elements.code_blocks.line_numbers
        &&& self.attributes.element_attributes@.len() == 0
        &&& self.syntect is None
    }

    /// A configuration with syntax highlighting in the given style and every
    /// other option at its default.
    pub fn with_syntect(syntect_config: SyntectConfig) -> (r: HtmlConfig)
        ensures
            r.syntect == Some(syntect_config.style),
            ({
                let d = HtmlConfig { syntect: None, ..r };
                d.is_default()
            }),
    {
        let mut config = HtmlConfig::default();
        config.syntect = Some(syntect_config.style);
        config
    }
}

impl Default for HtmlConfig {
    fn default() -> (r: HtmlConfig)
        ensures
            r.is_default(),
    {
        HtmlConfig {
            html: HtmlOptions {
                escape_html: false,
                break_on_newline: true,
                xhtml_style: false,
                pretty_print: true,
            },
            elements: ElementOptions {
                headings: HeadingOptions {
                    add_ids: true,
                    id_prefix: String::from_str("heading-"),
                    level_classes: HashMap::new(),
                },
                links: LinkOptions { nofollow_external: true, open_external_blank: true },
                code_blocks: CodeBlockOptions { default_language: None, line_numbers: false },
            },
            attributes: AttributeMappings::new(),
            syntect: None,
        }
    }
}

/// Whether every character of `s` is an ASCII digit.
pub open spec fn all_digits(s: Seq<char>) -> bool {
    forall|i: int| 0 <= i < s.len() ==> '0' <= #[trigger] s[i] <= '9'
}

/// The value of a string of ASCII digits, read in decimal.
pub open spec fn digits_value(s: Seq<char>) -> int
    decreases s.len(),
{
    if s.len() == 0 {
        0
    } else {
        digits_value(s.drop_last()) * 10 + (s.last() as int - '0' as int)
    }
}

proof fn lemma_digits_value_nonneg(s: Seq<char>)
    requires
        all_digits(s),
    ensures
        digits_value(s) >= 0,
    decreases s.len(),
{
    if s.len() > 0 {
        assert(all_digits(s.drop_last()));
        lemma_digits_value_nonneg(s.drop_last());
        assert('0' <= s[s.len() - 1]);
    }
}

/// The number that `s` writes as a `u8` in decimal (an optional `+`, then
/// digits, at most 255), if it writes one.
pub open spec fn parsed_u8(s: Seq<char>) -> Option<u8> {
    let body = if s.len() > 0 && s[0] == '+' {
        s.drop_first()
    } else {
        s
    };
    if body.len() > 0 && all_digits(body) && digits_value(body) <= 255 {
        Some(digits_value(body) as u8)
    } else {
        None
    }
}

/// The heading level that a configuration key names: a `u8` from 1 to 6.
pub open spec fn heading_level_key(s: Seq<char>) -> Option<u8> {
    match parsed_u8(s) {
        Some(n) => if 1 <= n <= 6 {
            Some(n)
        } else {
            None
        },
        None => None,
    }
}

/// Reads a configuration key that names a heading level.
pub fn parse_heading_level(key: &str) -> (r: Result<u8, HtmlError>)
    ensures
        match heading_level_key(key@) {
            Some(n) => r == Ok::<u8, HtmlError>(n),
            None => r matches Err(HtmlError::Config(_)),
        },
{
    let n = key.unicode_len();
    let mut i: usize = 0;
    if n > 0 && key.get_char(0) == '+' {
        i = 1;
    }
    let ghost first = i as int;
    let ghost body = key@.subrange(first, n as int);
    assert(body =~= if key@.len() > 0 && key@[0] == '+' {
        key@.drop_first()
    } else {
        key@
    });
    if i == n {
        return Err(HtmlError::Config(String::from_str("heading level must be a number")));
    }
    let mut value: u32 = 0;
    assert(key@.subrange(first, first) =~= Seq::<char>::empty());
    while i < n
        invariant
            n == key@.len(),
            0 <= first <= i <= n,
            body == key@.subrange(first, n as int),
            body == if key@.len() > 0 && key@[0] == '+' {
                key@.drop_first()
            } else {
                key@
            },
            all_digits(key@.subrange(first, i as int)),
            value as int == if digits_value(key@.subrange(first, i as int)) < 256 {
                digits_value(key@.subrange(first, i as int))
            } else {
                256
            },
        decreases n - i,
    {
        let c = key.get_char(i);
        if c < '0' || c > '9' {
            let ghost k = i as int - first;
            assert(key@[i as int] == c);
            assert(0 <= k < body.len());
            assert(key@.subrange(first, n as int)[k] == key@[first + k]);
            assert(body[k] == key@[i as int]);
            assert(!('0' <= body[k] <= '9'));
            assert(!all_digits(body));
            return Err(HtmlError::Config(String::from_str("heading level must be a number")));
        }
        let ghost prev = key@.subrange(first, i as int);
        let ghost next = key@.subrange(first, i + 1);
        assert(next.drop_last() =~= prev);
        assert(all_digits(next));
        proof {
            lemma_digits_value_nonneg(prev);
        }
        let d = (c as u32) - ('0' as u32);
        let ghost pv = digits_value(prev);
        assert(digits_value(next) == pv * 10 + d);
        proof {
            if pv < 256 {
                assert(value == pv);
            } else {
                assert(value == 256);
                assert(pv * 10 + d >= 256) by (nonlinear_arith)
                    requires
                        pv >= 256,
                        d >= 0,
                ;
            }
        }
        if value * 10 + d < 256 {
            value = value * 10 + d;
        } else {
            value = 256;
        }
        i = i + 1;
    }
    if value >= 1 && value <= 6 {
        Ok(value as u8)
    } else {
        Err(HtmlError::Config(String::from_str("heading level must be between 1 and 6")))
    }
}

/// The level classes that configuration entries give: each entry's key read
/// as a heading level, later entries replacing earlier ones of the same
/// level.
pub open spec fn level_class_map(entries: Seq<(String, String)>) -> Map<u8, String>
    decreases entries.len(),
{
    if entries.len() == 0 {
        Map::empty()
    } else {
        let (k, v) = entries.last();
        level_class_map(entries.drop_last()).insert(heading_level_key(k@)->Some_0, v)
    }
}

/// Builds the level classes of the heading options from configuration
/// entries of a heading level and a class. Fails with a configuration error
/// where a key does not name a level from 1 to 6.
pub fn level_classes_from_entries(entries: &Vec<(String, String)>) -> (r: Result<
    HashMap<u8, String>,
    HtmlError,
>)
    ensures
        (forall|i: int| 0 <= i < entries@.len() ==> #[trigger] heading_level_key(entries@[i].0@) is Some)
            ==> (r matches Ok(m) && m@ == level_class_map(entries@)),
        !(forall|i: int| 0 <= i < entries@.len() ==> #[trigger] heading_level_key(entries@[i].0@) is Some)
            ==> r matches Err(HtmlError::Config(_)),
{
    let mut m: HashMap<u8, String> = HashMap::new();
    let n = entries.len();
    let mut i: usize = 0;
    while i < n
        invariant
            n == entries@.len(),
            i <= n,
            forall|j: int| 0 <= j < i ==> #[trigger] heading_level_key(entries@[j].0@) is Some,
            m@ == level_class_map(entries@.subrange(0, i as int)),
        decreases n - i,
    {
        let level = match parse_heading_level(entries[i].0.as_str()) {
            Ok(level) => level,
            Err(e) => {
                return Err(e);
            },
        };
        m.insert(level, entries[i].1.clone());
        assert(entries@.subrange(0, i + 1).drop_last() =~= entries@.subrange(0, i as int));
        i = i + 1;
    }
    assert(entries@.subrange(0, n as int) =~= entries@);
    Ok(m)
}

} // verus!
