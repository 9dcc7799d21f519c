//! The document events that the renderer consumes.

use vstd::prelude::*;

verus! {

/// The level of a heading, `h1` to `h6`.
#[derive(Copy, Clone, Debug, PartialEq, Eq, Structural)]
pub enum HeadingLevel {
    H1,
    H2,
    H3,
    H4,
    H5,
    H6,
}

impl HeadingLevel {
    /// The level as a number from 1 to 6.
    pub open spec fn spec_number(self) -> u8 {
        match self {
            HeadingLevel::H1 => 1,
            HeadingLevel::H2 => 2,
            HeadingLevel::H3 => 3,
            HeadingLevel::H4 => 4,
            HeadingLevel::H5 => 5,
            HeadingLevel::H6 => 6,
        }
    }

    /// The level as a number from 1 to 6.
    #[verifier::when_used_as_spec(spec_number)]
    pub fn number(self) -> (r: u8)
        ensures
            r == self.spec_number(),
            1 <= r <= 6,
    {
        match self {
            HeadingLevel::H1 => 1,
            HeadingLevel::H2 => 2,
            HeadingLevel::H3 => 3,
            HeadingLevel::H4 => 4,
            HeadingLevel::H5 => 5,
            HeadingLevel::H6 => 6,
        }
    }
}

/// The alignment of a table column.
#[derive(Copy, Clone, Debug, PartialEq, Eq, Structural)]
pub enum Alignment {
    /// No alignment was given for the column.
    Unset,
    Left,
    Center,
    Right,
}

/// How a code block was written.
#[derive(Clone, Debug, PartialEq, Eq)]
pub enum CodeBlockKind {
    /// Indented by four spaces: there is no info string.
    Indented,
    /// Between fences, with the info string that followed the opening fence.
    Fenced(String),
}

/// How a link or image was written.
#[derive(Copy, Clone, Debug, PartialEq, Eq)]
pub enum LinkType {
    Inline,
    Reference,
    ReferenceUnknown,
    Collapsed,
    CollapsedUnknown,
    Shortcut,
    ShortcutUnknown,
    Autolink,
    Email,
}

/// The syntax of a metadata block.
#[derive(Copy, Clone, Debug, PartialEq, Eq)]
pub enum MetadataBlockKind {
    YamlStyle,
    PlusesStyle,
}

/// The construct that a `Start` event opens.
#[allow(inconsistent_fields)]
#[derive(Clone, Debug, PartialEq, Eq)]
pub enum Tag {
    Paragraph,
    Heading {
        level: HeadingLevel,
        id: Option<String>,
        classes: Vec<String>,
        attrs: Vec<(String, Option<String>)>,
    },
    BlockQuote,
    CodeBlock(CodeBlockKind),
    HtmlBlock,
    /// A list; the starting number is present exactly for an ordered list.
    List(Option<u64>),
    Item,
    FootnoteDefinition(String),
    DefinitionList,
    DefinitionListTitle,
    DefinitionListDefinition,
    Table(Vec<Alignment>),
    TableHead,
    TableRow,
    TableCell,
    Emphasis,
    Strong,
    Strikethrough,
    Link { link_type: LinkType, dest_url: String, title: String, id: String },
    Image { link_type: LinkType, dest_url: String, title: String, id: String },
    MetadataBlock(MetadataBlockKind),
}

/// The construct that an `End` event closes.
#[derive(Copy, Clone, Debug, PartialEq, Eq)]
pub enum TagEnd {
    Paragraph,
    Heading(HeadingLevel),
    BlockQuote,
    CodeBlock,
    HtmlBlock,
    /// A list; `true` for an ordered one.
    List(bool),
    Item,
    FootnoteDefinition,
    DefinitionList,
    DefinitionListTitle,
    DefinitionListDefinition,
    Table,
    TableHead,
    TableRow,
    TableCell,
    Emphasis,
    Strong,
    Strikethrough,
    Link,
    Image,
    MetadataBlock(MetadataBlockKind),
}

/// One event of a document.
#[derive(Clone, Debug, PartialEq, Eq)]
pub enum Event {
    Start(Tag),
    End(TagEnd),
    Text(String),
    /// An inline code span.
    Code(String),
    /// Markup passed through as it is.
    Html(String),
    SoftBreak,
    HardBreak,
    /// A thematic break.
    Rule,
    FootnoteReference(String),
    TaskListMarker(bool),
}

} // verus!
