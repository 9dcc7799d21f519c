//! The mutable state that one render threads through nested constructs.

use vstd::prelude::*;
use crate::event::{Alignment, LinkType};

verus! {

/// Where the renderer stands with respect to a table.
#[derive(Copy, Clone, Debug, PartialEq, Eq, Structural)]
pub enum TableContext {
    /// Not inside a table.
    NotInTable,
    /// Inside a table, before its first body row.
    InHeader,
    /// Inside a table, from its first body row on.
    InBody,
}

/// The kind of an open list.
#[derive(Copy, Clone, Debug, PartialEq, Eq, Structural)]
pub enum ListContext {
    /// An ordered list (`<ol>`) with its starting number.
    Ordered(u64),
    /// An unordered list (`<ul>`).
    Unordered,
}

/// The state of one render. It starts empty and is never shared between
/// documents.
#[derive(Clone, Debug)]
pub struct HtmlState {
    /// Starting numbers of the open ordered lists, innermost last.
    pub numbers: Vec<u64>,
    /// Where the renderer stands with respect to a table.
    pub table_state: TableContext,
    /// Index of the next cell in the current table row.
    pub table_cell_index: usize,
    /// Column alignments of the current table.
    pub table_alignments: Vec<Alignment>,
    /// The open lists, innermost last.
    pub list_stack: Vec<ListContext>,
    /// The open links, innermost last.
    pub link_stack: Vec<LinkType>,
    /// The ids of the open headings, innermost last.
    pub heading_stack: Vec<String>,
    /// Whether a code block is open.
    pub currently_in_code_block: bool,
    /// Whether a footnote definition is open.
    pub currently_in_footnote: bool,
}

/// The render state as mathematical values.
#[verifier::ext_equal]
pub struct StateModel {
    pub numbers: Seq<u64>,
    pub table_state: TableContext,
    pub table_cell_index: usize,
    pub table_alignments: Seq<Alignment>,
    pub list_stack: Seq<ListContext>,
    pub link_stack: Seq<LinkType>,
    pub heading_stack: Seq<Seq<char>>,
    pub in_code_block: bool,
    pub in_footnote: bool,
}

impl StateModel {
    /// The state of a render that has seen nothing yet.
    pub open spec fn initial() -> StateModel {
        StateModel {
            numbers: Seq::empty(),
            table_state: TableContext::NotInTable,
            table_cell_index: 0,
            table_alignments: Seq::empty(),
            list_stack: Seq::empty(),
            link_stack: Seq::empty(),
            heading_stack: Seq::empty(),
            in_code_block: false,
            in_footnote: false,
        }
    }
}

impl View for HtmlState {
    type V = StateModel;

    open spec fn view(&self) -> StateModel {
        StateModel {
            numbers: self.numbers@,
            table_state: self.table_state,
            table_cell_index: self.table_cell_index,
            table_alignments: self.table_alignments@,
            list_stack: self.list_stack@,
            link_stack: self.link_stack@,
            heading_stack: self.heading_stack@.map_values(|h: String| h@),
            in_code_block: self.currently_in_code_block,
            in_footnote: self.currently_in_footnote,
        }
    }
}

impl HtmlState {
    /// Whether this is the state of a render that has seen nothing yet.
    pub open spec fn is_initial(&self) -> bool {
        self@ == StateModel::initial()
    }

    /// A state with nothing open.
    pub fn new() -> (r: HtmlState)
        ensures
            r.is_initial(),
    {
        let r = HtmlState {
            numbers: Vec::new(),
            table_state: TableContext::NotInTable,
            table_cell_index: 0,
            table_alignments: Vec::new(),
            list_stack: Vec::new(),
            link_stack: Vec::new(),
            heading_stack: Vec::new(),
            currently_in_code_block: false,
            currently_in_footnote: false,
        };
        assert(r@ =~= StateModel::initial());
        r
    }

    /// Clears everything, so that the state is as `new` made it.
    pub fn reset(&mut self)
        ensures
            final(self).is_initial(),
    {
        self.numbers.clear();
        self.table_state = TableContext::NotInTable;
        self.table_cell_index = 0;
        self.table_alignments.clear();
        self.list_stack.clear();
        self.link_stack.clear();
        self.heading_stack.clear();
        self.currently_in_code_block = false;
        self.currently_in_footnote = false;
        assert(self@ =~= StateModel::initial());
    }

    /// Whether a table is open.
    pub fn in_table(&self) -> (r: bool)
        ensures
            r == (self.table_state != TableContext::NotInTable),
    {
        !matches!(self.table_state, TableContext::NotInTable)
    }

    /// Whether the open table is still in its header.
    pub fn in_table_header(&self) -> (r: bool)
        ensures
            r == (self.table_state == TableContext::InHeader),
    {
        matches!(self.table_state, TableContext::InHeader)
    }

    /// How many lists are open.
    pub fn list_depth(&self) -> (r: usize)
        ensures
            r == self.list_stack@.len(),
    {
        self.list_stack.len()
    }

    /// The innermost open list, if any.
    pub fn current_list_type(&self) -> (r: Option<ListContext>)
        ensures
            self.list_stack@.len() == 0 ==> r is None,
            self.list_stack@.len() > 0 ==> r == Some(self.list_stack@.last()),
    {
        let n = self.list_stack.len();
        if n == 0 {
            None
        } else {
            Some(self.list_stack[n - 1])
        }
    }
}

impl Default for HtmlState {
    fn default() -> (r: HtmlState)
        ensures
            r.is_initial(),
    {
        HtmlState::new()
    }
}

} // verus!
