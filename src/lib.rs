//! A configurable HTML renderer for a stream of Markdown document events.
//!
//! The writer maps each event to markup, consulting the configuration for
//! policy and the render state for context; the renderer drives it over a
//! document in one forward pass.

pub mod config;
pub mod error;
pub mod event;
pub mod laws;
pub mod markup;
pub mod renderer;
pub mod state;
pub mod utils;
pub mod writer;

pub use config::{
    AttributeMappings, ClassStyle, CodeBlockOptions, ElementOptions, HeadingOptions, HtmlConfig,
    HtmlOptions, LinkOptions, SyntectConfig, SyntectConfigStyle,
};
pub use error::HtmlError;
pub use event::{Alignment, CodeBlockKind, Event, HeadingLevel, LinkType, MetadataBlockKind, Tag, TagEnd};
pub use renderer::{create_html_renderer, push_html, HtmlRenderer};
pub use state::{HtmlState, ListContext, StateModel, TableContext};
pub use writer::{DefaultHtmlWriter, HtmlWriterBase};
