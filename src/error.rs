//! The errors of rendering.

use vstd::prelude::*;

verus! {

/// What can go wrong while configuring or running a render.
#[derive(Clone, Debug, PartialEq, Eq)]
pub enum HtmlError {
    /// The output stream failed, with the reason it gave.
    Io(String),
    /// The output sink refused a write.
    Write,
    /// A syntax-highlighting theme could not be used.
    Theme(String),
    /// A configuration value is invalid.
    Config(String),
    /// Any other rendering failure.
    Render(String),
}

impl HtmlError {
    /// The text that names the kind of error, before its detail.
    pub open spec fn spec_prefix(&self) -> Seq<char> {
        match self {
            HtmlError::Io(_) => "IO error: "@,
            HtmlError::Write => "Write error: "@,
            HtmlError::Theme(_) => "Theme error: "@,
            HtmlError::Config(_) => "Configuration error: "@,
            HtmlError::Render(_) => "Rendering error: "@,
        }
    }

    /// The detail carried by the error.
    pub open spec fn spec_detail(&self) -> Seq<char> {
        match self {
            HtmlError::Io(m) => m@,
            HtmlError::Write => "an error occurred when formatting an argument"@,
            HtmlError::Theme(m) => m@,
            HtmlError::Config(m) => m@,
            HtmlError::Render(m) => m@,
        }
    }

    /// A human-readable description: the kind of error, then its detail.
    pub fn message(&self) -> (r: String)
        ensures
            r@ == self.spec_prefix() + self.spec_detail(),
    {
        match self {
            HtmlError::Io(m) => {
                let mut r = String::from_str("IO error: ");
                r.append(m.as_str());
                r
            },
            HtmlError::Write => {
                let mut r = String::from_str("Write error: ");
                r.append("an error occurred when formatting an argument");
                r
            },
            HtmlError::Theme(m) => {
                let mut r = String::from_str("Theme error: ");
                r.append(m.as_str());
                r
            },
            HtmlError::Config(m) => {
                let mut r = String::from_str("Configuration error: ");
                r.append(m.as_str());
                r
            },
            HtmlError::Render(m) => {
                let mut r = String::from_str("Rendering error: ");
                r.append(m.as_str());
                r
            },
        }
    }
}

} // verus!
