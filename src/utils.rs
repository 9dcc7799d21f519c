//! Escaping and string helpers used while rendering HTML.

use vstd::prelude::*;

verus! {

/// Relies on `String::push`: the character is appended at the end.
#[verifier::external_body]
pub(crate) fn push_char(s: &mut String, c: char)
    ensures
        final(s)@ == old(s)@.push(c),
{
    s.push(c)
}

/// The text that stands in HTML for one character of body text or of an
/// attribute value.
pub open spec fn html_escape_char(c: char) -> Seq<char> {
    if c == '<' {
        "&lt;"@
    } else if c == '>' {
        "&gt;"@
    } else if c == '"' {
        "&quot;"@
    } else if c == '&' {
        "&amp;"@
    } else if c == '\'' {
        "&#x27;"@
    } else {
        seq![c]
    }
}

/// `s` with every character replaced by its HTML escape.
pub open spec fn html_escaped(s: Seq<char>) -> Seq<char>
    decreases s.len(),
{
    if s.len() == 0 {
        Seq::empty()
    } else {
        html_escaped(s.drop_last()) + html_escape_char(s.last())
    }
}

/// Appends `text` to `output`, escaping `<`, `>`, `"`, `&` and `'`.
pub fn escape_html(output: &mut String, text: &str)
    ensures
        final(output)@ == old(output)@ + html_escaped(text@),
{
    let ghost start = output@;
    for c in it: text.chars()
        invariant
            it.seq() == text@,
            output@ == start + html_escaped(text@.subrange(0, it.index() as int)),
    {
        if c == '<' {
            output.append("&lt;");
        } else if c == '>' {
            output.append("&gt;");
        } else if c == '"' {
            output.append("&quot;");
        } else if c == '&' {
            output.append("&amp;");
        } else if c == '\'' {
            output.append("&#x27;");
        } else {
            push_char(output, c);
        }
        assert(text@.subrange(0, it.index() + 1).drop_last() == text@.subrange(0, it.index() as int));
    }
    assert(text@.subrange(0, text@.len() as int) == text@);
}


/// The text that stands in a link destination for one character: the
/// characters that would break out of a quoted attribute or split the URL are
/// percent-encoded, every other one is kept.
pub open spec fn href_escape_char(c: char) -> Seq<char> {
    if c == '<' {
        "%3C"@
    } else if c == '>' {
        "%3E"@
    } else if c == '"' {
        "%22"@
    } else if c == '\'' {
        "%27"@
    } else if c == ' ' {
        "%20"@
    } else if c == '\n' {
        "%0A"@
    } else if c == '\r' {
        "%0D"@
    } else if c == '\t' {
        "%09"@
    } else {
        seq![c]
    }
}

/// `s` with every character replaced by its link-destination escape.
pub open spec fn href_escaped(s: Seq<char>) -> Seq<char>
    decreases s.len(),
{
    if s.len() == 0 {
        Seq::empty()
    } else {
        href_escaped(s.drop_last()) + href_escape_char(s.last())
    }
}

/// Appends `href` to `output`, percent-encoding `<`, `>`, `"`, `'`, space,
/// newline, carriage return and tab. Query syntax such as `&`, `?` and `=` is
/// kept as it is.
pub fn escape_href(output: &mut String, href: &str)
    ensures
        final(output)@ == old(output)@ + href_escaped(href@),
{
    let ghost start = output@;
    for c in it: href.chars()
        invariant
            it.seq() == href@,
            output@ == start + href_escaped(href@.subrange(0, it.index() as int)),
    {
        if c == '<' {
            output.append("%3C");
        } else if c == '>' {
            output.append("%3E");
        } else if c == '"' {
            output.append("%22");
        } else if c == '\'' {
            output.append("%27");
        } else if c == ' ' {
            output.append("%20");
        } else if c == '\n' {
            output.append("%0A");
        } else if c == '\r' {
            output.append("%0D");
        } else if c == '\t' {
            output.append("%09");
        } else {
            push_char(output, c);
        }
        assert(href@.subrange(0, it.index() + 1).drop_last() == href@.subrange(0, it.index() as int));
    }
    assert(href@.subrange(0, href@.len() as int) == href@);
}

/// Whether `char::is_alphanumeric` holds of a character (Unicode `Alphabetic`
/// or `Numeric`).
pub uninterp spec fn alphanumeric(c: char) -> bool;

/// Relies on `char::is_alphanumeric`, whose answer depends on the character alone.
#[verifier::external_body]
fn is_alphanumeric(c: char) -> (r: bool)
    ensures
        r == alphanumeric(c),
{
    c.is_alphanumeric()
}

/// ASCII upper-case letters mapped to lower case; every other character kept.
pub open spec fn ascii_lower(c: char) -> char {
    if 'A' <= c && c <= 'Z' {
        ((c as u8) + 32) as char
    } else {
        c
    }
}

fn to_ascii_lower(c: char) -> (r: char)
    ensures
        r == ascii_lower(c),
{
    if 'A' <= c && c <= 'Z' {
        ((c as u8) + 32) as char
    } else {
        c
    }
}

/// Reading `s` from the left, where `alnum` tells which characters are
/// alphanumeric: the identifier built so far, and whether a separator is owed
/// before the next alphanumeric character.
pub open spec fn sanitize_scan(s: Seq<char>, alnum: Seq<bool>) -> (Seq<char>, bool)
    decreases s.len(),
{
    if s.len() == 0 || alnum.len() != s.len() {
        (Seq::empty(), false)
    } else {
        let (out, pending) = sanitize_scan(s.drop_last(), alnum.drop_last());
        let c = s.last();
        if alnum.last() {
            let sep = if pending && out.len() > 0 {
                out.push('-')
            } else {
                out
            };
            (sep.push(ascii_lower(c)), false)
        } else {
            (out, true)
        }
    }
}

/// The identifier made from `s`, where `alnum` tells which characters are
/// alphanumeric: those characters lowered (ASCII letters only), each run of
/// other characters turned into one `-`, with no `-` at either end.
pub open spec fn sanitized_from(s: Seq<char>, alnum: Seq<bool>) -> Seq<char> {
    sanitize_scan(s, alnum).0
}

/// The identifier made from `s`, by Unicode's notion of alphanumeric.
pub open spec fn sanitized_id(s: Seq<char>) -> Seq<char> {
    sanitized_from(s, s.map_values(|c: char| alphanumeric(c)))
}

/// Turns `text` into a string usable as an HTML id, given for each of its
/// characters whether it is alphanumeric.
pub fn sanitize_id_classified(text: &str, alnum: &Vec<bool>) -> (r: String)
    requires
        alnum@.len() == text@.len(),
    ensures
        r@ == sanitized_from(text@, alnum@),
{
    let mut out = String::new();
    let mut pending = false;
    let mut started = false;
    let n = alnum.len();
    let mut k: usize = 0;
    for c in it: text.chars()
        invariant
            it.seq() == text@,
            alnum@.len() == text@.len(),
            n == alnum@.len(),
            k == it.index(),
            (out@, pending) == sanitize_scan(
                text@.subrange(0, it.index() as int),
                alnum@.subrange(0, it.index() as int),
            ),
            started == (out@.len() > 0),
    {
        assert(text@.subrange(0, k + 1).drop_last() == text@.subrange(0, k as int));
        assert(alnum@.subrange(0, k + 1).drop_last() == alnum@.subrange(0, k as int));
        if alnum[k] {
            if pending && started {
                push_char(&mut out, '-');
            }
            push_char(&mut out, to_ascii_lower(c));
            pending = false;
            started = true;
        } else {
            pending = true;
        }
        k = k + 1;
    }
    assert(text@.subrange(0, text@.len() as int) == text@);
    assert(alnum@.subrange(0, alnum@.len() as int) == alnum@);
    out
}

/// Turns `text` into a string usable as an HTML id: alphanumeric characters
/// kept (ASCII letters lowered), runs of other characters made one `-`, no
/// `-` at either end.
pub fn sanitize_id(text: &str) -> (r: String)
    ensures
        r@ == sanitized_id(text@),
{
    let mut alnum: Vec<bool> = Vec::new();
    for c in it: text.chars()
        invariant
            it.seq() == text@,
            alnum@ == text@.subrange(0, it.index() as int).map_values(|c: char| alphanumeric(c)),
    {
        alnum.push(is_alphanumeric(c));
        assert(alnum@ =~= text@.subrange(0, it.index() + 1).map_values(|c: char| alphanumeric(c)));
    }
    assert(text@.subrange(0, text@.len() as int) == text@);
    sanitize_id_classified(text, &alnum)
}

/// The number of Unicode scalar values in `text`.
pub fn unicode_length(text: &str) -> (r: usize)
    ensures
        r == text@.len(),
{
    text.unicode_len()
}

} // verus!
