//! Pieces of markup that many elements share: configured attributes, open
//! tags, decimal numbers, URL prefixes.

use vstd::prelude::*;
use crate::config::{attributes_for, HtmlConfig};
use crate::utils::push_char;

verus! {

/// The text of attribute pairs: ` name="value"` for each, in order, taken
/// verbatim.
pub open spec fn attrs_text(pairs: Seq<(String, String)>) -> Seq<char>
    decreases pairs.len(),
{
    if pairs.len() == 0 {
        Seq::empty()
    } else {
        attrs_text(pairs.drop_last()) + " "@ + pairs.last().0@ + "=\""@ + pairs.last().1@
            + "\""@
    }
}

/// The attributes that `config` adds to the element called `name`.
pub open spec fn configured_attrs(config: HtmlConfig, name: Seq<char>) -> Seq<char> {
    match attributes_for(config.attributes.element_attributes@, name) {
        Some(pairs) => attrs_text(pairs),
        None => Seq::empty(),
    }
}

/// The opening tag of the element called `name`, with its configured
/// attributes.
pub open spec fn open_tag(config: HtmlConfig, name: Seq<char>) -> Seq<char> {
    "<"@ + name + configured_attrs(config, name) + ">"@
}

/// Appends the configured attributes of the element called `name`.
pub fn push_attributes(out: &mut String, config: &HtmlConfig, name: &str)
    ensures
        final(out)@ == old(out)@ + configured_attrs(*config, name@),
{
    match config.attributes.get(name) {
        None => {
            assert(old(out)@ + Seq::<char>::empty() =~= old(out)@);
        },
        Some(pairs) => {
            let ghost start = out@;
            let n = pairs.len();
            let mut i: usize = 0;
            while i < n
                invariant
                    n == pairs@.len(),
                    i <= n,
                    out@ == start + attrs_text(pairs@.subrange(0, i as int)),
                decreases n - i,
            {
                let ghost prev = out@;
                out.append(" ");
                out.append(pairs[i].0.as_str());
                out.append("=\"");
                out.append(pairs[i].1.as_str());
                out.append("\"");
                assert(pairs@.subrange(0, i + 1).drop_last() == pairs@.subrange(0, i as int));
                assert(out@ =~= start + attrs_text(pairs@.subrange(0, i + 1)));
                i = i + 1;
            }
            assert(pairs@.subrange(0, n as int) == pairs@);
        },
    }
}

/// Appends the opening tag of the element called `name`.
pub fn push_open_tag(out: &mut String, config: &HtmlConfig, name: &str)
    ensures
        final(out)@ == old(out)@ + open_tag(*config, name@),
{
    let ghost start = out@;
    out.append("<");
    out.append(name);
    push_attributes(out, config, name);
    out.append(">");
    assert(out@ =~= start + open_tag(*config, name@));
}

/// The decimal digit for `d`, which is below ten.
pub open spec fn digit_char(d: u64) -> char {
    ((48 + d) as u8) as char
}

fn to_digit_char(d: u64) -> (r: char)
    requires
        d < 10,
    ensures
        r == digit_char(d),
{
    ((48 + d) as u8) as char
}

/// `n` written in decimal, without leading zeros.
pub open spec fn decimal(n: u64) -> Seq<char>
    decreases n,
{
    if n < 10 {
        seq![digit_char(n)]
    } else {
        decimal(n / 10).push(digit_char(n % 10))
    }
}

/// Appends `n` written in decimal.
pub fn push_decimal(out: &mut String, n: u64)
    ensures
        final(out)@ == old(out)@ + decimal(n),
    decreases n,
{
    if n >= 10 {
        push_decimal(out, n / 10);
    }
    push_char(out, to_digit_char(n % 10));
    assert(out@ =~= old(out)@ + decimal(n));
}

/// Whether `s` begins with `p`.
pub open spec fn has_prefix(s: Seq<char>, p: Seq<char>) -> bool {
    p.len() <= s.len() && s.subrange(0, p.len() as int) == p
}

/// Whether `s` begins with `p`.
pub fn starts_with(s: &str, p: &str) -> (r: bool)
    ensures
        r == has_prefix(s@, p@),
{
    let n = p.unicode_len();
    if n > s.unicode_len() {
        return false;
    }
    let mut i: usize = 0;
    while i < n
        invariant
            n == p@.len(),
            n <= s@.len(),
            i <= n,
            forall|j: int| 0 <= j < i ==> s@[j] == p@[j],
        decreases n - i,
    {
        if s.get_char(i) != p.get_char(i) {
            assert(s@.subrange(0, n as int)[i as int] != p@[i as int]);
            return false;
        }
        i = i + 1;
    }
    assert(s@.subrange(0, n as int) =~= p@);
    true
}

} // verus!
