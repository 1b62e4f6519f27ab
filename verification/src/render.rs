use crate::bang::Bang;
use crate::text::{chars_of, extend_from_range, string_of};
use vstd::prelude::*;

verus! {

/// The decimal digit for a value below ten.
pub open spec fn decimal_digit(d: int) -> char
    recommends
        0 <= d < 10,
{
    seq!['0', '1', '2', '3', '4', '5', '6', '7', '8', '9'][d]
}

/// A number written in decimal, without leading zeros.
pub open spec fn decimal(n: nat) -> Seq<char>
    decreases n,
{
    if n < 10 {
        seq![decimal_digit(n as int)]
    } else {
        decimal(n / 10).push(decimal_digit((n % 10) as int))
    }
}

/// A line of the configuration file that sets a key to a text: a line break,
/// the key, ` = `, and the text between double quotes, as it is.
pub open spec fn text_line(key: Seq<char>, value: Seq<char>) -> Seq<char> {
    "\n"@ + key + " = \""@ + value + "\""@
}

/// The line for an optional text: nothing where there is no text.
pub open spec fn optional_text_line(key: Seq<char>, value: Option<String>) -> Seq<char> {
    match value {
        Some(v) => text_line(key, v@),
        None => Seq::empty(),
    }
}

/// The line for an optional number: nothing where there is no number.
pub open spec fn optional_number_line(key: Seq<char>, value: Option<u64>) -> Seq<char> {
    match value {
        Some(n) => "\n"@ + key + " = "@ + decimal(n as nat),
        None => Seq::empty(),
    }
}

/// What is appended to the configuration file for one record: the header
/// of a new element of the `bangs` list, the trigger and the template, the
/// metadata that the record holds, and a final line break.
pub open spec fn entry_text(bang: Bang) -> Seq<char> {
    "\n[[bangs]]"@ + text_line("trigger"@, bang.trigger@) + text_line(
        "url_template"@,
        bang.url_template@,
    ) + optional_text_line("category"@, bang.category) + optional_text_line("domain"@, bang.domain)
        + optional_number_line("relevance"@, bang.relevance) + optional_text_line(
        "short_name"@,
        bang.short_name,
    ) + optional_text_line("subcategory"@, bang.subcategory) + "\n"@
}

/// Appends the characters of a string slice.
pub fn push_text(out: &mut Vec<char>, s: &str)
    ensures
        final(out)@ == old(out)@ + s@,
{
    let chars = chars_of(s);
    extend_from_range(out, chars.as_slice(), 0, chars.len());
    proof {
        assert(chars@.subrange(0, chars.len() as int) =~= chars@);
    }
}

fn digit_char(d: u64) -> (c: char)
    requires
        d < 10,
    ensures
        c == decimal_digit(d as int),
{
    let b: u8 = d as u8;
    (48 + b) as char
}

/// Appends a number in decimal.
pub fn push_decimal(out: &mut Vec<char>, n: u64)
    ensures
        final(out)@ == old(out)@ + decimal(n as nat),
    decreases n,
{
    if n >= 10 {
        push_decimal(out, n / 10);
    }
    out.push(digit_char(n % 10));
    proof {
        assert(final(out)@ =~= old(out)@ + decimal(n as nat));
    }
}

fn push_text_line(out: &mut Vec<char>, key: &str, value: &str)
    ensures
        final(out)@ == old(out)@ + text_line(key@, value@),
{
    push_text(out, "\n");
    push_text(out, key);
    push_text(out, " = \"");
    push_text(out, value);
    push_text(out, "\"");
    proof {
        assert(final(out)@ =~= old(out)@ + text_line(key@, value@));
    }
}

fn push_optional_text_line(out: &mut Vec<char>, key: &str, value: &Option<String>)
    ensures
        final(out)@ == old(out)@ + optional_text_line(key@, *value),
{
    match value {
        Some(v) => {
            push_text_line(out, key, v.as_str());
        },
        None => {
            proof {
                assert(out@ =~= old(out)@ + Seq::<char>::empty());
            }
        },
    }
}

fn push_optional_number_line(out: &mut Vec<char>, key: &str, value: Option<u64>)
    ensures
        final(out)@ == old(out)@ + optional_number_line(key@, value),
{
    match value {
        Some(n) => {
            push_text(out, "\n");
            push_text(out, key);
            push_text(out, " = ");
            push_decimal(out, n);
            proof {
                assert(out@ =~= old(out)@ + optional_number_line(key@, value));
            }
        },
        None => {
            proof {
                assert(out@ =~= old(out)@ + Seq::<char>::empty());
            }
        },
    }
}

/// The contents of the configuration file after one record was appended to
/// them.
pub fn append_entry(contents: &str, bang: &Bang) -> (r: String)
    ensures
        r@ == contents@ + entry_text(*bang),
{
    let mut out: Vec<char> = Vec::new();
    push_text(&mut out, contents);
    push_text(&mut out, "\n[[bangs]]");
    push_text_line(&mut out, "trigger", bang.trigger.as_str());
    push_text_line(&mut out, "url_template", bang.url_template.as_str());
    push_optional_text_line(&mut out, "category", &bang.category);
    push_optional_text_line(&mut out, "domain", &bang.domain);
    push_optional_number_line(&mut out, "relevance", bang.relevance);
    push_optional_text_line(&mut out, "short_name", &bang.short_name);
    push_optional_text_line(&mut out, "subcategory", &bang.subcategory);
    push_text(&mut out, "\n");
    proof {
        assert(out@ =~= contents@ + entry_text(*bang));
    }
    string_of(out.as_slice())
}

} // verus!
