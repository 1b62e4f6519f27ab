use crate::bang::Bang;
use crate::cache::CacheEntry;
use crate::render::{decimal, push_decimal, push_text};
use crate::text::string_of;
use vstd::prelude::*;

verus! {

/// The style sheet and the opening of the listing page.
pub const LISTING_OPEN: &'static str =
    "<style>:root { background: #181818; color: #ffffff; font-family: monospace; } table { border-collapse: collapse; width: 100vw; } table th { text-align: left; padding: 1rem 0; font-size: 1.25rem; width: 100vw; } table tr { border-bottom: #ffffff10 solid 2px; } table tr:nth-child(2n) { background: #161616; } table tr:nth-child(2n+1) { background: #181818; }</style><html>";

/// The head of the listing page up to the title of the search link.
pub const LISTING_HEAD: &'static str =
    "<head><meta charset=\"UTF-8\"><meta name=\"viewport\" content=\"width=device-width, initial-scale=1.0\"><link rel=\"search\" type=\"application/opensearchdescription+xml\" title=\"";

/// The rest of the head, and the heading of the page.
pub const LISTING_BODY: &'static str =
    "\" href=\"/opensearch.xml\"/><title>Bang Commands</title></head><body><h1>Bang Commands</h1>";

/// The heading of the table of configured records.
pub const CONFIGURED_OPEN: &'static str =
    "<h2>Configured Bangs</h2><table><th>Abbr.</th><th>Trigger</th><th>URL</th>";

/// The end of the table of configured records.
pub const CONFIGURED_CLOSE: &'static str = "</table>";

/// The heading of the table of cached mappings.
pub const ACTIVE_OPEN: &'static str = "<h2>Active Bangs</h2><table><th>Trigger</th><th>URL</th>";

/// The end of the listing page.
pub const LISTING_CLOSE: &'static str = "</ul></body></html>";

/// The search description up to the short name.
pub const SEARCH_OPEN: &'static str =
    "<?xml version=\"1.0\" encoding=\"UTF-8\"?>\n<OpenSearchDescription\n  xmlns=\"http://a9.com/-/spec/opensearch/1.1/\"\n  xmlns:moz=\"http://www.mozilla.org/2006/browser/search/\">\n  <ShortName>";

/// Between the short name and the description.
pub const SEARCH_DESCRIPTION: &'static str = "</ShortName>\n  <Description>";

/// Between the description and the address of the search.
pub const SEARCH_URL: &'static str =
    "</Description>\n  <InputEncoding>UTF-8</InputEncoding>\n  <Url type=\"text/html\" method=\"GET\" template=\"http://";

/// Between the address of the search and the address of the suggestions.
pub const SEARCH_SUGGEST: &'static str =
    "/?q={searchTerms}\" />\n  <Url type=\"application/x-suggestions+json\" method=\"GET\" template=\"http://";

/// The end of the search description.
pub const SEARCH_CLOSE: &'static str = "/suggest?q={searchTerms}\" />\n</OpenSearchDescription>";

/// A name in title case, as the `heck` crate writes it: the words of the
/// name, each capitalised, with single spaces between them.
pub uninterp spec fn title_cased(name: Seq<char>) -> Seq<char>;

/// An optional text in the form that `Debug` formatting gives it.
pub uninterp spec fn debug_formatted(value: Option<Seq<char>>) -> Seq<char>;

/// An optional text as an optional sequence of characters.
pub open spec fn text_view(value: Option<String>) -> Option<Seq<char>> {
    match value {
        Some(s) => Some(s@),
        None => None,
    }
}

/// Calls `heck::ToTitleCase::to_title_case` on a string slice. The crate
/// computes the result from the characters of the name alone; the contract
/// gives that result its name and claims nothing else of it.
#[verifier::external_body]
fn title_case(name: &str) -> (r: String)
    ensures
        r@ == title_cased(name@),
{
    heck::ToTitleCase::to_title_case(name)
}

/// Formats an optional text with `{:?}`, that is with the `Debug` impls of
/// `Option` and `String`. The result depends on the value alone; the
/// contract gives it its name and claims nothing else of it.
#[verifier::external_body]
fn debug_text(value: &Option<String>) -> (r: String)
    ensures
        r@ == debug_formatted(text_view(*value)),
{
    format!("{:?}", value)
}

/// A row of the table of configured records.
pub open spec fn configured_row(
    abbreviation: Seq<char>,
    trigger: Seq<char>,
    url_template: Seq<char>,
) -> Seq<char> {
    "<tr><td><strong>"@ + abbreviation + "</strong></td><td>"@ + trigger + "</td><td>"@
        + url_template + "</td></tr>"@
}

/// A row of the table of cached mappings.
pub open spec fn active_row(trigger: Seq<char>, url_template: Seq<char>) -> Seq<char> {
    "<tr><td><strong>"@ + trigger + "</strong></td><td>"@ + url_template + "</td></tr>"@
}

/// The rows of the configured records, in the order of the list. The
/// abbreviation of a record is its short name in `Debug` form.
pub open spec fn configured_rows(bangs: Seq<Bang>) -> Seq<char>
    decreases bangs.len(),
{
    if bangs.len() == 0 {
        Seq::empty()
    } else {
        configured_rows(bangs.drop_last()) + configured_row(
            debug_formatted(text_view(bangs.last().short_name)),
            bangs.last().trigger@,
            bangs.last().url_template@,
        )
    }
}

/// The rows of the cached mappings, in the order of the listing.
pub open spec fn active_rows(listing: Seq<CacheEntry>) -> Seq<char>
    decreases listing.len(),
{
    if listing.len() == 0 {
        Seq::empty()
    } else {
        active_rows(listing.drop_last()) + active_row(
            listing.last().trigger@,
            listing.last().url_template@,
        )
    }
}

/// The table of configured records; nothing where no overlay list exists.
pub open spec fn configured_section(configured: Option<Vec<Bang>>) -> Seq<char> {
    match configured {
        Some(list) => CONFIGURED_OPEN@ + configured_rows(list@) + CONFIGURED_CLOSE@,
        None => Seq::empty(),
    }
}

/// The listing page under a title that is already in its final form.
pub open spec fn listing_text(
    title: Seq<char>,
    configured: Option<Vec<Bang>>,
    listing: Seq<CacheEntry>,
) -> Seq<char> {
    LISTING_OPEN@ + LISTING_HEAD@ + title + LISTING_BODY@ + configured_section(configured)
        + ACTIVE_OPEN@ + active_rows(listing) + LISTING_CLOSE@
}

/// The search description for a short name that is already in its final
/// form: the service answers at `host` and `port`.
pub open spec fn search_description_text(
    short_name: Seq<char>,
    description: Seq<char>,
    host: Seq<char>,
    port: u16,
) -> Seq<char> {
    SEARCH_OPEN@ + short_name + SEARCH_DESCRIPTION@ + description + SEARCH_URL@ + host + ":"@
        + decimal(port as nat) + SEARCH_SUGGEST@ + host + ":"@ + decimal(port as nat)
        + SEARCH_CLOSE@
}

/// Appends one row of the table of configured records.
pub fn push_configured_row(
    out: &mut Vec<char>,
    abbreviation: &str,
    trigger: &str,
    url_template: &str,
)
    ensures
        final(out)@ == old(out)@ + configured_row(abbreviation@, trigger@, url_template@),
{
    push_text(out, "<tr><td><strong>");
    push_text(out, abbreviation);
    push_text(out, "</strong></td><td>");
    push_text(out, trigger);
    push_text(out, "</td><td>");
    push_text(out, url_template);
    push_text(out, "</td></tr>");
    proof {
        assert(final(out)@ =~= old(out)@ + configured_row(abbreviation@, trigger@, url_template@));
    }
}

/// Appends one row of the table of cached mappings.
pub fn push_active_row(out: &mut Vec<char>, trigger: &str, url_template: &str)
    ensures
        final(out)@ == old(out)@ + active_row(trigger@, url_template@),
{
    push_text(out, "<tr><td><strong>");
    push_text(out, trigger);
    push_text(out, "</strong></td><td>");
    push_text(out, url_template);
    push_text(out, "</td></tr>");
    proof {
        assert(final(out)@ =~= old(out)@ + active_row(trigger@, url_template@));
    }
}

fn push_configured_section(out: &mut Vec<char>, configured: &Option<Vec<Bang>>)
    ensures
        final(out)@ == old(out)@ + configured_section(*configured),
{
    match configured {
        Some(list) => {
            push_text(out, CONFIGURED_OPEN);
            let mut i: usize = 0;
            while i < list.len()
                invariant
                    i <= list.len(),
                    out@ == old(out)@ + CONFIGURED_OPEN@ + configured_rows(
                        list@.subrange(0, i as int),
                    ),
                decreases list.len() - i,
            {
                let abbreviation = debug_text(&list[i].short_name);
                push_configured_row(
                    out,
                    abbreviation.as_str(),
                    list[i].trigger.as_str(),
                    list[i].url_template.as_str(),
                );
                proof {
                    assert(list@.subrange(0, i + 1).drop_last() =~= list@.subrange(0, i as int));
                    assert(out@ =~= old(out)@ + CONFIGURED_OPEN@ + configured_rows(
                        list@.subrange(0, i + 1),
                    ));
                }
                i += 1;
            }
            push_text(out, CONFIGURED_CLOSE);
            proof {
                assert(list@.subrange(0, list.len() as int) =~= list@);
                assert(out@ =~= old(out)@ + configured_section(*configured));
            }
        },
        None => {
            proof {
                assert(out@ =~= old(out)@ + Seq::<char>::empty());
            }
        },
    }
}

fn push_active_rows(out: &mut Vec<char>, listing: &Vec<CacheEntry>)
    ensures
        final(out)@ == old(out)@ + active_rows(listing@),
{
    let mut i: usize = 0;
    proof {
        assert(out@ =~= old(out)@ + active_rows(listing@.subrange(0, 0)));
    }
    while i < listing.len()
        invariant
            i <= listing.len(),
            out@ == old(out)@ + active_rows(listing@.subrange(0, i as int)),
        decreases listing.len() - i,
    {
        push_active_row(out, listing[i].trigger.as_str(), listing[i].url_template.as_str());
        proof {
            assert(listing@.subrange(0, i + 1).drop_last() =~= listing@.subrange(0, i as int));
            assert(out@ =~= old(out)@ + active_rows(listing@.subrange(0, i + 1)));
        }
        i += 1;
    }
    proof {
        assert(listing@.subrange(0, listing.len() as int) =~= listing@);
    }
}

/// The listing page under a given title: the configured records, where an
/// overlay list exists, and the cached mappings.
pub fn listing_with_title(title: &str, configured: &Option<Vec<Bang>>, listing: &Vec<CacheEntry>) -> (r:
    String)
    ensures
        r@ == listing_text(title@, *configured, listing@),
{
    let mut out: Vec<char> = Vec::new();
    push_text(&mut out, LISTING_OPEN);
    push_text(&mut out, LISTING_HEAD);
    push_text(&mut out, title);
    push_text(&mut out, LISTING_BODY);
    push_configured_section(&mut out, configured);
    push_text(&mut out, ACTIVE_OPEN);
    push_active_rows(&mut out, listing);
    push_text(&mut out, LISTING_CLOSE);
    proof {
        assert(out@ =~= listing_text(title@, *configured, listing@));
    }
    string_of(out.as_slice())
}

/// The listing page of a program: its title is the program's name in title
/// case.
pub fn listing_page(name: &str, configured: &Option<Vec<Bang>>, listing: &Vec<CacheEntry>) -> (r:
    String)
    ensures
        r@ == listing_text(title_cased(name@), *configured, listing@),
{
    let title = title_case(name);
    listing_with_title(title.as_str(), configured, listing)
}

/// The search description under a given short name.
pub fn search_description_with_name(short_name: &str, description: &str, host: &str, port: u16) -> (r:
    String)
    ensures
        r@ == search_description_text(short_name@, description@, host@, port),
{
    let mut out: Vec<char> = Vec::new();
    push_text(&mut out, SEARCH_OPEN);
    push_text(&mut out, short_name);
    push_text(&mut out, SEARCH_DESCRIPTION);
    push_text(&mut out, description);
    push_text(&mut out, SEARCH_URL);
    push_text(&mut out, host);
    push_text(&mut out, ":");
    push_decimal(&mut out, port as u64);
    push_text(&mut out, SEARCH_SUGGEST);
    push_text(&mut out, host);
    push_text(&mut out, ":");
    push_decimal(&mut out, port as u64);
    push_text(&mut out, SEARCH_CLOSE);
    proof {
        assert(out@ =~= search_description_text(short_name@, description@, host@, port));
    }
    string_of(out.as_slice())
}

/// The search description of a program: its short name is the program's
/// name in title case.
pub fn search_description(name: &str, description: &str, host: &str, port: u16) -> (r: String)
    ensures
        r@ == search_description_text(title_cased(name@), description@, host@, port),
{
    let short_name = title_case(name);
    search_description_with_name(short_name.as_str(), description, host, port)
}

} // verus!
