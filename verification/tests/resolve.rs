use redirector::bang::Bang;
use redirector::cache::BangCache;
use redirector::config::AppConfig;
use redirector::encode::encode;
use redirector::query::{find_bang, find_token_end, split_bang};
use redirector::resolver::{resolve, suggestions_url};
use redirector::template::{find_marker, substitute};
use redirector::text::{chars_of, string_of};

fn chars(s: &str) -> Vec<char> {
    s.chars().collect()
}

fn text(v: &[char]) -> String {
    v.iter().collect()
}

fn config_with_default(default_search: &str) -> AppConfig {
    let mut config = AppConfig::default();
    config.default_search = default_search.to_string();
    config
}

fn github_cache() -> BangCache {
    let mut cache = BangCache::new();
    cache.insert("gh".to_string(), "https://github.com/search?q={}".to_string());
    cache
}

#[test]
fn chars_of_gives_every_character_in_order() {
    assert_eq!(chars_of("a€b"), vec!['a', '€', 'b']);
    assert_eq!(chars_of(""), Vec::<char>::new());
}

#[test]
fn string_of_builds_the_text() {
    assert_eq!(string_of(&['h', 'é', '!']), "hé!");
    assert_eq!(string_of(&[]), "");
}

#[test]
fn encode_keeps_unreserved_characters() {
    let s = "AZaz09-._~";
    assert_eq!(text(&encode(&chars(s))), s);
}

#[test]
fn encode_escapes_reserved_characters() {
    assert_eq!(text(&encode(&chars(" &#?/%"))), "%20%26%23%3F%2F%25");
    assert_eq!(text(&encode(&chars("!zzz hello"))), "%21zzz%20hello");
    assert_eq!(text(&encode(&chars("a+b=c"))), "a%2Bb%3Dc");
}

#[test]
fn encode_escapes_each_byte_of_a_wide_character() {
    assert_eq!(text(&encode(&chars("é"))), "%C3%A9");
    assert_eq!(text(&encode(&chars("€"))), "%E2%82%AC");
    assert_eq!(text(&encode(&chars("😀"))), "%F0%9F%98%80");
    assert_eq!(text(&encode(&chars("\u{7f}\u{80}\u{7ff}\u{800}\u{ffff}\u{10000}"))),
        "%7F%C2%80%DF%BF%E0%A0%80%EF%BF%BF%F0%90%80%80");
}

#[test]
fn encode_of_nothing_is_nothing() {
    assert_eq!(encode(&[]), Vec::<char>::new());
}

#[test]
fn find_bang_takes_the_first_token_that_begins_with_a_bang() {
    assert_eq!(find_bang(&chars("!gh rust")), Some(0));
    assert_eq!(find_bang(&chars("rust !gh")), Some(5));
    assert_eq!(find_bang(&chars("a !b !c")), Some(2));
    assert_eq!(find_bang(&chars("a\t!b")), Some(2));
    assert_eq!(find_bang(&chars("plain query")), None);
    assert_eq!(find_bang(&chars("wow! really")), None);
    assert_eq!(find_bang(&chars("a!b")), None);
    assert_eq!(find_bang(&chars("")), None);
}

#[test]
fn find_token_end_stops_at_a_separator_or_at_the_end() {
    assert_eq!(find_token_end(&chars("!gh rust"), 0), 3);
    assert_eq!(find_token_end(&chars("rust !gh"), 5), 8);
    assert_eq!(find_token_end(&chars("a b"), 1), 1);
    assert_eq!(find_token_end(&chars("abc"), 3), 3);
}

#[test]
fn split_bang_at_the_start() {
    let s = split_bang(&chars("!gh rustlang")).unwrap();
    assert_eq!(text(&s.trigger), "gh");
    assert_eq!(text(&s.rest), "rustlang");
}

#[test]
fn split_bang_at_the_end() {
    let s = split_bang(&chars("rustlang !gh")).unwrap();
    assert_eq!(text(&s.trigger), "gh");
    assert_eq!(text(&s.rest), "rustlang");
}

#[test]
fn split_bang_in_the_middle_removes_one_separator() {
    let s = split_bang(&chars("foo !gh  bar")).unwrap();
    assert_eq!(text(&s.trigger), "gh");
    assert_eq!(text(&s.rest), "foo  bar");
}

#[test]
fn split_bang_alone() {
    let s = split_bang(&chars("!gh")).unwrap();
    assert_eq!(text(&s.trigger), "gh");
    assert_eq!(text(&s.rest), "");
    let s = split_bang(&chars("!")).unwrap();
    assert_eq!(text(&s.trigger), "");
    assert_eq!(text(&s.rest), "");
}

#[test]
fn split_bang_honours_only_the_first_token() {
    let s = split_bang(&chars("!a !b c")).unwrap();
    assert_eq!(text(&s.trigger), "a");
    assert_eq!(text(&s.rest), "!b c");
}

#[test]
fn split_bang_without_a_bang() {
    assert!(split_bang(&chars("plain query")).is_none());
    assert!(split_bang(&chars("")).is_none());
}

#[test]
fn find_marker_gives_the_first_marker() {
    assert_eq!(find_marker(&chars("a{}b{}")), Some(1));
    assert_eq!(find_marker(&chars("{}")), Some(0));
    assert_eq!(find_marker(&chars("a{b}")), None);
    assert_eq!(find_marker(&chars("{")), None);
    assert_eq!(find_marker(&chars("")), None);
}

#[test]
fn substitute_replaces_the_marker() {
    assert_eq!(text(&substitute(&chars("https://x/?q={}&l=en"), &chars("abc"))), "https://x/?q=abc&l=en");
    assert_eq!(text(&substitute(&chars("{}"), &chars(""))), "");
}

#[test]
fn substitute_without_a_marker_keeps_the_template() {
    assert_eq!(text(&substitute(&chars("https://x/"), &chars("abc"))), "https://x/");
}

#[test]
fn substitute_replaces_only_the_first_marker() {
    assert_eq!(text(&substitute(&chars("{}-{}"), &chars("v"))), "v-{}");
}

#[test]
fn resolve_known_trigger() {
    let config = config_with_default("https://example.com/s?q={}");
    let cache = github_cache();
    assert_eq!(resolve(&config, &cache, "!gh rustlang"), "https://github.com/search?q=rustlang");
}

#[test]
fn resolve_known_trigger_anywhere_in_the_query() {
    let config = config_with_default("https://example.com/s?q={}");
    let cache = github_cache();
    assert_eq!(resolve(&config, &cache, "rust lang !gh"), "https://github.com/search?q=rust%20lang");
    assert_eq!(resolve(&config, &cache, "rust !gh lang"), "https://github.com/search?q=rust%20lang");
    assert_eq!(resolve(&config, &cache, "!gh"), "https://github.com/search?q=");
}

#[test]
fn resolve_unknown_trigger_falls_back_with_the_whole_query() {
    let config = config_with_default("https://example.com/s?q={}");
    let cache = github_cache();
    assert_eq!(resolve(&config, &cache, "!zzz hello"), "https://example.com/s?q=%21zzz%20hello");
}

#[test]
fn resolve_without_trigger_falls_back() {
    let config = config_with_default("https://example.com/s?q={}");
    let cache = github_cache();
    assert_eq!(resolve(&config, &cache, "plain query"), "https://example.com/s?q=plain%20query");
}

#[test]
fn resolve_is_case_sensitive_on_the_trigger() {
    let config = config_with_default("https://example.com/s?q={}");
    let cache = github_cache();
    assert_eq!(resolve(&config, &cache, "!GH rust"), "https://example.com/s?q=%21GH%20rust");
}

#[test]
fn resolve_with_an_empty_cache_uses_the_default_search() {
    let config = AppConfig::default();
    let cache = BangCache::new();
    assert_eq!(resolve(&config, &cache, "!gh rust"), "https://www.qwant.com/?q=%21gh%20rust");
}

#[test]
fn resolve_with_a_template_without_marker() {
    let config = config_with_default("https://example.com/");
    let mut cache = BangCache::new();
    cache.insert("home".to_string(), "https://home.example/".to_string());
    assert_eq!(resolve(&config, &cache, "!home now"), "https://home.example/");
    assert_eq!(resolve(&config, &cache, "now"), "https://example.com/");
}

#[test]
fn suggestions_url_takes_the_query_as_it_is() {
    let mut config = AppConfig::default();
    assert_eq!(suggestions_url(&config, "a b"), "https://search.brave.com/api/suggest?q=a b");
    config.search_suggestions = "https://s.example/?q={}&n=5".to_string();
    assert_eq!(suggestions_url(&config, "rust"), "https://s.example/?q=rust&n=5");
}

#[test]
fn bang_new_has_no_metadata() {
    let b = Bang::new("gh".to_string(), "https://github.com/search?q={}".to_string());
    assert_eq!(b.trigger, "gh");
    assert_eq!(b.url_template, "https://github.com/search?q={}");
    assert!(b.category.is_none() && b.domain.is_none() && b.relevance.is_none());
    assert!(b.short_name.is_none() && b.subcategory.is_none());
}

#[test]
fn encode_leaves_only_unreserved_characters_and_percent_signs() {
    let mut all: Vec<char> = Vec::new();
    for u in 0u32..0x250 {
        all.push(char::from_u32(u).unwrap());
    }
    all.push('\u{20ac}');
    all.push('\u{1f600}');
    for c in encode(&all) {
        assert!(c.is_ascii_alphanumeric() || "-._~%".contains(c));
    }
}

#[test]
fn encode_matches_the_bytes_of_the_text() {
    let s = "naïve café";
    let mut expected = String::new();
    for b in s.bytes() {
        if b.is_ascii_alphanumeric() {
            expected.push(b as char);
        } else {
            expected.push_str(&format!("%{:02X}", b));
        }
    }
    assert_eq!(text(&encode(&chars(s))), expected);
    assert_eq!(expected, "na%C3%AFve%20caf%C3%A9");
}
