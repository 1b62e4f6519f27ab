use redirector::bang::Bang;
use redirector::cache::CacheEntry;
use redirector::config::{AppConfig, IpAddress};
use redirector::location::{config_location, home_config_location};
use redirector::pages::{
    listing_page, listing_with_title, push_active_row, push_configured_row, search_description,
    search_description_with_name,
};
use redirector::state::AppState;

fn owned(parts: &[&str]) -> Vec<String> {
    parts.iter().map(|s| s.to_string()).collect()
}

#[test]
fn config_location_prefers_the_session_directory() {
    assert_eq!(
        config_location(Some("/xdg".to_string()), Some("/home/u".to_string())),
        owned(&["/xdg", "redirector", "config.toml"])
    );
}

#[test]
fn config_location_skips_an_empty_session_directory() {
    assert_eq!(
        config_location(Some(String::new()), Some("/home/u".to_string())),
        owned(&["/home/u", ".config", "redirector", "config.toml"])
    );
}

#[test]
fn config_location_falls_back_on_the_current_directory() {
    assert_eq!(config_location(None, None), owned(&[".", ".config", "redirector", "config.toml"]));
    assert_eq!(home_config_location(None), owned(&[".", ".config", "redirector", "config.toml"]));
    assert_eq!(
        home_config_location(Some("/h".to_string())),
        owned(&["/h", ".config", "redirector", "config.toml"])
    );
}

#[test]
fn configured_row_has_three_cells() {
    let mut out = vec!['>'];
    push_configured_row(&mut out, "Some(\"GH\")", "gh", "g{}");
    let got: String = out.iter().collect();
    assert_eq!(got, "><tr><td><strong>Some(\"GH\")</strong></td><td>gh</td><td>g{}</td></tr>");
}

#[test]
fn active_row_has_two_cells() {
    let mut out = Vec::new();
    push_active_row(&mut out, "gh", "g{}");
    let got: String = out.iter().collect();
    assert_eq!(got, "<tr><td><strong>gh</strong></td><td>g{}</td></tr>");
}

#[test]
fn listing_without_overlay_shows_only_the_cache() {
    let listing = vec![CacheEntry { trigger: "gh".to_string(), url_template: "g{}".to_string() }];
    let page = listing_with_title("T", &None, &listing);
    assert!(page.starts_with("<style>:root { background: #181818;"));
    assert!(page.contains("title=\"T\" href=\"/opensearch.xml\"/><title>Bang Commands</title>"));
    assert!(!page.contains("Configured Bangs"));
    assert!(page.ends_with(
        "<h1>Bang Commands</h1><h2>Active Bangs</h2><table><th>Trigger</th><th>URL</th><tr><td><strong>gh</strong></td><td>g{}</td></tr></ul></body></html>"
    ));
}

#[test]
fn listing_page_shows_configured_records_with_their_abbreviation() {
    let mut named = Bang::new("gh".to_string(), "g{}".to_string());
    named.short_name = Some("Git\"Hub".to_string());
    let plain = Bang::new("w".to_string(), "w{}".to_string());
    let page = listing_page("my-search_tool", &Some(vec![named, plain]), &Vec::new());
    assert!(page.contains("title=\"My Search Tool\" href="));
    assert!(page.ends_with(
        "<h2>Configured Bangs</h2><table><th>Abbr.</th><th>Trigger</th><th>URL</th><tr><td><strong>Some(\"Git\\\"Hub\")</strong></td><td>gh</td><td>g{}</td></tr><tr><td><strong>None</strong></td><td>w</td><td>w{}</td></tr></table><h2>Active Bangs</h2><table><th>Trigger</th><th>URL</th></ul></body></html>"
    ));
}

#[test]
fn search_description_names_host_and_port_twice() {
    let expected = "<?xml version=\"1.0\" encoding=\"UTF-8\"?>\n<OpenSearchDescription\n  xmlns=\"http://a9.com/-/spec/opensearch/1.1/\"\n  xmlns:moz=\"http://www.mozilla.org/2006/browser/search/\">\n  <ShortName>Redirector</ShortName>\n  <Description>about</Description>\n  <InputEncoding>UTF-8</InputEncoding>\n  <Url type=\"text/html\" method=\"GET\" template=\"http://0.0.0.0:3000/?q={searchTerms}\" />\n  <Url type=\"application/x-suggestions+json\" method=\"GET\" template=\"http://0.0.0.0:3000/suggest?q={searchTerms}\" />\n</OpenSearchDescription>";
    assert_eq!(search_description("redirector", "about", "0.0.0.0", 3000), expected);
    assert_eq!(search_description_with_name("Redirector", "about", "0.0.0.0", 3000), expected);
}

#[test]
fn state_hands_out_the_configuration_it_holds() {
    let mut config = AppConfig::default();
    config.port = 8123;
    config.ip = IpAddress::V4(127, 0, 0, 1);
    config.bangs_url = "https://b.example/bang.js".to_string();
    config.default_search = "https://d.example/?q={}".to_string();
    config.search_suggestions = "https://s.example/?q={}".to_string();
    config.bangs = Some(vec![Bang::new("gh".to_string(), "g{}".to_string())]);
    let state = AppState::new(config);
    let seen = state.get_config();
    assert_eq!(seen.port, 8123);
    assert_eq!(seen.ip, IpAddress::V4(127, 0, 0, 1));
    assert_eq!(seen.bangs_url, "https://b.example/bang.js");
    assert_eq!(seen.default_search, "https://d.example/?q={}");
    assert_eq!(seen.search_suggestions, "https://s.example/?q={}");
    let bangs = seen.bangs.unwrap();
    assert_eq!(bangs.len(), 1);
    assert_eq!(bangs[0].trigger, "gh");
    assert_eq!(bangs[0].url_template, "g{}");
}

#[test]
fn state_keeps_its_settings_when_the_overlay_changes() {
    let mut config = AppConfig::default();
    config.port = 8123;
    config.bangs = Some(vec![Bang::new("gh".to_string(), "g{}".to_string())]);
    let state = AppState::new(config);
    let shared = state.clone();
    shared.set_bangs(None);
    let seen = state.get_config();
    assert!(seen.bangs.is_none());
    assert_eq!(seen.port, 8123);
    assert_eq!(seen.default_search, "https://www.qwant.com/?q={}");
    state.set_bangs(Some(vec![Bang::new("yt".to_string(), "y{}".to_string())]));
    let seen = shared.get_config();
    assert_eq!(seen.bangs.unwrap()[0].trigger, "yt");
    assert_eq!(seen.port, 8123);
}

#[test]
fn with_overlay_joins_the_settings_and_the_list() {
    let mut config = AppConfig::default();
    config.port = 9;
    config.search_suggestions = "https://s.example/?q={}".to_string();
    config.bangs = Some(vec![Bang::new("gh".to_string(), "g{}".to_string())]);
    let state = AppState::new(config);
    let made = state.with_overlay(Some(vec![Bang::new("w".to_string(), "w{}".to_string())]));
    assert_eq!(made.port, 9);
    assert_eq!(made.ip, IpAddress::V4(0, 0, 0, 0));
    assert_eq!(made.bangs_url, "https://duckduckgo.com/bang.js");
    assert_eq!(made.default_search, "https://www.qwant.com/?q={}");
    assert_eq!(made.search_suggestions, "https://s.example/?q={}");
    assert_eq!(made.bangs.unwrap()[0].trigger, "w");
    assert!(state.with_overlay(None).bangs.is_none());
    assert_eq!(state.get_config().bangs.unwrap()[0].trigger, "gh");
}
