use deemix_bot::flow::{Action, AfterQueue, AfterSearch, Button, Markup, Pending, SearchKind, Step};
use deemix_bot::json::{parse, Json};
use deemix_bot::links::{
    clean_link, extract_link, queue_matched, queue_url, route_link, short_link_followed, take_text,
    trim_trailing_punct,
};
use deemix_bot::pattern::Groups;
use deemix_bot::search::{build_search_results, do_search, show_search};

fn texts(step: &Step) -> Vec<&str> {
    step.actions
        .iter()
        .map(|a| match a {
            Action::Send { text, .. } => text.as_str(),
            Action::Edit { text, .. } => text.as_str(),
            _ => "",
        })
        .collect()
}

fn item(title: &str, artist: &str, link: &str) -> Json {
    parse(&format!(
        r#"{{"title": "{}", "artist": {{"name": "{}"}}, "link": "{}"}}"#,
        title, artist, link
    ))
    .unwrap()
}

// Links

#[test]
fn punctuation_behind_a_link_is_dropped() {
    assert_eq!(trim_trailing_punct("https://x/y."), "https://x/y");
    assert_eq!(trim_trailing_punct("https://x/y)!?"), "https://x/y");
    assert_eq!(trim_trailing_punct("https://x/y»\"'"), "https://x/y");
    assert_eq!(trim_trailing_punct("https://x/(y)z"), "https://x/(y)z");
    assert_eq!(trim_trailing_punct("..."), "");
    assert_eq!(trim_trailing_punct(""), "");
}

#[test]
fn the_first_link_of_a_message_is_found() {
    assert_eq!(
        extract_link("look: https://www.deezer.com/track/1, and https://b"),
        Some("https://www.deezer.com/track/1".to_string())
    );
    assert_eq!(extract_link("(HTTPS://x.y/z)"), Some("HTTPS://x.y/z".to_string()));
    assert_eq!(
        extract_link("try youtube.com/watch?v=a."),
        Some("https://youtube.com/watch?v=a".to_string())
    );
    assert_eq!(extract_link("open.spotify.com/track/1"), Some("https://open.spotify.com/track/1".to_string()));
    assert_eq!(extract_link("just words"), None);
    assert_eq!(extract_link("example.com/x"), None);
    assert_eq!(extract_link("spotify.com http://a.b"), Some("http://a.b".to_string()));
}

#[test]
fn a_link_with_a_scheme_wins() {
    let some = |t: &str| Some(t.to_string());
    assert_eq!(clean_link(&some("http://a."), &some("b")), some("http://a"));
    assert_eq!(clean_link(&None, &some("b,")), some("https://b"));
    assert_eq!(clean_link(&None, &None), None);
}

#[test]
fn deezer_links_are_queued() {
    let step = queue_url("https://www.deezer.com/en/album/302127");
    assert_eq!(texts(&step), vec!["⏳ Queuing album..."]);
    match step.next {
        Pending::Queue { url, after: AfterQueue::Linked { label } } => {
            assert_eq!(
                (url.as_str(), label.as_str()),
                ("https://www.deezer.com/en/album/302127", "Album")
            );
        }
        _ => panic!("not queued"),
    }
    let refused = queue_url("https://www.deezer.com/show/1");
    assert_eq!(texts(&refused), vec!["❌ That doesn't look like a valid Deezer URL."]);
    let kindless = queue_matched("u", &Groups { groups: Some(vec![Some("u".to_string())]) });
    assert_eq!(texts(&kindless), vec!["⏳ Queuing item..."]);
}

#[test]
fn short_links_are_followed() {
    match take_text("x", &Some("https://link.deezer.com/s/abc".to_string())).next {
        Pending::FollowLink { url } => assert_eq!(url, "https://link.deezer.com/s/abc"),
        _ => panic!("not followed"),
    }
    let step = short_link_followed(&Some("https://www.deezer.com/track/5?utm=1".to_string()));
    assert_eq!(texts(&step), vec!["⏳ Queuing track..."]);
    assert_eq!(texts(&short_link_followed(&None)), vec!["❌ Could not resolve that link."]);
}

#[test]
fn links_are_routed_by_what_they_are() {
    assert!(matches!(route_link("https://youtu.be/a", true, true, true).next, Pending::Odesli { .. }));
    assert!(matches!(route_link("u", false, true, true).next, Pending::FollowLink { .. }));
    let deezer = route_link("https://www.deezer.com/track/5", false, false, true);
    assert!(matches!(deezer.next, Pending::Queue { .. }));
    let unknown = take_text("x", &Some("https://example.com".to_string()));
    assert_eq!(
        texts(&unknown),
        vec!["🤷 Unsupported link.\nSend me a link from Deezer, Spotify, Apple Music, or YouTube."]
    );
    let full = take_text("x", &Some("https://www.deezer.com/playlist/9".to_string()));
    assert_eq!(texts(&full), vec!["⏳ Queuing playlist..."]);
}

#[test]
fn a_text_without_a_link_is_searched_for() {
    let step = take_text("muse uprising", &None);
    assert_eq!(texts(&step), vec!["🔍 Searching for muse uprising..."]);
    match step.next {
        Pending::Search { query, kind, after: AfterSearch::List { query: listed, .. } } => {
            assert_eq!(
                (query.as_str(), kind, listed.as_str()),
                ("muse uprising", SearchKind::Track, "muse uprising")
            );
        }
        _ => panic!("no search"),
    }
}

// Search results

#[test]
fn results_are_listed_with_a_button_each() {
    let results = vec![item("One", "A", "https://l/1"), parse("{}").unwrap()];
    let (listing, rows) = build_search_results(&results, "🎵");
    assert_eq!(listing, "1. One — A\n2. ? — ?\n");
    assert_eq!(rows.len(), 2);
    match &rows[0][0] {
        Button::Callback { label, data } => {
            assert_eq!((label.as_str(), data.as_str()), ("🎵 1. One — A", "dl:https://l/1"));
        }
        _ => panic!("no callback"),
    }
    match &rows[1][0] {
        Button::Callback { label, data } => {
            assert_eq!((label.as_str(), data.as_str()), ("🎵 2. ? — ?", "dl:"));
        }
        _ => panic!("no callback"),
    }
}

#[test]
fn long_labels_are_cut_but_not_the_listing() {
    let title = "t".repeat(100);
    let (listing, rows) = build_search_results(&vec![item(&title, "A", "l")], "💿");
    assert_eq!(listing, format!("1. {} — A\n", title));
    match &rows[0][0] {
        Button::Callback { label, .. } => {
            assert_eq!(label.chars().count(), 60);
            assert!(label.ends_with('…'));
        }
        _ => panic!("no callback"),
    }
}

#[test]
fn searches_are_announced_and_shown() {
    assert_eq!(texts(&do_search("q", SearchKind::Album)), vec!["🔍 Searching for q..."]);
    assert_eq!(texts(&show_search("q", SearchKind::Track, Ok(vec![]))), vec!["😕 No results found."]);
    assert_eq!(
        texts(&show_search("q", SearchKind::Track, Err("e".to_string()))),
        vec!["❌ Search failed: e"]
    );
    let step = show_search("q", SearchKind::Album, Ok(vec![item("One", "A", "l")]));
    assert_eq!(texts(&step), vec!["Results for q:\n\n1. One — A\n\nTap a button to download."]);
    match &step.actions[0] {
        Action::Edit { markup: Markup::Inline(rows), .. } => {
            assert_eq!(rows.len(), 2);
            match (&rows[0][0], &rows[1][0]) {
                (Button::Callback { label, .. }, Button::Callback { label: last, data }) => {
                    assert_eq!(label, "💿 1. One — A");
                    assert_eq!((last.as_str(), data.as_str()), ("❌ Cancel", "cancel"));
                }
                _ => panic!("no callbacks"),
            }
        }
        _ => panic!("no buttons"),
    }
}

#[test]
fn the_listing_names_results_in_full() {
    let title = "t".repeat(200);
    let results = vec![item("a", "b", "1"), item(&title, "c", "2")];
    let (listing, _) = build_search_results(&results, "🎵");
    assert!(listing.contains("1. a — b"));
    assert!(listing.contains(&format!("2. {} — c", title)));
}
