use deemix_bot::flow::{
    Action, AfterOdesli, AfterQueue, AfterSearch, AfterSpotify, Button, Markup, Pending, SearchKind,
    Step,
};
use deemix_bot::json::{parse, Json};
use deemix_bot::spotify::{Playlist, PlaylistTrack, SpotifyMeta};
use deemix_bot::streaming::{
    classify, first_link, handle_streaming_link, is_streaming_link, link_found, link_queued,
    link_resolved, link_searched, look_up, odesli_link, odesli_request, queue_playlist,
    spotify_playlist_read, start_link, youtube_playlist_read, StreamingLink,
};

fn text_of(action: &Action) -> &str {
    match action {
        Action::Send { text, .. } => text,
        Action::Edit { text, .. } => text,
        Action::TrySend { text } => text,
        Action::TryEdit { text } => text,
        _ => "",
    }
}

fn texts(step: &Step) -> Vec<&str> {
    step.actions.iter().map(text_of).collect()
}

fn meta() -> SpotifyMeta {
    SpotifyMeta { query: "Song Band".to_string(), label: "Song — Band".to_string() }
}

fn json(text: &str) -> Json {
    parse(text).unwrap()
}

fn hit(link: &str) -> Result<Vec<Json>, String> {
    Ok(vec![json(&format!(r#"{{"title": "T", "artist": {{"name": "A"}}, "link": "{}"}}"#, link))])
}

#[test]
fn links_are_classified_in_order() {
    assert_eq!(classify(true, true, true, true, true), StreamingLink::Spotify(SearchKind::Track));
    assert_eq!(classify(false, true, true, true, true), StreamingLink::Spotify(SearchKind::Album));
    assert_eq!(classify(false, false, true, true, true), StreamingLink::SpotifyPlaylist);
    assert_eq!(classify(false, false, false, true, true), StreamingLink::YoutubePlaylist);
    assert_eq!(classify(false, false, false, true, false), StreamingLink::Other);
    assert_eq!(classify(false, false, false, false, true), StreamingLink::Other);
}

#[test]
fn services_are_known_by_their_links() {
    for url in [
        "https://open.spotify.com/track/abc",
        "http://open.spotify.com/album/abc",
        "https://open.spotify.com/playlist/abc",
        "https://www.youtube.com/watch?v=a",
        "https://youtube.com/shorts/a",
        "https://youtu.be/a",
        "https://music.youtube.com/watch?v=a",
        "https://music.apple.com/us/album/1",
    ] {
        assert!(is_streaming_link(url), "{}", url);
    }
    for url in ["https://www.deezer.com/track/1", "https://open.spotify.com/artist/a", "https://x.y"] {
        assert!(!is_streaming_link(url), "{}", url);
    }
}

#[test]
fn a_spotify_track_is_resolved_first() {
    let url = "https://open.spotify.com/track/abc";
    let step = handle_streaming_link(url);
    assert_eq!(texts(&step), vec!["🎵 Looking up link..."]);
    match step.next {
        Pending::Spotify { url: asked, after: AfterSpotify::Link { url: kept, kind } } => {
            assert_eq!((asked.as_str(), kept.as_str(), kind), (url, url, SearchKind::Track));
        }
        _ => panic!("Spotify not asked"),
    }
    match handle_streaming_link("https://open.spotify.com/album/abc").next {
        Pending::Spotify { after: AfterSpotify::Link { kind, .. }, .. } => {
            assert_eq!(kind, SearchKind::Album);
        }
        _ => panic!("Spotify not asked"),
    }
}

#[test]
fn playlists_are_read_first() {
    let step = handle_streaming_link("https://open.spotify.com/playlist/abc");
    assert_eq!(texts(&step), vec!["🎵 Looking up link...", "🔍 Reading Spotify playlist..."]);
    assert!(matches!(step.next, Pending::SpotifyPlaylist { .. }));
    let step = handle_streaming_link("https://www.youtube.com/playlist?list=PLx");
    assert_eq!(texts(&step), vec!["🎵 Looking up link...", "🔍 Reading YouTube playlist..."]);
    assert!(matches!(step.next, Pending::YoutubePlaylist { .. }));
}

#[test]
fn everything_else_goes_to_odesli() {
    let step = handle_streaming_link("https://youtu.be/abc");
    assert_eq!(
        texts(&step),
        vec!["🎵 Looking up link...", "🔍 Looking up YouTube link on Deezer..."]
    );
    match step.next {
        Pending::Odesli { url, after: AfterOdesli::Link { service } } => {
            assert_eq!((url.as_str(), service.as_str()), ("https://youtu.be/abc", "YouTube link"));
        }
        _ => panic!("Odesli not asked"),
    }
    let step = handle_streaming_link("https://music.apple.com/us/album/x/1");
    assert_eq!(texts(&step)[1], "🔍 Looking up Apple Music link on Deezer...");
    let direct = start_link("u", StreamingLink::Other, false);
    assert_eq!(texts(&direct)[1], "🔍 Looking up Apple Music link on Deezer...");
    let alone = look_up(Step::new(), "u", true);
    assert_eq!(texts(&alone), vec!["🔍 Looking up YouTube link on Deezer..."]);
}

#[test]
fn a_resolved_link_is_searched_for() {
    let step = link_resolved("u".to_string(), SearchKind::Album, Some(meta()));
    assert_eq!(texts(&step), vec!["🔍 Found: Song — Band\nSearching on Deezer..."]);
    match step.next {
        Pending::Search { query, kind, after: AfterSearch::Linked { url, .. } } => {
            assert_eq!((query.as_str(), kind, url.as_str()), ("Song Band", SearchKind::Album, "u"));
        }
        _ => panic!("no search"),
    }
    let step = link_resolved("u".to_string(), SearchKind::Track, None);
    assert_eq!(texts(&step), vec!["❌ Could not resolve Spotify link. Try /search instead."]);
}

#[test]
fn a_link_without_results_is_tried_with_odesli() {
    match link_searched("u".to_string(), meta(), SearchKind::Track, Ok(vec![])).next {
        Pending::Odesli { url, after: AfterOdesli::Unlisted { meta } } => {
            assert_eq!((url.as_str(), meta.label.as_str()), ("u", "Song — Band"));
        }
        _ => panic!("Odesli not asked"),
    }
    let step = link_searched("u".to_string(), meta(), SearchKind::Album, hit("l"));
    assert_eq!(
        texts(&step),
        vec!["Results for Song Band:\n\n1. T — A\n\nTap a button to download."]
    );
    match &step.actions[0] {
        Action::Edit { markup: Markup::Inline(rows), .. } => match &rows[0][0] {
            Button::Callback { label, data } => {
                assert_eq!((label.as_str(), data.as_str()), ("💿 1. T — A", "dl:l"));
            }
            _ => panic!("no callback"),
        },
        _ => panic!("no buttons"),
    }
    let step = link_searched("u".to_string(), meta(), SearchKind::Track, Err("e".to_string()));
    assert_eq!(texts(&step), vec!["❌ Search failed: e"]);
}

#[test]
fn what_odesli_finds_is_queued() {
    let after = || AfterOdesli::Unlisted { meta: meta() };
    match link_found(after(), Some("d".to_string())).next {
        Pending::Queue { url, after: AfterQueue::Linked { label } } => {
            assert_eq!((url.as_str(), label.as_str()), ("d", "Song — Band"));
        }
        _ => panic!("not queued"),
    }
    assert_eq!(
        texts(&link_found(after(), None)),
        vec!["😕 No results found on Deezer for: Song Band"]
    );
    let spelled = AfterOdesli::Link { service: "YouTube link".to_string() };
    match link_found(spelled, Some("d".to_string())).next {
        Pending::Queue { after: AfterQueue::Linked { label }, .. } => assert_eq!(label, "YouTube link"),
        _ => panic!("not queued"),
    }
    let link = || AfterOdesli::Link { service: "youTube link".to_string() };
    match link_found(link(), Some("d".to_string())).next {
        Pending::Queue { after: AfterQueue::Linked { label }, .. } => assert_eq!(label, "YouTube link"),
        _ => panic!("not queued"),
    }
    assert_eq!(
        texts(&link_found(link(), None)),
        vec!["😕 Couldn't find this youTube link on Deezer. Try searching by name with /search."]
    );
}

#[test]
fn the_outcome_of_queueing_a_link() {
    assert_eq!(texts(&link_queued("Track", Ok(vec![]))), vec!["✅ Track added to queue!"]);
    assert_eq!(texts(&link_queued("x", Err("e".to_string()))), vec!["❌ Failed to queue: e"]);
}

#[test]
fn the_first_result_is_taken() {
    assert_eq!(first_link(&hit("a").unwrap()), Some("a".to_string()));
    assert_eq!(first_link(&vec![json("{}"), json(r#"{"link": "b"}"#)]), None);
    assert_eq!(first_link(&vec![]), None);
}

fn playlist(n: usize) -> Playlist {
    let tracks = (0..n)
        .map(|i| PlaylistTrack {
            title: format!("T{}", i),
            artist: if i % 2 == 0 { format!("A{}", i) } else { String::new() },
        })
        .collect();
    Playlist { name: "Mix".to_string(), tracks }
}

// Plays a whole playlist: `found` tells whether a search has a result, `taken`
// whether deemix takes a link. Returns the searches, the progress reports and
// the summary.
fn play(
    p: Playlist,
    found: fn(&str) -> bool,
    taken: fn(&str) -> bool,
) -> (Vec<String>, Vec<String>, String) {
    let mut searches: Vec<String> = Vec::new();
    let mut progress: Vec<String> = Vec::new();
    let mut step = queue_playlist(p);
    for _ in 0..1000 {
        let mut summary = String::new();
        for action in &step.actions {
            match action {
                Action::TryEdit { text } => progress.push(text.clone()),
                Action::Edit { text, .. } => summary = text.clone(),
                _ => panic!("unexpected action"),
            }
        }
        step = match step.next {
            Pending::Done => return (searches, progress, summary),
            Pending::Search { query, after: AfterSearch::Playlist { run, by_title }, .. } => {
                let reply = if found(&query) { hit(&query) } else { Ok(vec![]) };
                searches.push(query);
                run.track_searched(by_title, reply)
            }
            Pending::Queue { url, after: AfterQueue::Playlist { run } } => {
                if taken(&url) {
                    run.track_queued(Ok(vec![]))
                } else {
                    run.track_queued(Err("refused".to_string()))
                }
            }
            _ => panic!("unexpected work"),
        };
    }
    panic!("the playlist does not end");
}

#[test]
fn every_track_of_a_playlist_is_queued() {
    let (searches, progress, summary) = play(playlist(7), |_| true, |_| true);
    assert_eq!(searches, vec!["T0 A0", "T1", "T2 A2", "T3", "T4 A4", "T5", "T6 A6"]);
    assert_eq!(
        progress,
        vec!["⏳ Queuing \"Mix\" — 0/7 tracks...", "⏳ Queuing \"Mix\" — 5/7 tracks..."]
    );
    assert_eq!(summary, "✅ Playlist \"Mix\": queued 7/7 tracks.");
}

#[test]
fn a_track_is_searched_again_by_its_title() {
    let (searches, _, summary) = play(playlist(2), |q| !q.contains(' '), |_| true);
    assert_eq!(searches, vec!["T0 A0", "T0", "T1"]);
    assert_eq!(summary, "✅ Playlist \"Mix\": queued 2/2 tracks.");
}

#[test]
fn missing_tracks_are_named() {
    let (searches, _, summary) = play(playlist(3), |q| q != "T1", |url| !url.contains("T2"));
    assert_eq!(searches, vec!["T0 A0", "T1", "T2 A2"]);
    assert_eq!(
        summary,
        "✅ Playlist \"Mix\": queued 1/3 tracks.\n\n😕 Couldn't queue these:\n• T1\n• T2 — A2\n"
    );
}

#[test]
fn long_lists_of_missing_tracks_are_cut() {
    let (_, _, summary) = play(playlist(17), |_| false, |_| true);
    assert!(summary.starts_with("✅ Playlist \"Mix\": queued 0/17 tracks.\n\n😕 Couldn't queue these:\n• T0 — A0\n"));
    assert!(summary.ends_with("• T14 — A14\n…and 2 more"));
    let (_, _, fifteen) = play(playlist(15), |_| false, |_| true);
    assert!(fifteen.ends_with("• T14 — A14\n"));
    let long = Playlist {
        name: "L".to_string(),
        tracks: vec![PlaylistTrack { title: "x".repeat(81), artist: String::new() }],
    };
    let (_, _, summary) = play(long, |_| false, |_| true);
    assert!(summary.ends_with(&format!("• {}…\n", "x".repeat(79))));
}

#[test]
fn a_search_that_fails_counts_as_no_result() {
    let step = queue_playlist(playlist(1));
    let step = match step.next {
        Pending::Search { after: AfterSearch::Playlist { run, by_title }, .. } => {
            run.track_searched(by_title, Err("e".to_string()))
        }
        _ => panic!("no search"),
    };
    match step.next {
        Pending::Search { query, after: AfterSearch::Playlist { by_title, .. }, .. } => {
            assert_eq!((query.as_str(), by_title), ("T0", true));
        }
        _ => panic!("no second search"),
    }
}

#[test]
fn an_empty_playlist_is_summed_up_at_once() {
    let (searches, progress, summary) = play(playlist(0), |_| true, |_| true);
    assert!(searches.is_empty() && progress.is_empty());
    assert_eq!(summary, "✅ Playlist \"Mix\": queued 0/0 tracks.");
}

#[test]
fn playlists_that_cannot_be_read() {
    assert_eq!(
        texts(&spotify_playlist_read(None)),
        vec!["😕 Couldn't read that Spotify playlist. Make sure it's public and try again."]
    );
    assert!(matches!(spotify_playlist_read(Some(playlist(1))).next, Pending::Search { .. }));
    assert_eq!(
        texts(&youtube_playlist_read("https://www.youtube.com/playlist?list=PLx", None)),
        vec!["😕 Couldn't read that YouTube playlist. Make sure it's public and try again."]
    );
    assert!(matches!(youtube_playlist_read("u", Some(playlist(1))).next, Pending::Search { .. }));
}

#[test]
fn a_mix_falls_back_to_its_video() {
    let step = youtube_playlist_read("https://www.youtube.com/watch?v=a&list=RDa", None);
    assert_eq!(texts(&step), vec!["🔍 Looking up YouTube link on Deezer..."]);
    match step.next {
        Pending::Odesli { url, .. } => assert_eq!(url, "https://www.youtube.com/watch?v=a"),
        _ => panic!("Odesli not asked"),
    }
    match youtube_playlist_read("https://youtu.be/a?list=RDa", None).next {
        Pending::Odesli { url, .. } => assert_eq!(url, "https://youtu.be/a"),
        _ => panic!("Odesli not asked"),
    }
}

#[test]
fn odesli_is_asked_for_a_deezer_link() {
    let r = odesli_request("https://youtu.be/a");
    assert_eq!(r.url, "https://api.song.link/v1-alpha.1/links");
    assert_eq!(r.query, vec![("url".to_string(), "https://youtu.be/a".to_string())]);
    let reply = json(r#"{"linksByPlatform": {"deezer": {"url": "https://www.deezer.com/track/1"}}}"#);
    assert_eq!(odesli_link(&Some(reply)), Some("https://www.deezer.com/track/1".to_string()));
    assert_eq!(odesli_link(&Some(json("{}"))), None);
    assert_eq!(odesli_link(&None), None);
}
