use deemix_bot::apple;
use deemix_bot::http::{Answer, Method, Page, Response};
use deemix_bot::json::{parse, Json};
use deemix_bot::pattern::{is_matching, Groups};
use deemix_bot::spotify::{self, Resolve};
use deemix_bot::supervisor::{
    info_request, restart_addon, supervisor_answer, supervisor_request, update_ha_option,
};
use deemix_bot::titles;
use deemix_bot::youtube;

fn json(text: &str) -> Json {
    parse(text).unwrap()
}

// Patterns

#[test]
fn patterns_match_as_regular_expressions() {
    assert!(is_matching("^a+b$", "aaab"));
    assert!(!is_matching("^a+b$", "aaabc"));
    assert!(!is_matching("(", "("));
    let groups = Groups::of("(a)|(b)", "xb");
    assert!(groups.found());
    assert_eq!(groups.get(0), Some("b".to_string()));
    assert_eq!(groups.get(1), None);
    assert_eq!(groups.get(2), Some("b".to_string()));
    assert_eq!(groups.get(3), None);
    assert!(!Groups::of("(a)", "x").found());
}

// Spotify

#[test]
fn the_embed_page_of_a_link() {
    let r = spotify::embed_request("https://open.spotify.com/track/4uLU6hMCjMI75M1A2tKUQC?si=abc");
    assert_eq!(r.method, Method::Get);
    assert_eq!(r.url, "https://open.spotify.com/embed/track/4uLU6hMCjMI75M1A2tKUQC?utm_source=oembed");
}

fn page(entity: &str) -> String {
    format!(
        "<html><script id=\"__NEXT_DATA__\" type=\"application/json\">{{\"props\":{{\"pageProps\":{{\"state\":{{\"data\":{{\"entity\":{}}}}}}}}}}}</script></html>",
        entity
    )
}

#[test]
fn a_track_is_resolved_from_its_embed_page() {
    let body = page(r#"{"name": "Song", "artists": [{"name": "A"}, {"name": "B"}]}"#);
    match spotify::resolve("https://open.spotify.com/track/1", &Some(body)) {
        Resolve::Found(meta) => {
            assert_eq!(meta.query, "Song A, B");
            assert_eq!(meta.label, "Song — A, B");
        }
        Resolve::AskTitle { .. } => panic!("title not found"),
    }
    match spotify::resolve("u", &Some(page(r#"{"name": "Song"}"#))) {
        Resolve::Found(meta) => assert_eq!((meta.query.as_str(), meta.label.as_str()), ("Song", "Song")),
        Resolve::AskTitle { .. } => panic!("title not found"),
    }
}

#[test]
fn a_page_without_a_title_asks_oembed() {
    let untitled = page(r#"{"artists": [{"name": "A"}]}"#);
    for body in [Some(untitled), Some(page("null")), Some("nothing".to_string()), None] {
        match spotify::resolve("https://open.spotify.com/track/1", &body) {
            Resolve::Found(_) => panic!("title found"),
            Resolve::AskTitle { request, .. } => {
                assert_eq!(request.url, "https://open.spotify.com/oembed");
                assert_eq!(
                    request.query,
                    vec![("url".to_string(), "https://open.spotify.com/track/1".to_string())]
                );
            }
        }
    }
    let meta = spotify::resolve_title("A", &Some(json(r#"{"title": "Song"}"#))).unwrap();
    assert_eq!((meta.query.as_str(), meta.label.as_str()), ("Song A", "Song — A"));
    assert!(spotify::resolve_title("A", &Some(json(r#"{"title": ""}"#))).is_none());
    assert!(spotify::resolve_title("A", &Some(json("{}"))).is_none());
    assert!(spotify::resolve_title("A", &None).is_none());
}

#[test]
fn a_spotify_playlist_is_read() {
    let body = page(
        r#"{"title": "Mix", "trackList": [{"title": " One ", "subtitle": "X"}, {"title": " "}, {"subtitle": "Y"}, {"title": "Two"}]}"#,
    );
    let p = spotify::resolve_playlist(&Some(body)).unwrap();
    assert_eq!(p.name, "Mix");
    let tracks: Vec<(&str, &str)> =
        p.tracks.iter().map(|t| (t.title.as_str(), t.artist.as_str())).collect();
    assert_eq!(tracks, vec![("One", "X"), ("Two", "")]);
    assert!(spotify::resolve_playlist(&Some(page(r#"{"trackList": []}"#))).is_none());
    assert!(spotify::resolve_playlist(&Some(page(r#"{"name": "x"}"#))).is_none());
    assert!(spotify::resolve_playlist(&None).is_none());
    let unnamed = page(r#"{"trackList": [{"title": "T"}]}"#);
    assert_eq!(spotify::resolve_playlist(&Some(unnamed)).unwrap().name, "Spotify playlist");
}

// YouTube

#[test]
fn playlist_ids_are_found_in_links() {
    assert_eq!(
        youtube::playlist_id("https://www.youtube.com/watch?v=a&list=PL-x_1&index=2"),
        Some("PL-x_1".to_string())
    );
    assert_eq!(youtube::playlist_id("https://youtu.be/abc?si=list"), None);
}

#[test]
fn playlist_parameters_are_taken_out() {
    assert_eq!(
        youtube::strip_playlist_params("https://www.youtube.com/watch?v=a&list=RDa&index=2"),
        "https://www.youtube.com/watch?v=a"
    );
    assert_eq!(
        youtube::strip_playlist_params("https://www.youtube.com/watch?list=RDa&start_radio=1&v=a&t=5"),
        "https://www.youtube.com/watch?v=a&t=5"
    );
    assert_eq!(youtube::strip_playlist_params("https://youtu.be/a"), "https://youtu.be/a");
    assert_eq!(youtube::mend_query("https://x/watch&v=a&b=c"), "https://x/watch?v=a&b=c");
    assert_eq!(youtube::mend_query("https://x/?v=a&b=c"), "https://x/?v=a&b=c");
}

#[test]
fn mixes_have_no_page() {
    assert!(youtube::playlist_request("https://www.youtube.com/watch?v=a&list=RDabc").is_none());
    assert!(youtube::playlist_request("https://www.youtube.com/watch?v=a").is_none());
    let r = youtube::playlist_request("https://www.youtube.com/playlist?list=PLabc").unwrap();
    assert_eq!(r.url, "https://www.youtube.com/playlist?list=PLabc");
    let names: Vec<&str> = r.headers.iter().map(|h| h.0.as_str()).collect();
    assert_eq!(names, vec!["User-Agent", "Accept-Language", "Cookie"]);
    assert_eq!(r.headers[2].1, "CONSENT=YES+1; SOCS=CAI");
}

#[test]
fn titles_are_cleaned_of_noise() {
    assert_eq!(youtube::clean_video_title("Muse - Uprising (Official Video) [HD]"), "Muse - Uprising");
    assert_eq!(youtube::clean_video_title("A | B  |  C"), "A B C");
    assert_eq!(youtube::clean_video_title("Song (Live at Wembley)"), "Song (Live at Wembley)");
    assert_eq!(youtube::clean_video_title("(Lyrics)"), "");
    assert_eq!(titles::tidy_title(" a|b "), "a b");
}

#[test]
fn channels_are_named_after_their_artist() {
    assert_eq!(youtube::clean_channel(" Muse - Topic "), "Muse");
    assert_eq!(youtube::clean_channel("AdeleVEVO"), "Adele");
    assert_eq!(youtube::clean_channel("XVEVO - Topic"), "X");
    assert_eq!(youtube::clean_channel("Plain"), "Plain");
}

#[test]
fn a_later_question_mark_does_not_stand_for_the_first() {
    let cases = [
        ("https://youtu.be/x?list=PL&u=a?b", "https://youtu.be/x?u=a?b"),
        ("https://youtu.be/x?list=PL&index=2&u=a?b&v=c", "https://youtu.be/x?u=a?b&v=c"),
        ("https://youtu.be/x?u=a?b&list=PL", "https://youtu.be/x?u=a?b"),
        ("https://h/a&b?list=PL&u=c?d", "https://h/a&b?u=c?d"),
        ("https://h/a?list=PL?u=c&d=e", "https://h/a?d=e"),
        ("https://h/a&list=PL&d=e", "https://h/a?d=e"),
        ("https://h/a&list=xxx?y&bcdefghi&jk", "https://h/a?bcdefghi&jk"),
        ("https://h/a?list=PL", "https://h/a"),
    ];
    for (url, expected) in cases {
        assert_eq!(youtube::strip_playlist_params(url), expected);
    }
    assert_eq!(youtube::mend_from("x?l=1&u=a?b", "x&u=a?b"), "x?u=a?b");
    assert_eq!(youtube::mend_from("x?v=1&l=2", "x?v=1"), "x?v=1");
    assert_eq!(youtube::mend_from("x&l=1&v=2", "x&v=2"), "x?v=2");
    assert_eq!(youtube::mend_from("", ""), "");
}

#[test]
fn stripped_links_name_no_playlist_and_stay() {
    let urls = [
        "https://www.youtube.com/watch?v=a&list=RDa&index=2",
        "https://youtu.be/x?list=PL&u=a?b",
        "https://youtu.be/x?list=&list=PL",
        "https://youtu.be/x?li&list=PLst=A",
        "https://youtu.be/x?list=?list=PL",
        "&list=a&&index=?start_radio=1&list=b&c",
        "?list=a",
        "list=a",
        "",
    ];
    for url in urls {
        let stripped = youtube::strip_playlist_params(url);
        assert_eq!(youtube::playlist_id(&stripped), None);
        assert_eq!(youtube::strip_playlist_params(&stripped), stripped);
    }
    for url in ["https://h/a?b=c&d=e?f", "https://h/a?xlist=1&playlist=2", "?", "a&b?c"] {
        assert_eq!(youtube::strip_playlist_params(url), url);
    }
}

#[test]
fn mended_links_stay_mended() {
    for url in ["a&b&c", "a?b&c", "a", "&", "?&"] {
        let mended = youtube::mend_query(url);
        assert_eq!(youtube::mend_query(&mended), mended);
    }
}

#[test]
fn the_first_list_that_starts_like_an_id_counts() {
    let id = |url: &str| youtube::playlist_id(url);
    assert_eq!(id("?list=&list=b"), Some("b".to_string()));
    assert_eq!(id("?list=a.b&list=c"), Some("a".to_string()));
    assert_eq!(id("&list=A-z_09?"), Some("A-z_09".to_string()));
    assert_eq!(id("?&list=x"), Some("x".to_string()));
    assert_eq!(id("?list=é"), None);
    assert_eq!(id("list=x"), None);
    assert_eq!(id("?List=x"), None);
    assert_eq!(id(""), None);
}

#[test]
fn noise_stands_in_brackets_in_any_case() {
    let clean = |t: &str| youtube::clean_video_title(t);
    for word in [
        "official", "VIDEO", "Lyric", "lyrics", "AuDiO", "visualiser", "Visualizer", "hd", "4K",
        "Remastered 2011", "M/V", "mv", "Clip", "4\u{212a}", "Vi\u{17f}uali\u{17f}er... clip",
        "vi\u{17f}ualizer", "remas\u{17f} remaster",
    ] {
        assert_eq!(clean(&format!("a ({}) b", word)), "a b");
        assert_eq!(clean(&format!("a [x {} y) b", word)), "a b");
    }
    assert_eq!(clean("a (o\u{17f}\u{17f}icial) b"), "a (o\u{17f}\u{17f}icial) b");
    assert_eq!(clean("official video"), "official video");
    assert_eq!(clean("a (official"), "a (official");
    assert_eq!(clean("a official) b"), "a official) b");
    assert_eq!(clean("a (b) official (c)"), "a (b) official (c)");
    assert_eq!(clean("a (b (hd) c) d"), "a c) d");
    assert_eq!(clean("a ((hd)(mv)) d"), "a ) d");
    assert_eq!(clean("(of ficial)"), "(of ficial)");
    assert_eq!(clean("(of|ficial)"), "(of ficial)");
    assert_eq!(clean("(offi\ncial) (h\td)"), "(offi cial) (h d)");
    assert_eq!(clean("x(\nhd\n)y"), "x y");
    assert_eq!(clean(""), "");
}

#[test]
fn cleaned_titles_stay_clean() {
    for title in [
        "Muse - Uprising (Official Video) [HD]",
        "  a |(b (hd) | c) d]  \u{3000}",
        "[(4k)lyric] | (m |v) (m/v",
        "\u{a0}|\u{2003}",
        "(a)(b)(clip)(d)",
    ] {
        let r = youtube::clean_video_title(title);
        assert_eq!(youtube::clean_video_title(&r), r);
        assert!(!r.contains('|'));
        assert_eq!(r.trim(), r);
        assert!(!is_matching(titles::TITLE_NOISE_RE, &r));
        let words: Vec<&str> = r.split_whitespace().collect();
        assert_eq!(words.join(" "), r);
        assert_eq!(titles::tidy_title(&r), r);
    }
    assert_eq!(titles::tidy_title("\u{a0}a\t\n b|"), "a b");
    assert_eq!(titles::tidy_title(" | "), "");
}

fn youtube_page(items: &str) -> Option<Page> {
    let data = format!(
        "{{\"metadata\":{{\"playlistMetadataRenderer\":{{\"title\":\"List\"}}}},\"contents\":{{\"twoColumnBrowseResultsRenderer\":{{\"tabs\":[{{\"tabRenderer\":{{\"content\":{{\"sectionListRenderer\":{{\"contents\":[{{\"itemSectionRenderer\":{{\"contents\":[{{\"playlistVideoListRenderer\":{{\"contents\":{}}}}}]}}}}]}}}}}}}}]}}}}}}",
        items
    );
    let text = format!("<script>var ytInitialData = {};</script>", data);
    Some(Page { success: true, text })
}

fn video(title: &str, channel: &str) -> String {
    format!(
        "{{\"playlistVideoRenderer\":{{\"title\":{{\"runs\":[{{\"text\":\"{}\"}}]}},\"shortBylineText\":{{\"runs\":[{{\"text\":\"{}\"}}]}}}}}}",
        title, channel
    )
}

#[test]
fn a_youtube_playlist_is_read() {
    let items = format!(
        "[{},{},{{\"continuationItemRenderer\":{{}}}},{}]",
        video("Uprising (Official Video)", "Muse - Topic"),
        video("Adele - Hello", "AdeleVEVO"),
        video("[Lyrics]", "x")
    );
    let p = youtube::resolve_playlist(&youtube_page(&items)).unwrap();
    assert_eq!(p.name, "List");
    let tracks: Vec<(&str, &str)> =
        p.tracks.iter().map(|t| (t.title.as_str(), t.artist.as_str())).collect();
    assert_eq!(tracks, vec![("Uprising", "Muse"), ("Adele - Hello", "")]);
}

#[test]
fn youtube_pages_that_cannot_be_read() {
    assert!(youtube::resolve_playlist(&None).is_none());
    assert!(youtube::resolve_playlist(&youtube_page("[]")).is_none());
    assert!(youtube::resolve_playlist(&youtube_page("{}")).is_none());
    let refused = youtube_page(&format!("[{}]", video("a", "b"))).map(|p| Page { success: false, text: p.text });
    assert!(youtube::resolve_playlist(&refused).is_none());
    assert!(youtube::resolve_playlist(&Some(Page { success: true, text: "x".to_string() })).is_none());
}

#[test]
fn a_nameless_playlist_gets_a_name() {
    let data = json(
        r#"{"contents":{"twoColumnBrowseResultsRenderer":{"tabs":[{"tabRenderer":{"content":{"sectionListRenderer":{"contents":[{"itemSectionRenderer":{"contents":[{"playlistVideoListRenderer":{"contents":[{"playlistVideoRenderer":{"title":{"runs":[{"text":"T"}]}}}]}}]}}]}}}}]}}}"#,
    );
    let p = youtube::playlist_of(&data).unwrap();
    assert_eq!(p.name, "YouTube playlist");
    assert_eq!((p.tracks[0].title.as_str(), p.tracks[0].artist.as_str()), ("T", ""));
}

// Apple Music

#[test]
fn apple_links_lead_to_a_lookup() {
    let song = apple::resolve("https://music.apple.com/US/song/uprising/123?l=en").unwrap();
    assert_eq!(song.url, "https://itunes.apple.com/lookup");
    assert_eq!(
        song.query,
        vec![("id".to_string(), "123".to_string()), ("country".to_string(), "us".to_string())]
    );
    let album = apple::resolve("https://music.apple.com/album/77").unwrap();
    assert_eq!(album.query, vec![("id".to_string(), "77".to_string())]);
    let track = apple::resolve("https://music.apple.com/de/album/x/77?i=88").unwrap();
    assert_eq!(
        track.query,
        vec![("id".to_string(), "88".to_string()), ("country".to_string(), "de".to_string())]
    );
    assert!(apple::resolve("https://music.apple.com/us/artist/muse/1").is_none());
}

#[test]
fn the_track_of_an_album_link_wins() {
    let some = |groups: Vec<Option<&str>>| Groups {
        groups: Some(groups.into_iter().map(|g| g.map(|t| t.to_string())).collect()),
    };
    let none = || Groups { groups: None };
    let r = apple::resolve_matched(
        &none(),
        &some(vec![Some("m"), Some("GB"), Some("5")]),
        &some(vec![Some("?i=6"), Some("6")]),
    );
    let r = r.unwrap();
    assert_eq!(r.query[0].1, "6");
    assert_eq!(r.query[1].1, "gb");
    let song = apple::resolve_matched(
        &some(vec![Some("m"), None, Some("9")]),
        &none(),
        &some(vec![Some("?i=6"), Some("6")]),
    );
    assert_eq!(song.unwrap().query[0].1, "9");
    assert!(apple::resolve_matched(&none(), &none(), &none()).is_none());
}

#[test]
fn lookups_tell_tracks_from_albums() {
    let track = apple::lookup(&Some(json(
        r#"{"results": [{"wrapperType": "track", "trackName": "T", "collectionName": "C", "artistName": "A"}]}"#,
    )))
    .unwrap();
    assert_eq!((track.query.as_str(), track.label.as_str(), track.search_type), ("T A", "T — A", "track"));
    let album = apple::lookup(&Some(json(
        r#"{"results": [{"wrapperType": "collection", "collectionName": "C"}]}"#,
    )))
    .unwrap();
    assert_eq!((album.query.as_str(), album.label.as_str(), album.search_type), ("C", "C", "album"));
    assert!(apple::lookup(&Some(json(r#"{"results": [{"wrapperType": "track"}]}"#))).is_none());
    assert!(apple::lookup(&Some(json(r#"{"results": []}"#))).is_none());
    assert!(apple::lookup(&Some(json("{}"))).is_none());
    assert!(apple::lookup(&None).is_none());
}

// Supervisor

fn token() -> Option<String> {
    Some("tok".to_string())
}

#[test]
fn the_supervisor_needs_a_token() {
    let missing = supervisor_request(Method::Get, "/x", None, &None);
    assert_eq!(missing.err(), Some("SUPERVISOR_TOKEN not set".to_string()));
    let r = info_request(&token()).unwrap();
    assert_eq!(r.url, "http://supervisor/addons/self/info");
    assert_eq!(r.headers, vec![("Authorization".to_string(), "Bearer tok".to_string())]);
    assert!(r.body.is_none());
}

#[test]
fn answers_of_the_supervisor() {
    let response = |success: bool, body: Result<Json, String>| {
        Ok(Response { answer: Answer { success, status: "403 Forbidden".to_string() }, body })
    };
    assert!(supervisor_answer(response(true, Ok(json("{}")))).is_ok());
    assert_eq!(
        supervisor_answer(response(false, Ok(json("{}")))).err(),
        Some("Supervisor API error: 403 Forbidden".to_string())
    );
    assert_eq!(
        supervisor_answer(response(true, Err("bad json".to_string()))).err(),
        Some("bad json".to_string())
    );
    assert_eq!(supervisor_answer(Err("refused".to_string())).err(), Some("refused".to_string()));
}

#[test]
fn one_option_is_changed_and_the_others_are_kept() {
    let info = json(r#"{"data": {"options": {"arl": "old", "bitrate": 9}}}"#);
    let r = update_ha_option(Ok(info), "arl", Json::text("new"), &token()).unwrap();
    assert_eq!(r.method, Method::Post);
    assert_eq!(r.url, "http://supervisor/addons/self/options");
    let body = r.body.unwrap();
    let options = body.field("options");
    assert_eq!(options.field("arl").as_str(), Some("new"));
    assert_eq!(options.field("bitrate").as_u64(), Some(9));
    assert_eq!(options.as_object().unwrap().len(), 2);
    let added = json(r#"{"data": {"options": {"a": 1}}}"#);
    let r = update_ha_option(Ok(added), "b", Json::number(2), &token()).unwrap();
    let body = r.body.unwrap();
    assert_eq!(body.field("options").field("a").as_u64(), Some(1));
    assert_eq!(body.field("options").field("b").as_u64(), Some(2));
}

#[test]
fn options_that_cannot_be_changed() {
    let none = update_ha_option(Ok(json("{}")), "a", Json::number(1), &token());
    assert_eq!(none.err(), Some("Failed to get addon options".to_string()));
    let failed = update_ha_option(Err("e".to_string()), "a", Json::number(1), &token());
    assert_eq!(failed.err(), Some("e".to_string()));
}

#[test]
fn the_addon_is_restarted_by_its_slug() {
    let r = restart_addon(Ok(json(r#"{"data": {"slug": "deemix"}}"#)), &token()).unwrap();
    assert_eq!(r.url, "http://supervisor/addons/deemix/restart");
    assert!(r.body.is_none());
    assert_eq!(
        restart_addon(Ok(json(r#"{"data": {}}"#)), &token()).err(),
        Some("Failed to get addon slug".to_string())
    );
    assert_eq!(restart_addon(Err("e".to_string()), &token()).err(), Some("e".to_string()));
}
