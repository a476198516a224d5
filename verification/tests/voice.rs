use deemix_bot::config::{BotState, Config, Environment};
use deemix_bot::flow::{
    Action, AfterSearch, AfterSpotify, Button, Markup, Pending, SearchKind, Step, VoiceOrigin,
    VoiceTask,
};
use deemix_bot::http::{Answer, Response, TextResponse};
use deemix_bot::json::{parse, Json};
use deemix_bot::spotify::SpotifyMeta;
use deemix_bot::table::Table;
use deemix_bot::users::{update, UserSettings};
use deemix_bot::voice::{
    handle_voice_callback, handle_voice_message, heard_searched, identify_upload,
    process_voice_recognize, process_voice_transcribe, receive_voice_recognize,
    receive_voice_transcribe, recognize, recognize_request, show_song, song_query, song_resolved,
    song_searched, title_searched, transcribe, transcribe_request, voice_fetched, Fetched,
    RecognitionResult, SAMPLE_LIMIT,
};

fn config(openai: &str, host: &str, keys: bool) -> Config {
    let key = |name: &str| if keys { Some(name.to_string()) } else { None };
    Config::from_env(Environment {
        deemix_url: None,
        login_file: None,
        users_file: None,
        audd_api_key: None,
        acrcloud_host: Some(host.to_string()),
        acrcloud_access_key: key("access"),
        acrcloud_secret_key: key("secret"),
        openai_api_key: Some(openai.to_string()),
        whisper_url: None,
        bot_bitrate: None,
        deemix_bitrate_lock: None,
        whitelist_enabled: None,
        whitelist_ids: None,
    })
}

fn state(openai: &str, keys: bool) -> BotState {
    BotState::new(config(openai, "acr.example", keys), Table::new())
}

fn text_of(action: &Action) -> &str {
    match action {
        Action::Send { text, .. } => text,
        Action::Edit { text, .. } => text,
        Action::TrySend { text } => text,
        Action::TryEdit { text } => text,
        _ => "",
    }
}

fn rows_of(action: &Action) -> &Vec<Vec<Button>> {
    match action {
        Action::Send { markup: Markup::Inline(rows), .. } => rows,
        Action::Edit { markup: Markup::Inline(rows), .. } => rows,
        _ => panic!("no buttons"),
    }
}

fn data_of(button: &Button) -> &str {
    match button {
        Button::Callback { data, .. } => data,
        Button::Link { url, .. } => url,
    }
}

fn results(n: usize) -> Vec<Json> {
    (0..n)
        .map(|i| {
            parse(&format!(
                r#"{{"title": "T{}", "artist": {{"name": "A"}}, "link": "https://l/{}"}}"#,
                i, i
            ))
            .unwrap()
        })
        .collect()
}

fn song(deezer: bool, spotify: bool) -> RecognitionResult {
    RecognitionResult {
        title: "Tom & Jerry".to_string(),
        artist: "A  B".to_string(),
        deezer_url: if deezer { Some("https://www.deezer.com/track/1".to_string()) } else { None },
        spotify_url: if spotify { Some("https://open.spotify.com/track/2".to_string()) } else { None },
    }
}

// Transcription

#[test]
fn openai_is_preferred_to_a_local_server() {
    let r = transcribe_request(vec![1, 2], "key", "http://local").unwrap();
    assert_eq!(r.url, "https://api.openai.com/v1/audio/transcriptions");
    assert_eq!(r.headers, vec![("Authorization".to_string(), "Bearer key".to_string())]);
    assert_eq!(r.part, "file");
    assert_eq!(r.audio, vec![1, 2]);
    assert_eq!(
        r.fields,
        vec![
            ("model".to_string(), "whisper-1".to_string()),
            ("response_format".to_string(), "text".to_string()),
        ]
    );
    let local = transcribe_request(vec![], "", "http://local").unwrap();
    assert_eq!(local.url, "http://local");
    assert!(local.headers.is_empty());
    assert_eq!(
        transcribe_request(vec![], "", "").err(),
        Some("Voice search is not configured.".to_string())
    );
}

#[test]
fn transcripts_are_trimmed() {
    let reply = |success: bool, body: Result<String, String>| {
        Ok(TextResponse { answer: Answer { success, status: "401 Unauthorized".to_string() }, body })
    };
    assert_eq!(transcribe(reply(true, Ok(" hello \n".to_string()))), Ok("hello".to_string()));
    assert_eq!(
        transcribe(reply(false, Ok("x".to_string()))),
        Err("Whisper API error: 401 Unauthorized".to_string())
    );
    assert_eq!(transcribe(reply(true, Err("cut".to_string()))), Err("cut".to_string()));
    assert_eq!(transcribe(Err("down".to_string())), Err("down".to_string()));
}

// Recognition

#[test]
fn recognition_checks_come_in_order() {
    let off = recognize_request(vec![0; SAMPLE_LIMIT], &config("", "", false), Ok(1));
    assert_eq!(off.err(), Some("Song recognition is not configured.".to_string()));
    let hostless = recognize_request(vec![0; SAMPLE_LIMIT], &config("", "", true), Ok(1));
    assert_eq!(
        hostless.err(),
        Some("ACRCloud Host is not configured. Set it in the add-on options.".to_string())
    );
    let c = config("", "acr.example", true);
    let long = recognize_request(vec![0; SAMPLE_LIMIT], &c, Err("clock".to_string()));
    assert_eq!(long.err(), Some("Voice note too long for song recognition.".to_string()));
    let clock = recognize_request(vec![0; SAMPLE_LIMIT - 1], &c, Err("clock".to_string()));
    assert_eq!(clock.err(), Some("clock".to_string()));
}

#[test]
fn recognition_requests_are_signed() {
    let c = config("", "acr.example", true);
    let r = recognize_request(vec![7; 12], &c, Ok(1700000000)).unwrap();
    assert_eq!(r.url, "https://acr.example/v1/identify");
    assert_eq!(r.part, "sample");
    let names: Vec<&str> = r.fields.iter().map(|f| f.0.as_str()).collect();
    assert_eq!(
        names,
        vec!["access_key", "sample_bytes", "timestamp", "signature", "data_type", "signature_version"]
    );
    assert_eq!(r.fields[0].1, "access");
    assert_eq!(r.fields[1].1, "12");
    assert_eq!(r.fields[2].1, "1700000000");
    assert_eq!(r.fields[3].1, "HKwxEnL0W2jQ1BT9U9khozrFVD4=");
    assert_eq!(r.fields[4].1, "audio");
    assert_eq!(r.fields[5].1, "1");
}

#[test]
fn codes_are_written_in_base64() {
    let c = config("", "h", true);
    let signature = |code: [u8; 20]| identify_upload(vec![], &c, 0, &code).fields[3].1.clone();
    assert_eq!(signature([0; 20]), "AAAAAAAAAAAAAAAAAAAAAAAAAAA=");
    assert_eq!(signature([255; 20]), "//////////////////////////8=");
    let mut counting = [0u8; 20];
    for i in 0..20 {
        counting[i] = (i as u8) * 13;
    }
    assert_eq!(signature(counting), "AA0aJzRBTltodYKPnKm2w9Dd6vc=");
}

fn recognized(body: &str) -> Result<RecognitionResult, String> {
    recognize(Ok(Response {
        answer: Answer { success: true, status: "200 OK".to_string() },
        body: Ok(parse(body).unwrap()),
    }))
}

#[test]
fn a_song_is_read_from_the_answer() {
    let s = recognized(
        r#"{"status": {"code": 0}, "metadata": {"music": [{"title": "T",
            "artists": [{"name": "A"}, {"x": 1}, {"name": "B"}],
            "external_metadata": {"deezer": {"track": {"id": "11"}}, "spotify": {"track": {"id": "22"}}}}]}}"#,
    )
    .ok()
    .unwrap();
    assert_eq!(s.title, "T");
    assert_eq!(s.artist, "A, B");
    assert_eq!(s.deezer_url.as_deref(), Some("https://www.deezer.com/track/11"));
    assert_eq!(s.spotify_url.as_deref(), Some("https://open.spotify.com/track/22"));
    let bare = recognized(r#"{"status": {"code": 0}, "metadata": {"music": [{"title": "T"}]}}"#);
    let bare = bare.ok().unwrap();
    assert_eq!(bare.artist, "");
    assert!(bare.deezer_url.is_none() && bare.spotify_url.is_none());
}

#[test]
fn answers_without_a_song() {
    let unknown = "Song not recognized. Try a longer clip.".to_string();
    assert_eq!(recognized(r#"{"status": {"code": 1001}}"#).err(), Some(unknown.clone()));
    assert_eq!(
        recognized(r#"{"status": {"code": 0}, "metadata": {"music": []}}"#).err(),
        Some(unknown)
    );
    assert_eq!(
        recognized(r#"{"status": {"code": 3003, "msg": "limit"}}"#).err(),
        Some("ACRCloud API error (3003): limit".to_string())
    );
    assert_eq!(
        recognized("{}").err(),
        Some("ACRCloud API error (-1): unknown".to_string())
    );
    let refused = recognize(Ok(Response {
        answer: Answer { success: false, status: "502 Bad Gateway".to_string() },
        body: Err("x".to_string()),
    }));
    assert_eq!(refused.err(), Some("ACRCloud API error: HTTP 502 Bad Gateway".to_string()));
    let unread = recognize(Ok(Response {
        answer: Answer { success: true, status: "200 OK".to_string() },
        body: Err("eof".to_string()),
    }));
    assert_eq!(unread.err(), Some("eof".to_string()));
    assert_eq!(recognize(Err("down".to_string())).err(), Some("down".to_string()));
}

// Voice notes

#[test]
fn a_voice_note_offers_what_is_on() {
    let mut s = state("key", true);
    let step = handle_voice_message(&mut s, 5, 321, "file-1");
    assert!(matches!(step.actions[0], Action::ExitDialogue));
    assert_eq!(text_of(&step.actions[1]), "🎙️ What should I do with this voice note?");
    let data: Vec<&str> = rows_of(&step.actions[1]).iter().map(|r| data_of(&r[0])).collect();
    assert_eq!(data, vec!["vt:321", "vr:321", "cancel"]);
    assert_eq!(s.pending_voices.get("321").map(|f| f.as_str()), Some("file-1"));
    assert!(s.users.get("5").is_some());
    update(&mut s.users, 5, |u: &mut UserSettings| u.voice_search = false);
    let step = handle_voice_message(&mut s, 5, -1, "file-2");
    let data: Vec<&str> = rows_of(&step.actions[1]).iter().map(|r| data_of(&r[0])).collect();
    assert_eq!(data, vec!["vr:-1", "cancel"]);
}

#[test]
fn a_voice_note_without_features_is_refused() {
    let mut s = state("", false);
    let step = handle_voice_message(&mut s, 5, 1, "f");
    assert_eq!(
        text_of(&step.actions[1]),
        "⚠️ Voice features are not configured or disabled. Use /settings to manage them."
    );
    assert!(s.pending_voices.get("1").is_none());
    assert!(matches!(step.next, Pending::Done));
}

#[test]
fn a_choice_fetches_its_own_note() {
    let mut s = state("key", true);
    handle_voice_message(&mut s, 5, 10, "first");
    handle_voice_message(&mut s, 5, 11, "second");
    let step = handle_voice_callback(&s, "vt:10", true);
    assert_eq!(text_of(&step.actions[0]), "⏳ Processing voice note...");
    match step.next {
        Pending::FetchVoice { file_id, task, origin } => {
            assert_eq!(file_id, "first");
            assert_eq!(task, VoiceTask::Transcribe);
            assert_eq!(origin, VoiceOrigin::Button);
        }
        _ => panic!("nothing fetched"),
    }
    match handle_voice_callback(&s, "vr:11", true).next {
        Pending::FetchVoice { file_id, task, .. } => {
            assert_eq!((file_id.as_str(), task), ("second", VoiceTask::Recognize));
        }
        _ => panic!("nothing fetched"),
    }
    let gone = handle_voice_callback(&s, "vr:12", true);
    assert_eq!(text_of(&gone.actions[0]), "❌ Voice note expired. Please send it again.");
    assert!(handle_voice_callback(&s, "vt:10", false).actions.is_empty());
    assert!(handle_voice_callback(&s, "xx:10", true).actions.is_empty());
}

#[test]
fn the_data_of_voice_buttons_is_short() {
    let mut s = state("key", true);
    for id in [i32::MIN, -1, 0, i32::MAX] {
        let step = handle_voice_message(&mut s, 1, id, "f");
        for row in rows_of(&step.actions[1]) {
            assert!(data_of(&row[0]).len() <= 64);
        }
    }
}

#[test]
fn an_awaited_voice_note_is_fetched() {
    let step = receive_voice_transcribe(&Some("f".to_string()));
    assert!(matches!(step.actions[0], Action::ExitDialogue));
    assert_eq!(text_of(&step.actions[1]), "🎤 Transcribing...");
    match step.next {
        Pending::FetchVoice { task, origin, .. } => {
            assert_eq!((task, origin), (VoiceTask::Transcribe, VoiceOrigin::Dialogue));
        }
        _ => panic!("nothing fetched"),
    }
    let step = receive_voice_recognize(&Some("f".to_string()));
    assert_eq!(text_of(&step.actions[1]), "🎵 Recognizing song...");
    let none = receive_voice_recognize(&None);
    assert_eq!(text_of(&none.actions[1]), "⚠️ I expected a voice note. Use /menu to try again.");
    assert!(matches!(none.next, Pending::Done));
}

#[test]
fn fetching_can_fail() {
    let ok = voice_fetched(VoiceTask::Recognize, VoiceOrigin::Button, Fetched::Audio(vec![1]));
    match ok.next {
        Pending::Recognize { audio } => assert_eq!(audio, vec![1]),
        _ => panic!("not recognised"),
    }
    let ok = voice_fetched(VoiceTask::Transcribe, VoiceOrigin::Dialogue, Fetched::Audio(vec![2]));
    assert!(matches!(ok.next, Pending::Transcribe { .. }));
    let lost = Fetched::NotDownloaded("e".to_string());
    let step = voice_fetched(VoiceTask::Transcribe, VoiceOrigin::Dialogue, lost);
    assert_eq!(text_of(&step.actions[0]), "❌ Failed to download audio: e");
    let cut = Fetched::NotRead("e".to_string());
    let step = voice_fetched(VoiceTask::Transcribe, VoiceOrigin::Button, cut);
    assert_eq!(text_of(&step.actions[0]), "❌ Failed to read audio: e");
    let cut = Fetched::NotRead("e".to_string());
    let step = voice_fetched(VoiceTask::Transcribe, VoiceOrigin::Dialogue, cut);
    assert!(step.actions.is_empty());
    match step.next {
        Pending::Fail { error } => assert_eq!(error, "e"),
        _ => panic!("went on"),
    }
}

#[test]
fn what_was_said_is_searched_for() {
    let step = process_voice_transcribe(Ok("muse".to_string()));
    assert_eq!(text_of(&step.actions[0]), "🔍 I heard: muse\nSearching...");
    assert_eq!(text_of(&step.actions[1]), "Results for: muse");
    match step.next {
        Pending::Search { query, kind, after: AfterSearch::Heard { text } } => {
            assert_eq!((query.as_str(), kind, text.as_str()), ("muse", SearchKind::Track, "muse"));
        }
        _ => panic!("no search"),
    }
    let silent = process_voice_transcribe(Ok(String::new()));
    assert_eq!(
        text_of(&silent.actions[0]),
        "😕 Could not transcribe anything. Try speaking more clearly."
    );
    let failed = process_voice_transcribe(Err("e".to_string()));
    assert_eq!(text_of(&failed.actions[0]), "❌ Transcription failed: e");
}

#[test]
fn results_for_what_was_said() {
    let step = heard_searched("muse", Ok(results(2)));
    assert_eq!(
        text_of(&step.actions[0]),
        "Results for muse:\n\n1. T0 — A\n2. T1 — A\n\nTap a button to download."
    );
    assert_eq!(rows_of(&step.actions[0]).len(), 3);
    assert_eq!(text_of(&heard_searched("x", Ok(vec![])).actions[0]), "😕 No results for: x");
    assert_eq!(
        text_of(&heard_searched("x", Err("e".to_string())).actions[0]),
        "❌ Search failed: e"
    );
}

#[test]
fn a_deezer_link_is_offered_first() {
    let step = process_voice_recognize(Ok(song(true, true)));
    assert_eq!(text_of(&step.actions[0]), "🎵 Recognized track: Tom & Jerry — A  B");
    let rows = rows_of(&step.actions[0]);
    assert_eq!(data_of(&rows[0][0]), "dl:https://www.deezer.com/track/1");
    assert_eq!(data_of(&rows[1][0]), "cancel");
    assert!(matches!(step.next, Pending::Done));
}

#[test]
fn a_spotify_link_is_tried_before_the_names() {
    match process_voice_recognize(Ok(song(false, true))).next {
        Pending::Spotify { url, after: AfterSpotify::Recognized { .. } } => {
            assert_eq!(url, "https://open.spotify.com/track/2");
        }
        _ => panic!("Spotify not asked"),
    }
    let found = SpotifyMeta { query: "q".to_string(), label: "l".to_string() };
    let query = |step: Step| match step.next {
        Pending::Search { query, .. } => query,
        _ => panic!("no search"),
    };
    let step = song_resolved(song(false, true), Some(found));
    assert_eq!(text_of(&step.actions[0]), "Searching on Deezer...");
    assert_eq!(query(step), "q");
    assert_eq!(query(song_resolved(song(false, true), None)), "Tom Jerry A B");
    assert_eq!(query(process_voice_recognize(Ok(song(false, false)))), "Tom Jerry A B");
    assert_eq!(song_query(&song(false, false)), "Tom Jerry A B");
}

#[test]
fn a_failed_recognition_is_reported() {
    let step = process_voice_recognize(Err("e".to_string()));
    assert_eq!(text_of(&step.actions[0]), "❌ Recognition failed: e");
}

#[test]
fn a_song_without_results_is_searched_by_title() {
    match song_searched(song(false, false), "q r".to_string(), Ok(vec![])).next {
        Pending::Search { query, after: AfterSearch::RecognizedTitle { query: first, .. }, .. } => {
            assert_eq!((query.as_str(), first.as_str()), ("Tom & Jerry", "q r"));
        }
        _ => panic!("no search"),
    }
    let failed = song_searched(song(false, false), "q".to_string(), Err("e".to_string()));
    assert_eq!(text_of(&failed.actions[0]), "❌ Search failed: e");
}

#[test]
fn results_for_a_song_end_with_a_page() {
    let step = song_searched(song(false, false), "é r".to_string(), Ok(results(1)));
    assert_eq!(
        text_of(&step.actions[0]),
        "Results for Tom & Jerry — A  B:\n\n1. T0 — A\n\nIf none match, search on Deezer and paste the link back here."
    );
    let rows = rows_of(&step.actions[0]);
    assert_eq!(data_of(&rows[0][0]), "dl:https://l/0");
    assert_eq!(data_of(&rows[1][0]), "https://www.deezer.com/search/%C3%A9%20r");
    assert_eq!(data_of(&rows[2][0]), "cancel");
}

#[test]
fn nothing_found_for_a_song() {
    let step = title_searched(&song(false, false), "q", Err("e".to_string()));
    assert_eq!(
        text_of(&step.actions[0]),
        "😕 No results for: Tom & Jerry — A  B\n\nSearch on Deezer and paste the link back here."
    );
    assert_eq!(data_of(&rows_of(&step.actions[0])[0][0]), "https://www.deezer.com/search/q");
    let step = title_searched(&song(false, false), "q", Ok(results(1)));
    assert_eq!(rows_of(&step.actions[0]).len(), 3);
    let pageless = show_song(&song(false, false), &None, &vec![]);
    assert_eq!(text_of(&pageless.actions[0]), "😕 No results for: Tom & Jerry — A  B");
    let pageless = show_song(&song(false, false), &None, &results(1));
    assert_eq!(rows_of(&pageless.actions[0]).len(), 2);
}

#[test]
fn the_page_of_a_song_is_a_normal_url() {
    let step = title_searched(&song(false, false), "..", Ok(vec![]));
    assert_eq!(data_of(&rows_of(&step.actions[0])[0][0]), "https://www.deezer.com/");
}
