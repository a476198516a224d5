use deemix_bot::bot::{
    arl_checked, handle_callback, handle_message, on_callback, on_message, queue_tapped, queued,
    receive_album, receive_arl, receive_search, searched, show_cleared, show_status, spotify_answered,
    user_id_from_msg, voice_timed_out, Incoming,
};
use deemix_bot::config::{BotState, Command, Config, Environment, State};
use deemix_bot::deemix::QueueStatus;
use deemix_bot::flow::{
    Action, AfterQueue, AfterSearch, AfterSpotify, Button, Markup, Pending, SearchKind, Step,
    VoiceTask,
};
use deemix_bot::json::{parse, Json};
use deemix_bot::keyboards::{
    arl_cancel_keyboard, bitrate_label, main_keyboard, next_bitrate, settings_keyboard,
};
use deemix_bot::menu::{handle_command, press_key, read_key, Key, HELP, SHORT_HELP, WELCOME};
use deemix_bot::search::build_search_results;
use deemix_bot::spotify::SpotifyMeta;
use deemix_bot::table::Table;
use deemix_bot::users::{get_or_create, UserSettings};
use deemix_bot::voice::{process_voice_recognize, RecognitionResult};

struct Options {
    audd: bool,
    openai: bool,
    lock: bool,
    whitelist: Option<&'static str>,
}

const ALL: Options = Options { audd: true, openai: true, lock: false, whitelist: None };

fn state(o: Options) -> BotState {
    let key = |on: bool| if on { Some("k".to_string()) } else { None };
    let config = Config::from_env(Environment {
        deemix_url: None,
        login_file: None,
        users_file: None,
        audd_api_key: key(o.audd),
        acrcloud_host: Some("h".to_string()),
        acrcloud_access_key: key(o.audd),
        acrcloud_secret_key: key(o.audd),
        openai_api_key: key(o.openai),
        whisper_url: None,
        bot_bitrate: None,
        deemix_bitrate_lock: Some(o.lock.to_string()),
        whitelist_enabled: Some(o.whitelist.is_some().to_string()),
        whitelist_ids: o.whitelist.map(|w| w.to_string()),
    });
    BotState::new(config, Table::new())
}

fn message(text: &str) -> Incoming {
    Incoming {
        user_id: 5,
        message_id: 1,
        dialogue: State::Idle,
        command: None,
        text: Some(text.to_string()),
        voice: None,
    }
}

fn texts(step: &Step) -> Vec<&str> {
    step.actions
        .iter()
        .filter_map(|a| match a {
            Action::Send { text, .. } => Some(text.as_str()),
            Action::Edit { text, .. } => Some(text.as_str()),
            Action::TrySend { text } => Some(text.as_str()),
            _ => None,
        })
        .collect()
}

fn keys(step: &Step) -> Vec<Vec<String>> {
    for action in &step.actions {
        if let Action::Send { markup: Markup::Keyboard(k), .. } = action {
            assert!(k.resize);
            return k.rows.clone();
        }
    }
    panic!("no keyboard");
}

fn saves(step: &Step) -> usize {
    step.actions.iter().filter(|a| matches!(a, Action::SaveUsers)).count()
}

// Keyboards

#[test]
fn bitrates_go_round() {
    assert_eq!(next_bitrate(9), 3);
    assert_eq!(next_bitrate(3), 1);
    assert_eq!(next_bitrate(1), 9);
    assert_eq!(next_bitrate(200), 9);
    assert_eq!(bitrate_label(9), "FLAC (lossless)");
    assert_eq!(bitrate_label(3), "MP3 320kbps");
    assert_eq!(bitrate_label(1), "MP3 128kbps");
    assert_eq!(bitrate_label(0), "Unknown");
}

#[test]
fn the_settings_screen_shows_the_settings() {
    let s = UserSettings { restart_notifications: true, voice_search: true, song_recognition: false };
    let k = settings_keyboard(&s, &state(ALL).config, 3);
    let rows: Vec<&str> = k.rows.iter().map(|r| r[0].as_str()).collect();
    assert_eq!(
        rows,
        vec![
            "🔔 Restart notifications: ON",
            "🎤 Voice search: ON",
            "🎵 Song recognition: OFF",
            "🎚️ Quality: MP3 320kbps (tap to change)",
            "🔑 Update ARL",
            "🔙 Back to menu",
        ]
    );
    let bare = state(Options { audd: false, openai: false, lock: true, whitelist: None });
    let on = UserSettings { restart_notifications: false, voice_search: true, song_recognition: true };
    let k = settings_keyboard(&on, &bare.config, 9);
    assert_eq!(k.rows[0][0], "🔕 Restart notifications: OFF");
    assert_eq!(k.rows[1][0], "🎤 Voice search: OFF");
    assert_eq!(k.rows[2][0], "🎵 Song recognition: OFF");
    assert_eq!(k.rows[3][0], "🔒 Quality: FLAC (lossless) (locked)");
}

#[test]
fn the_menu_leaves_out_what_is_off() {
    let on = UserSettings::default();
    let full = main_keyboard(&on, &state(ALL).config);
    assert_eq!(full.rows.len(), 5);
    assert_eq!(full.rows[2], vec!["🎤 Voice search", "🎵 Recognize song"]);
    let one = main_keyboard(
        &on,
        &state(Options { audd: true, openai: false, lock: false, whitelist: None }).config,
    );
    assert_eq!(one.rows[2], vec!["🎵 Recognize song"]);
    let off = UserSettings { restart_notifications: false, voice_search: false, song_recognition: false };
    assert_eq!(main_keyboard(&off, &state(ALL).config).rows.len(), 4);
    match &arl_cancel_keyboard()[0][0] {
        Button::Callback { label, data } => {
            assert_eq!((label.as_str(), data.as_str()), ("❌ Cancel", "cancel_arl"));
        }
        _ => panic!("no callback"),
    }
}

// Keys

#[test]
fn shown_keys_are_understood() {
    let s = UserSettings::default();
    let config = state(ALL).config;
    let settings: Vec<Key> =
        settings_keyboard(&s, &config, 9).rows.iter().map(|r| read_key(r[0].as_str())).collect();
    assert_eq!(
        settings,
        vec![
            Key::ToggleNotifications,
            Key::ToggleVoice,
            Key::ToggleRecognition,
            Key::ChangeQuality,
            Key::UpdateArl,
            Key::Back,
        ]
    );
    let mut unknown: Vec<String> = Vec::new();
    for row in main_keyboard(&s, &config).rows {
        for key in row {
            if read_key(key.as_str()) == Key::Other {
                unknown.push(key);
            }
        }
    }
    assert_eq!(unknown, vec!["🔗 From streaming link", "🎵 From Deezer URL"]);
    assert_eq!(read_key("🔒 Quality: x"), Key::LockedQuality);
    assert_eq!(read_key("🎤 Voice search"), Key::VoiceSearch);
}

#[test]
fn a_switch_is_turned_and_turned_back() {
    let mut s = state(ALL);
    let before = get_or_create(&mut s.users, 5);
    for text in ["🔕 Restart notifications: OFF", "🎤 Voice search: ON", "🎵 Song recognition: ON"] {
        let step = handle_message(&mut s, &message(text));
        assert_eq!(saves(&step), 2);
        assert_eq!(keys(&step).len(), 6);
        assert_ne!(get_or_create(&mut s.users, 5), before);
        handle_message(&mut s, &message(text));
        assert_eq!(get_or_create(&mut s.users, 5), before);
    }
    let step = handle_message(&mut s, &message("🔔 Restart notifications: ON"));
    assert_eq!(texts(&step), vec!["🔔 Restart notifications: ON"]);
    assert_eq!(keys(&step)[0][0], "🔔 Restart notifications: ON");
    let step = handle_message(&mut s, &message("🎤 Voice search: whatever"));
    assert_eq!(texts(&step), vec!["🎤 Voice search: OFF"]);
}

#[test]
fn features_that_are_not_configured_stay_put() {
    let mut s = state(Options { audd: false, openai: false, lock: false, whitelist: None });
    let step = press_key(&mut s, 5, Key::ToggleVoice);
    assert_eq!(
        texts(&step),
        vec!["⚠️ Voice search is not configured. Add OPENAI_API_KEY in the add-on options to enable it."]
    );
    let step = press_key(&mut s, 5, Key::ToggleRecognition);
    assert_eq!(
        texts(&step),
        vec!["⚠️ Song recognition is not configured. Add AUDD_API_KEY in the add-on options to enable it."]
    );
    assert_eq!(get_or_create(&mut s.users, 5), UserSettings::default());
    let step = press_key(&mut s, 5, Key::VoiceSearch);
    assert_eq!(
        texts(&step),
        vec!["⚠️ Voice search is not configured. Add OPENAI_API_KEY or WHISPER_URL in the add-on options, or enable it in /settings."]
    );
    let step = press_key(&mut s, 5, Key::RecognizeSong);
    assert_eq!(
        texts(&step),
        vec!["⚠️ Song recognition is not configured. Add AUDD_API_KEY in the add-on options, or enable it in /settings."]
    );
}

#[test]
fn the_quality_changes_unless_it_is_locked() {
    let mut s = state(ALL);
    let step = press_key(&mut s, 5, Key::ChangeQuality);
    assert_eq!(s.current_bitrate, 3);
    assert_eq!(
        texts(&step),
        vec!["🎚️ Download quality changed to: MP3 320kbps\n\n⚠️ This affects ALL users on this server."]
    );
    assert_eq!(keys(&step)[3][0], "🎚️ Quality: MP3 320kbps (tap to change)");
    let mut locked = state(Options { audd: true, openai: true, lock: true, whitelist: None });
    for key in [Key::ChangeQuality, Key::LockedQuality] {
        let step = press_key(&mut locked, 5, key);
        assert_eq!(texts(&step), vec!["🔒 Download quality is locked by the administrator."]);
        assert_eq!(locked.current_bitrate, 9);
    }
}

#[test]
fn voice_keys_ask_for_a_voice_note() {
    let mut s = state(ALL);
    let step = handle_message(&mut s, &message("🎤 Voice search"));
    assert!(matches!(step.actions[1], Action::TrySetDialogue(State::AwaitingVoiceTranscribe)));
    assert_eq!(
        texts(&step),
        vec!["🎤 Send me a voice note and I'll transcribe what you said and search for it.\n\n⏱ You have 60 seconds."]
    );
    assert!(matches!(
        step.actions[3],
        Action::ArmTimeout { task: VoiceTask::Transcribe, seconds: 60 }
    ));
    let step = handle_message(&mut s, &message("🎵 Recognize song"));
    assert!(matches!(step.actions[1], Action::TrySetDialogue(State::AwaitingVoiceRecognize)));
    assert!(matches!(
        step.actions[3],
        Action::ArmTimeout { task: VoiceTask::Recognize, seconds: 60 }
    ));
}

#[test]
fn the_other_keys() {
    let mut s = state(ALL);
    let step = press_key(&mut s, 5, Key::SearchTrack);
    assert!(matches!(step.actions[0], Action::TrySetDialogue(State::AwaitingSearch)));
    assert_eq!(texts(&step), vec!["🔍 What song or artist are you looking for?"]);
    let step = press_key(&mut s, 5, Key::SearchAlbum);
    assert!(matches!(step.actions[0], Action::TrySetDialogue(State::AwaitingAlbum)));
    assert_eq!(texts(&step), vec!["💿 What album are you looking for?"]);
    assert!(matches!(
        press_key(&mut s, 5, Key::CheckStatus).next,
        Pending::Status { asked_by_command: false }
    ));
    assert!(matches!(press_key(&mut s, 5, Key::ClearQueue).next, Pending::ClearQueue));
    assert_eq!(texts(&press_key(&mut s, 5, Key::Settings)), vec!["⚙️ Your settings — tap to toggle:"]);
    assert_eq!(texts(&press_key(&mut s, 5, Key::Back)), vec!["Choose an action:"]);
    let step = press_key(&mut s, 5, Key::UpdateArl);
    assert!(matches!(step.actions[0], Action::TrySetDialogue(State::AwaitingArl)));
    assert_eq!(texts(&step), vec!["Please send your new Deezer ARL:"]);
    assert_eq!(texts(&press_key(&mut s, 5, Key::Help)), vec![SHORT_HELP]);
    assert!(press_key(&mut s, 5, Key::Other).actions.is_empty());
}

// Commands

#[test]
fn commands_are_answered() {
    let mut s = state(ALL);
    let step = handle_command(&mut s, 8, Command::Start);
    assert_eq!(texts(&step), vec![WELCOME]);
    assert_eq!(keys(&step).len(), 5);
    assert_eq!(saves(&step), 1);
    assert!(s.users.get("8").is_some());
    assert_eq!(texts(&handle_command(&mut s, 8, Command::Help)), vec![HELP]);
    assert!(matches!(
        handle_command(&mut s, 8, Command::Status).next,
        Pending::Status { asked_by_command: true }
    ));
    assert!(matches!(handle_command(&mut s, 8, Command::Clearqueue).next, Pending::ClearQueue));
    let step = handle_command(&mut s, 8, Command::Search);
    assert!(matches!(step.actions[1], Action::SetDialogue(State::AwaitingSearch)));
    let step = handle_command(&mut s, 8, Command::Album);
    assert!(matches!(step.actions[1], Action::SetDialogue(State::AwaitingAlbum)));
    let step = handle_command(&mut s, 8, Command::Updatearl);
    assert!(matches!(step.actions[1], Action::SetDialogue(State::AwaitingArl)));
    assert_eq!(texts(&handle_command(&mut s, 8, Command::Menu)), vec!["Choose an action:"]);
    assert_eq!(keys(&handle_command(&mut s, 8, Command::Settings)).len(), 6);
}

#[test]
fn the_help_texts_name_every_command() {
    for name in
        ["/menu", "/search", "/album", "/status", "/clearqueue", "/settings", "/updatearl"]
    {
        assert!(HELP.contains(name) && SHORT_HELP.contains(name));
    }
    assert!(HELP.starts_with("ℹ️ What I do?\n\nI connect to your personal deemix server"));
    assert!(HELP.contains("\n\n📥 Ways to request music:\n• Type any song"));
    assert!(HELP.ends_with("💡 Tip: You don't need commands — just send a song name or link directly!"));
}

// Messages

#[test]
fn messages_are_routed() {
    let mut s = state(ALL);
    let step = on_message(&mut s, &message("  muse uprising "));
    assert!(matches!(step.actions[0], Action::SaveUsers));
    assert_eq!(texts(&step), vec!["🔍 Searching for muse uprising..."]);
    assert!(s.users.get("5").is_some());
    let step = on_message(&mut s, &message("see https://www.deezer.com/track/3."));
    match step.next {
        Pending::Queue { url, .. } => assert_eq!(url, "https://www.deezer.com/track/3"),
        _ => panic!("not queued"),
    }
    let mut voice = message("x");
    voice.text = None;
    voice.voice = Some("file".to_string());
    voice.message_id = 44;
    on_message(&mut s, &voice);
    assert_eq!(s.pending_voices.get("44").map(|f| f.as_str()), Some("file"));
    let mut empty = message("x");
    empty.text = None;
    let step = on_message(&mut s, &empty);
    assert_eq!(step.actions.len(), 1);
    assert!(matches!(step.next, Pending::Done));
}

#[test]
fn the_dialogue_comes_before_commands() {
    let mut s = state(ALL);
    let mut m = message("/status");
    m.command = Some(Command::Status);
    m.dialogue = State::AwaitingSearch;
    let step = on_message(&mut s, &m);
    assert!(matches!(step.actions[0], Action::ExitDialogue));
    assert_eq!(texts(&step), vec!["🔍 Searching for /status..."]);
    assert!(s.users.get("5").is_none());
    m.dialogue = State::AwaitingAlbum;
    match on_message(&mut s, &m).next {
        Pending::Search { kind, .. } => assert_eq!(kind, SearchKind::Album),
        _ => panic!("no search"),
    }
    m.dialogue = State::AwaitingArl;
    assert_eq!(
        texts(&on_message(&mut s, &m)),
        vec!["❌ That ARL looks too short, double check it. Try again:"]
    );
    m.dialogue = State::AwaitingVoiceTranscribe;
    assert_eq!(
        texts(&on_message(&mut s, &m)),
        vec!["⚠️ I expected a voice note. Use /menu to try again."]
    );
    m.dialogue = State::AwaitingVoiceRecognize;
    m.voice = Some("f".to_string());
    assert!(matches!(on_message(&mut s, &m).next, Pending::FetchVoice { .. }));
    m.dialogue = State::Idle;
    m.voice = None;
    assert!(matches!(on_message(&mut s, &m).next, Pending::Status { .. }));
}

#[test]
fn strangers_get_no_answer() {
    let mut s = state(Options { audd: true, openai: true, lock: false, whitelist: Some("6,7") });
    let step = on_message(&mut s, &message("hello"));
    assert!(step.actions.is_empty() && matches!(step.next, Pending::Done));
    assert!(s.users.entries().is_empty());
    assert!(on_callback(&s, 5, &Some("cancel".to_string()), true).actions.is_empty());
    assert_eq!(on_callback(&s, 6, &Some("cancel".to_string()), true).actions.len(), 2);
}

#[test]
fn an_empty_whitelist_is_explained() {
    let text = "⚠️ The user list is empty.\nAdd users to the whitelist or disable the user filtering feature.";
    let mut s = state(Options { audd: true, openai: true, lock: false, whitelist: Some("") });
    assert_eq!(texts(&on_message(&mut s, &message("hello"))), vec![text]);
    match &on_callback(&s, 5, &None, false).actions[0] {
        Action::AnswerCallback { notice } => assert_eq!(notice.as_deref(), Some(text)),
        _ => panic!("no notice"),
    }
}

#[test]
fn senders_are_known_by_their_id() {
    assert_eq!(user_id_from_msg(Some(77)), 77);
    assert_eq!(user_id_from_msg(None), 0);
}

#[test]
fn dialogue_answers_are_searched_for() {
    let step = receive_search(&Some(" q ".to_string()));
    assert_eq!(texts(&step), vec!["🔍 Searching for q..."]);
    let step = receive_album(&None);
    assert_eq!(step.actions.len(), 1);
    assert!(matches!(step.actions[0], Action::ExitDialogue));
}

#[test]
fn an_arl_is_tried_where_it_is_long_enough() {
    let long = "a".repeat(100);
    let step = receive_arl(&Some(format!(" {} ", long)));
    assert!(matches!(step.actions[0], Action::ExitDialogue));
    assert_eq!(texts(&step), vec!["🔄 Validating new ARL..."]);
    match step.next {
        Pending::LogIn { arl } => assert_eq!(arl, long),
        _ => panic!("not tried"),
    }
    let short = receive_arl(&Some("a".repeat(99)));
    assert_eq!(texts(&short), vec!["❌ That ARL looks too short, double check it. Try again:"]);
    assert!(matches!(short.next, Pending::Done));
    // Its bytes count, not its characters.
    assert!(matches!(receive_arl(&Some("é".repeat(50))).next, Pending::LogIn { .. }));
    assert_eq!(texts(&receive_arl(&None)), vec!["Please send the ARL as text."]);
}

#[test]
fn an_accepted_arl_is_used_from_then_on() {
    let mut s = state(ALL);
    let step = arl_checked(&mut s, "new".to_string(), Err("bad".to_string()));
    assert_eq!(texts(&step), vec!["❌ ARL rejected by deemix: bad"]);
    assert_eq!(s.current_arl, "");
    let step = arl_checked(&mut s, "new".to_string(), Ok("Ann".to_string()));
    assert_eq!(
        texts(&step),
        vec!["✅ ARL updated and logged in! Downloads will use the new ARL immediately."]
    );
    assert_eq!(s.current_arl, "new");
}

#[test]
fn a_wait_for_a_voice_note_times_out() {
    let step = voice_timed_out(VoiceTask::Transcribe, Some(State::AwaitingVoiceTranscribe));
    assert!(matches!(step.actions[0], Action::ExitDialogue));
    assert_eq!(
        texts(&step),
        vec!["⏱ Voice search timed out. Send a voice note or use /menu to start again."]
    );
    let step = voice_timed_out(VoiceTask::Recognize, Some(State::AwaitingVoiceRecognize));
    assert_eq!(
        texts(&step),
        vec!["⏱ Song recognition timed out. Send a voice note or use /menu to start again."]
    );
    for now in [None, Some(State::Idle), Some(State::AwaitingVoiceRecognize)] {
        assert!(voice_timed_out(VoiceTask::Transcribe, now).actions.is_empty());
    }
}

// The download queue

fn counts(pending: usize, downloading: usize, done: usize, failed: usize) -> QueueStatus {
    QueueStatus { pending, downloading, done, failed }
}

#[test]
fn the_status_names_what_there_is() {
    assert_eq!(
        texts(&show_status(true, Ok(counts(1, 2, 3, 4)))),
        vec!["✅ Deemix is reachable\n⬇️ Downloading: 2\n⏳ Pending: 1\n❌ Failed: 4\n✅ Completed (in queue): 3"]
    );
    assert_eq!(
        texts(&show_status(false, Ok(counts(0, 0, 3, 0)))),
        vec!["✅ Deemix is reachable\n✅ Completed: 3"]
    );
    assert_eq!(
        texts(&show_status(false, Ok(counts(0, 0, 0, 0)))),
        vec!["✅ Deemix is reachable\n📭 Queue is empty"]
    );
    assert_eq!(
        texts(&show_status(true, Err("e".to_string()))),
        vec!["❌ Can't reach deemix: e"]
    );
}

#[test]
fn the_outcome_of_clearing() {
    assert_eq!(texts(&show_cleared(Ok(0))), vec!["📭 No completed downloads to clear."]);
    assert_eq!(
        texts(&show_cleared(Ok(12))),
        vec!["🧹 Cleared 12 completed download(s) from queue."]
    );
    assert_eq!(texts(&show_cleared(Err("e".to_string()))), vec!["❌ Failed to clear queue: e"]);
}

// Taps

#[test]
fn taps_are_confirmed_first() {
    let s = state(ALL);
    for data in [None, Some("unknown".to_string()), Some("cancel".to_string())] {
        let step = handle_callback(&s, &data, false);
        assert_eq!(step.actions.len(), 1);
        assert!(matches!(step.actions[0], Action::AnswerCallback { notice: None }));
    }
}

#[test]
fn cancelling_drops_the_offer() {
    let s = state(ALL);
    let step = handle_callback(&s, &Some("cancel".to_string()), true);
    assert_eq!(texts(&step), vec!["Cancelled."]);
    assert!(matches!(step.next, Pending::Done));
    let step = handle_callback(&s, &Some("cancel_arl".to_string()), true);
    assert!(matches!(step.actions[1], Action::ExitDialogue));
    assert_eq!(texts(&step), vec!["❌ ARL update cancelled."]);
}

#[test]
fn tapping_a_result_queues_it() {
    let s = state(ALL);
    let found = vec![parse(r#"{"link": "https://www.deezer.com/album/7"}"#).unwrap()];
    let (_, rows) = build_search_results(&found, "🎵");
    let data = match &rows[0][0] {
        Button::Callback { data, .. } => data.clone(),
        _ => panic!("no callback"),
    };
    let step = handle_callback(&s, &Some(data), true);
    assert_eq!(texts(&step), vec!["⏳ Queuing album..."]);
    match step.next {
        Pending::Queue { url, after: AfterQueue::Tapped { kind } } => {
            assert_eq!((url.as_str(), kind.as_str()), ("https://www.deezer.com/album/7", "Album"));
        }
        _ => panic!("not queued"),
    }
    assert_eq!(texts(&handle_callback(&s, &Some("dl:odd".to_string()), true)), vec!["⏳ Queuing item..."]);
    assert_eq!(texts(&queue_tapped("u", &Some("ÉTUDE".to_string()))), vec!["⏳ Queuing étude..."]);
    assert_eq!(texts(&queue_tapped("u", &Some("album".to_string()))), vec!["⏳ Queuing album..."]);
    assert_eq!(texts(&queue_tapped("u", &Some("".to_string()))), vec!["⏳ Queuing ..."]);
    assert_eq!(texts(&queue_tapped("u", &None)), vec!["⏳ Queuing item..."]);
}

#[test]
fn tapping_a_voice_choice_fetches_the_note() {
    let mut s = state(ALL);
    let mut m = message("x");
    m.voice = Some("file".to_string());
    on_message(&mut s, &m);
    let step = handle_callback(&s, &Some("vr:1".to_string()), true);
    assert_eq!(texts(&step), vec!["⏳ Processing voice note..."]);
    assert!(matches!(step.next, Pending::FetchVoice { .. }));
}

// Replies

fn hits() -> Result<Vec<Json>, String> {
    Ok(vec![parse(r#"{"title": "T", "artist": {"name": "A"}, "link": "l"}"#).unwrap()])
}

#[test]
fn replies_reach_what_asked_for_them() {
    let list = AfterSearch::List { query: "q".to_string(), kind: SearchKind::Track };
    assert_eq!(
        texts(&searched(list, hits())),
        vec!["Results for q:\n\n1. T — A\n\nTap a button to download."]
    );
    let heard = AfterSearch::Heard { text: "h".to_string() };
    assert_eq!(texts(&searched(heard, Ok(vec![]))), vec!["😕 No results for: h"]);
    let meta = SpotifyMeta { query: "q".to_string(), label: "l".to_string() };
    let linked = AfterSearch::Linked { url: "u".to_string(), meta, kind: SearchKind::Track };
    assert!(matches!(searched(linked, Ok(vec![])).next, Pending::Odesli { .. }));
    let tapped = AfterQueue::Tapped { kind: "Track".to_string() };
    assert_eq!(texts(&queued(tapped, Ok(vec![]))), vec!["✅ Track added to queue!"]);
    let tapped = AfterQueue::Tapped { kind: "Track".to_string() };
    assert_eq!(texts(&queued(tapped, Err("e".to_string()))), vec!["❌ Failed: e"]);
    let linked = AfterQueue::Linked { label: "L".to_string() };
    assert_eq!(texts(&queued(linked, Err("e".to_string()))), vec!["❌ Failed to queue: e"]);
    let link = AfterSpotify::Link { url: "u".to_string(), kind: SearchKind::Track };
    assert_eq!(
        texts(&spotify_answered(link, None)),
        vec!["❌ Could not resolve Spotify link. Try /search instead."]
    );
}

#[test]
fn no_message_is_edited_before_one_is_sent() {
    let mut s = state(ALL);
    for text in [
        "muse",
        "https://open.spotify.com/playlist/a",
        "https://youtu.be/a?list=PLx",
        "https://youtu.be/a",
        "https://www.deezer.com/track/1",
        "https://link.deezer.com/s/a",
        "https://example.com",
        "📊 Check status",
        "🎤 Voice search",
    ] {
        let step = on_message(&mut s, &message(text));
        let mut sent = false;
        for action in &step.actions {
            match action {
                Action::Send { .. } => sent = true,
                Action::Edit { .. } | Action::TryEdit { .. } => assert!(sent, "{}", text),
                _ => {}
            }
        }
        let unsent = matches!(
            step.next,
            Pending::Done | Pending::Status { .. } | Pending::ClearQueue | Pending::FollowLink { .. }
        );
        assert!(sent || unsent, "{}", text);
    }
}

#[test]
fn a_recognised_song_is_handled_to_the_end() {
    let song = RecognitionResult {
        title: "T".to_string(),
        artist: "A".to_string(),
        deezer_url: None,
        spotify_url: Some("https://open.spotify.com/track/1".to_string()),
    };
    let mut step = process_voice_recognize(Ok(song));
    let mut work = 0;
    loop {
        step = match step.next {
            Pending::Done => break,
            Pending::Spotify { after, .. } => spotify_answered(after, None),
            Pending::Search { after, .. } => searched(after, Ok(vec![])),
            _ => panic!("unexpected work"),
        };
        work += 1;
    }
    assert_eq!(work, 3);
}
