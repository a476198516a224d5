use std::collections::VecDeque;

use deemix_bot::config::{BotState, Config, Environment, WsEvent, WsEventKind};
use deemix_bot::json::parse;
use deemix_bot::table::Table;
use deemix_bot::ws::{
    frame_kind, handle_frame, remember, take_frame, ws_url, Backoff, FrameKind, Listener, WsAction,
    WsReply, EVENT_CAP, EVENT_TTL,
};

fn state() -> BotState {
    let config = Config::from_env(Environment {
        deemix_url: Some("https://host:6595".to_string()),
        login_file: None,
        users_file: None,
        audd_api_key: None,
        acrcloud_host: None,
        acrcloud_access_key: None,
        acrcloud_secret_key: None,
        openai_api_key: None,
        whisper_url: None,
        bot_bitrate: None,
        deemix_bitrate_lock: None,
        whitelist_enabled: None,
        whitelist_ids: None,
    });
    let mut state = BotState::new(config, Table::new());
    state.queue_initiators.insert("u1".to_string(), (77, "Album".to_string()));
    state
}

#[test]
fn the_listener_connects_to_the_same_host() {
    assert_eq!(ws_url(&state().config), "wss://host:6595/");
}

#[test]
fn waits_double_up_to_a_minute() {
    let mut b = Backoff::new();
    let waits: Vec<u64> = (0..9).map(|_| b.wait()).collect();
    assert_eq!(waits, vec![1, 2, 4, 8, 16, 32, 60, 60, 60]);
    b.connected();
    assert_eq!(b.wait(), 1);
}

fn shown(action: &WsAction) -> String {
    match action {
        WsAction::Connect { url } => format!("connect {}", url),
        WsAction::Read => "read".to_string(),
        WsAction::Sleep { seconds } => format!("sleep {}", seconds),
    }
}

#[test]
fn the_listener_never_ends() {
    let (mut listener, first) = Listener::start(&state().config);
    let mut seen = vec![shown(&first)];
    for reply in [
        WsReply::Refused,
        WsReply::Slept,
        WsReply::Refused,
        WsReply::Slept,
        WsReply::Connected,
        WsReply::Frame,
        WsReply::Closed,
        WsReply::Slept,
        WsReply::Refused,
        WsReply::Slept,
    ] {
        seen.push(shown(&listener.next(reply)));
    }
    assert_eq!(
        seen,
        vec![
            "connect wss://host:6595/",
            "sleep 1",
            "connect wss://host:6595/",
            "sleep 2",
            "connect wss://host:6595/",
            "read",
            "read",
            "sleep 1",
            "connect wss://host:6595/",
            "sleep 2",
            "connect wss://host:6595/",
        ]
    );
}

#[test]
fn refused_attempts_wait_longer_and_longer() {
    let (mut listener, _) = Listener::start(&state().config);
    for expected in [1u64, 2, 4, 8, 16, 32, 60, 60] {
        let action = listener.next(WsReply::Refused);
        assert_eq!(shown(&action), format!("sleep {}", expected));
        assert_eq!(shown(&listener.next(WsReply::Slept)), "connect wss://host:6595/");
    }
    assert_eq!(shown(&listener.next(WsReply::Connected)), "read");
    assert_eq!(shown(&listener.next(WsReply::Closed)), "sleep 1");
}

fn event(ts: u64) -> WsEvent {
    WsEvent { ts, kind: WsEventKind::QueueError { link: None, error: ts.to_string(), errid: None } }
}

fn duplicate() -> WsEventKind {
    WsEventKind::AlreadyInQueue { title: "t".to_string(), artist: "a".to_string(), size: 1 }
}

#[test]
fn old_events_are_dropped() {
    let now = EVENT_TTL + 1000;
    let mut events: VecDeque<WsEvent> = VecDeque::from(vec![event(1000), event(1001), event(now + 5)]);
    remember(&mut events, duplicate(), now);
    let times: Vec<u64> = events.iter().map(|e| e.ts).collect();
    assert_eq!(times, vec![1001, now + 5, now]);
}

#[test]
fn the_buffer_never_outgrows_its_cap() {
    let mut events: VecDeque<WsEvent> = VecDeque::new();
    for i in 0..200u64 {
        remember(&mut events, duplicate(), i);
        assert!(events.len() <= EVENT_CAP);
    }
    assert_eq!(events.len(), EVENT_CAP);
    assert_eq!(events.front().unwrap().ts, 72);
    assert_eq!(events.back().unwrap().ts, 199);
}

#[test]
fn frames_are_told_apart_by_their_key() {
    let kind = |text: &str| frame_kind(&parse(text).unwrap());
    assert_eq!(kind(r#"{"key": "updateQueue", "data": {"failed": true}}"#), FrameKind::TrackFailed);
    assert_eq!(kind(r#"{"key": "updateQueue", "data": {"postFailed": true}}"#), FrameKind::PostFailed);
    assert_eq!(kind(r#"{"key": "updateQueue", "data": {"progress": 5}}"#), FrameKind::Other);
    assert_eq!(kind(r#"{"key": "finishDownload"}"#), FrameKind::Gone);
    assert_eq!(kind(r#"{"key": "removedFromQueue"}"#), FrameKind::Gone);
    assert_eq!(kind(r#"{"key": "queueError"}"#), FrameKind::Rejected);
    assert_eq!(kind(r#"{"key": "alreadyInQueue"}"#), FrameKind::Duplicate);
    assert_eq!(kind(r#"{"key": "startDownload"}"#), FrameKind::Other);
    assert_eq!(kind(r#"[]"#), FrameKind::Other);
}

#[test]
fn failed_tracks_are_reported_to_who_asked() {
    let mut s = state();
    let frame = r#"{"key": "updateQueue", "data": {"uuid": "u1", "failed": true, "error": "boom",
        "errid": "E1", "data": {"title": "Song", "artist": "Band"}}}"#;
    let notice = handle_frame(&mut s, frame, 5).unwrap();
    assert_eq!(notice.chat_id, 77);
    assert_eq!(notice.text, "❌ Download failed: Song — Band\nboom (E1)");
    let bare = r#"{"key": "updateQueue", "data": {"uuid": "u1", "failed": true}}"#;
    assert_eq!(
        handle_frame(&mut s, bare, 5).unwrap().text,
        "❌ Download failed: ? — ?\nUnknown error"
    );
    let stranger = r#"{"key": "updateQueue", "data": {"uuid": "u2", "failed": true}}"#;
    assert!(handle_frame(&mut s, stranger, 5).is_none());
    assert!(s.ws_events.is_empty());
}

#[test]
fn post_processing_errors_are_reported() {
    let mut s = state();
    let frame = parse(
        r#"{"key": "updateQueue", "data": {"uuid": "u1", "postFailed": true, "error": "disk",
            "data": {"position": "saveArtwork"}}}"#,
    )
    .unwrap();
    assert_eq!(
        take_frame(&mut s, &frame, 5).unwrap().text,
        "⚠️ Post-processing error on \"Album\": disk (saveArtwork)"
    );
}

#[test]
fn finished_objects_are_forgotten() {
    let mut s = state();
    assert!(handle_frame(&mut s, r#"{"key": "finishDownload", "data": {"uuid": "u1"}}"#, 1).is_none());
    assert!(s.queue_initiators.get("u1").is_none());
    assert!(handle_frame(&mut s, r#"{"key": "removedFromQueue", "data": {}}"#, 1).is_none());
}

#[test]
fn rejections_and_duplicates_are_buffered() {
    let mut s = state();
    let rejected = r#"{"key": "queueError", "data": {"link": "l", "error": "e", "errid": "i"}}"#;
    assert!(handle_frame(&mut s, rejected, 10).is_none());
    let doubled = r#"{"key": "alreadyInQueue", "data": {"title": "t", "artist": "plain"}}"#;
    assert!(handle_frame(&mut s, doubled, 11).is_none());
    let named = r#"{"key": "alreadyInQueue", "data": {"artist": {"name": "n"}, "size": 12}}"#;
    assert!(handle_frame(&mut s, named, 12).is_none());
    assert!(handle_frame(&mut s, "no json", 13).is_none());
    assert_eq!(s.ws_events.len(), 3);
    match &s.ws_events[0].kind {
        WsEventKind::QueueError { link, error, errid } => {
            assert_eq!(link.as_deref(), Some("l"));
            assert_eq!(error, "e");
            assert_eq!(errid.as_deref(), Some("i"));
        }
        _ => panic!("no rejection"),
    }
    match &s.ws_events[1].kind {
        WsEventKind::AlreadyInQueue { title, artist, size } => {
            assert_eq!((title.as_str(), artist.as_str(), *size), ("t", "plain", 1));
        }
        _ => panic!("no duplicate"),
    }
    match &s.ws_events[2].kind {
        WsEventKind::AlreadyInQueue { title, artist, size } => {
            assert_eq!((title.as_str(), artist.as_str(), *size), ("?", "n", 12));
        }
        _ => panic!("no duplicate"),
    }
}
