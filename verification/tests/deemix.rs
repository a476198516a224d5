use std::collections::VecDeque;

use deemix_bot::config::{BotState, Config, Environment, WsEvent, WsEventKind};
use deemix_bot::deemix::{
    add_to_queue, add_to_queue_confirmed, add_to_queue_once, add_to_queue_request, can_count_tracks,
    clear_completed, get_queue, get_queue_request, login, login_arl, login_arl_request, relogin,
    retry_request, search, search_request, state_of, AddToQueue, ClearStep, ItemState, QueueOutcome,
};
use deemix_bot::http::{Answer, Method};
use deemix_bot::json::{parse, Json};
use deemix_bot::table::Table;

fn config(arl: &str) -> Config {
    Config::from_env(Environment {
        deemix_url: Some("http://d".to_string()),
        login_file: Some(format!(r#"{{"arl": "{}"}}"#, arl)),
        users_file: None,
        audd_api_key: None,
        acrcloud_host: None,
        acrcloud_access_key: None,
        acrcloud_secret_key: None,
        openai_api_key: None,
        whisper_url: None,
        bot_bitrate: Some("3".to_string()),
        deemix_bitrate_lock: None,
        whitelist_enabled: None,
        whitelist_ids: None,
    })
}

fn state(arl: &str) -> BotState {
    BotState::new(config(arl), Table::new())
}

fn json(text: &str) -> Result<Json, String> {
    Ok(parse(text).unwrap())
}

fn failed() -> Result<Json, String> {
    Err("timeout".to_string())
}

#[test]
fn the_bot_logs_in_where_an_arl_is_configured() {
    assert!(login(&config("")).is_none());
    let r = login(&config("xyz")).unwrap();
    assert_eq!(r.method, Method::Post);
    assert_eq!(r.url, "http://d/api/loginArl");
    assert_eq!(r.body.unwrap().field("arl").as_str(), Some("xyz"));
}

#[test]
fn logins_succeed_with_two_statuses() {
    assert_eq!(login_arl(json(r#"{"status": 1, "user": {"name": "Ann"}}"#)), Ok("Ann".to_string()));
    assert_eq!(login_arl(json(r#"{"status": 2}"#)), Ok("unknown".to_string()));
    assert_eq!(login_arl(json(r#"{"status": 0}"#)), Err("Login failed (status 0)".to_string()));
    assert_eq!(login_arl(json(r#"{"status": -3}"#)), Err("Login failed (status -3)".to_string()));
    assert_eq!(login_arl(json(r#"{}"#)), Err("Login failed (status 0)".to_string()));
    assert_eq!(login_arl(failed()), Err("timeout".to_string()));
}

#[test]
fn the_login_file_wins_when_logging_in_again() {
    let mut s = state("old");
    let r = relogin(&mut s, &Some(r#"{"arl": "new"}"#.to_string())).unwrap();
    assert_eq!(r.body.unwrap().field("arl").as_str(), Some("new"));
    assert_eq!(s.current_arl, "new");
    let r = relogin(&mut s, &Some(r#"{"arl": ""}"#.to_string())).unwrap();
    assert_eq!(r.body.unwrap().field("arl").as_str(), Some("new"));
    let r = relogin(&mut s, &None).unwrap();
    assert_eq!(r.body.unwrap().field("arl").as_str(), Some("new"));
}

#[test]
fn without_an_arl_the_session_stays_expired() {
    let mut s = state("");
    assert_eq!(
        relogin(&mut s, &None).err(),
        Some("Session expired and no ARL is configured".to_string())
    );
}

#[test]
fn a_link_is_queued_at_the_current_bitrate() {
    let r = add_to_queue_request(&state("a"), "http://x");
    assert_eq!(r.url, "http://d/api/addToQueue");
    let body = r.body.unwrap();
    assert_eq!(body.field("url").as_str(), Some("http://x"));
    assert_eq!(body.field("bitrate").as_u64(), Some(3));
}

#[test]
fn the_reply_to_a_queue_request() {
    let ok = add_to_queue_once(json(r#"{"result": true, "data": {"obj": [{"id": 1}, {"id": 2}]}}"#));
    assert_eq!(ok.unwrap().len(), 2);
    assert!(add_to_queue_once(json(r#"{"result": true}"#)).unwrap().is_empty());
    let no = add_to_queue_once(json(r#"{"result": false, "errid": "BadUrl"}"#));
    assert_eq!(no.err(), Some("BadUrl".to_string()));
    assert_eq!(add_to_queue_once(json("{}")).err(), Some("Unknown error".to_string()));
    assert_eq!(add_to_queue_once(failed()).err(), Some("timeout".to_string()));
}

#[test]
fn an_expired_session_is_renewed_once() {
    let first = add_to_queue(json(r#"{"result": false, "errid": "NotLoggedIn"}"#));
    assert!(matches!(first, AddToQueue::LogInAgain));
    let s = state("a");
    let again = retry_request(&s, "http://x", json(r#"{"status": 1}"#)).unwrap();
    assert_eq!(again.url, "http://d/api/addToQueue");
    let refused = retry_request(&s, "http://x", json(r#"{"status": 9}"#));
    assert_eq!(refused.err(), Some("Login failed (status 9)".to_string()));
    // The second reply is the outcome, even where it says the same.
    let second = add_to_queue_once(json(r#"{"result": false, "errid": "NotLoggedIn"}"#));
    assert_eq!(second.err(), Some("NotLoggedIn".to_string()));
    match add_to_queue(json(r#"{"result": false, "errid": "Other"}"#)) {
        AddToQueue::Return(r) => assert_eq!(r.err(), Some("Other".to_string())),
        AddToQueue::LogInAgain => panic!("logged in again"),
    }
}

fn rejected(ts: u64, link: Option<&str>, error: &str) -> WsEvent {
    let link = link.map(|l| l.to_string());
    WsEvent { ts, kind: WsEventKind::QueueError { link, error: error.to_string(), errid: None } }
}

fn duplicate(ts: u64, title: &str) -> WsEvent {
    let kind = WsEventKind::AlreadyInQueue { title: title.to_string(), artist: "A".to_string(), size: 4 };
    WsEvent { ts, kind }
}

fn confirm(added: &str, events: Vec<WsEvent>, artist: bool) -> (QueueOutcome, usize) {
    let objects = parse(added).unwrap().all_items();
    assert!(can_count_tracks(&objects));
    let mut buffer: VecDeque<WsEvent> = VecDeque::from(events);
    let outcome = add_to_queue_confirmed(Ok(objects), &mut buffer, 100, "http://x", artist);
    (outcome.unwrap(), buffer.len())
}

#[test]
fn added_objects_are_summed() {
    let (outcome, left) = confirm(r#"[{"size": 10}, {"type": "album"}]"#, vec![], false);
    assert_eq!(left, 0);
    match outcome {
        QueueOutcome::Added { tracks, is_track, already, failed } => {
            assert_eq!((tracks, is_track, already, failed), (11, false, 0, 0));
        }
        other => panic!("{:?}", other),
    }
    match confirm(r#"[{"type": "track", "size": 1}]"#, vec![], false).0 {
        QueueOutcome::Added { tracks, is_track, .. } => assert_eq!((tracks, is_track), (1, true)),
        other => panic!("{:?}", other),
    }
}

#[test]
fn only_artist_requests_count_events_beside_objects() {
    let events = || vec![duplicate(100, "t"), rejected(150, None, "e"), duplicate(99, "stale")];
    match confirm("[{}]", events(), true).0 {
        QueueOutcome::Added { already, failed, .. } => assert_eq!((already, failed), (1, 1)),
        other => panic!("{:?}", other),
    }
    match confirm("[{}]", events(), false).0 {
        QueueOutcome::Added { already, failed, .. } => assert_eq!((already, failed), (0, 0)),
        other => panic!("{:?}", other),
    }
}

#[test]
fn a_single_request_without_objects() {
    let own = vec![rejected(100, None, "any"), duplicate(101, "d"), rejected(102, Some("http://x"), "own")];
    match confirm("[]", own, false).0 {
        QueueOutcome::Failed { error, errid } => assert_eq!((error.as_str(), errid), ("own", None)),
        other => panic!("{:?}", other),
    }
    let dupe = vec![rejected(100, None, "any"), duplicate(101, "d"), duplicate(101, "e")];
    match confirm("[]", dupe, false).0 {
        QueueOutcome::AlreadyInQueue { title, artist, size, more } => {
            assert_eq!((title.as_str(), artist.as_str(), size, more), ("d", "A", 4, 0));
        }
        other => panic!("{:?}", other),
    }
    match confirm("[]", vec![rejected(100, Some("http://y"), "b"), rejected(100, None, "any")], false).0 {
        QueueOutcome::Failed { error, .. } => assert_eq!(error, "any"),
        other => panic!("{:?}", other),
    }
    let foreign = confirm("[]", vec![rejected(100, Some("http://y"), "b"), duplicate(99, "d")], false);
    assert!(matches!(foreign.0, QueueOutcome::NothingAdded));
    assert_eq!(foreign.1, 0);
}

#[test]
fn an_artist_request_without_objects() {
    match confirm("[]", vec![duplicate(100, "d"), rejected(100, Some("z"), "first")], true).0 {
        QueueOutcome::Failed { error, .. } => assert_eq!(error, "first"),
        other => panic!("{:?}", other),
    }
    match confirm("[]", vec![duplicate(100, "d"), duplicate(100, "e"), duplicate(100, "f")], true).0 {
        QueueOutcome::AlreadyInQueue { title, more, .. } => assert_eq!((title.as_str(), more), ("d", 2)),
        other => panic!("{:?}", other),
    }
    assert!(matches!(confirm("[]", vec![], true).0, QueueOutcome::NothingAdded));
}

#[test]
fn stale_events_do_not_matter_wherever_they_stand() {
    let fresh = || vec![rejected(120, Some("http://x"), "e"), duplicate(100, "d")];
    let mixed = || {
        let mut events = vec![duplicate(99, "old"), rejected(1, Some("http://x"), "old")];
        for e in fresh() {
            events.push(e);
            events.push(rejected(99, Some("http://x"), "late"));
            events.push(duplicate(0, "late"));
        }
        events
    };
    for added in ["[]", "[{}]"] {
        for artist in [false, true] {
            let (alone, _) = confirm(added, fresh(), artist);
            let (among, left) = confirm(added, mixed(), artist);
            assert_eq!(format!("{:?}", alone), format!("{:?}", among));
            assert_eq!(left, 0);
        }
    }
}

#[test]
fn a_failed_request_leaves_the_events() {
    let mut buffer: VecDeque<WsEvent> = VecDeque::from(vec![duplicate(100, "d")]);
    let r = add_to_queue_confirmed(Err("no".to_string()), &mut buffer, 0, "u", false);
    assert_eq!(r.err(), Some("no".to_string()));
    assert_eq!(buffer.len(), 1);
}

#[test]
fn sizes_that_cannot_be_summed_are_noticed() {
    let big = parse(r#"[{"size": 18446744073709551615}, {"size": 1}]"#).unwrap().all_items();
    assert!(!can_count_tracks(&big));
}

#[test]
fn each_item_of_the_queue_has_one_state() {
    let of = |text: &str| state_of(&parse(text).unwrap());
    assert_eq!(of(r#"{"status": "completed"}"#), ItemState::Done);
    assert_eq!(of(r#"{"status": "withErrors"}"#), ItemState::Done);
    assert_eq!(of(r#"{"status": "failed"}"#), ItemState::Failed);
    assert_eq!(of(r#"{"status": "downloading"}"#), ItemState::Downloading);
    assert_eq!(of(r#"{"status": "inQueue"}"#), ItemState::Pending);
    assert_eq!(of(r#"{"downloaded": 3, "size": 3}"#), ItemState::Done);
    assert_eq!(of(r#"{"downloaded": 0, "size": 0, "progress": 5}"#), ItemState::Downloading);
    assert_eq!(of(r#"{"status": "odd", "downloaded": 1, "size": 2}"#), ItemState::Pending);
}

#[test]
fn the_queue_is_counted() {
    assert_eq!(get_queue_request(&config("a")).url, "http://d/api/getQueue");
    let q = get_queue(json(
        r#"{"queue": {"a": {"status": "completed"}, "b": {"status": "failed"},
            "c": {"status": "downloading"}, "d": {"status": "inQueue"}, "e": {"progress": 0}}}"#,
    ))
    .unwrap();
    assert_eq!((q.done, q.failed, q.downloading, q.pending), (1, 1, 1, 2));
    let none = get_queue(json(r#"{"queue": []}"#)).unwrap();
    assert_eq!((none.done, none.failed, none.downloading, none.pending), (0, 0, 0, 0));
    assert_eq!(get_queue(failed()).err(), Some("timeout".to_string()));
}

fn answer(success: bool) -> Result<Answer, String> {
    Ok(Answer { success, status: "500 Internal Server Error".to_string() })
}

const QUEUE: &str = r#"{"queue": {"a": {"status": "completed"}, "b": {"status": "completed"},
    "c": {"status": "failed"}, "d": {"status": "withErrors"}, "e": {"status": "inQueue"},
    "f": {"downloaded": 2, "size": 2}, "g": {"status": "odd", "downloaded": 2, "size": 2}}}"#;

#[test]
fn clearing_goes_through_the_finished_and_the_failed() {
    let c = config("a");
    let (run, request) = match clear_completed(&c, json(QUEUE)) {
        ClearStep::RemoveFinished(run, request) => (run, request),
        _ => panic!("no finished downloads"),
    };
    assert_eq!(request.url, "http://d/api/removeFinishedDownloads");
    let mut step = run.finished_removed(&c, answer(true));
    let mut asked: Vec<String> = Vec::new();
    for success in [true, false, true] {
        step = match step {
            ClearStep::RemoveOne(run, request) => {
                assert_eq!(request.url, "http://d/api/removeFromQueue");
                assert_eq!(request.query[0].0, "uuid");
                asked.push(request.query[0].1.clone());
                run.one_removed(&c, answer(success))
            }
            _ => panic!("nothing to remove"),
        };
    }
    assert_eq!(asked, vec!["c", "d", "f"]);
    match step {
        ClearStep::Return(outcome) => assert_eq!(outcome, Ok(4)),
        _ => panic!("not done"),
    }
}

#[test]
fn clearing_stops_where_deemix_refuses() {
    let c = config("a");
    match clear_completed(&c, json(QUEUE)) {
        ClearStep::RemoveFinished(run, _) => match run.finished_removed(&c, answer(false)) {
            ClearStep::Return(outcome) => assert_eq!(
                outcome,
                Err("removeFinishedDownloads failed: 500 Internal Server Error".to_string())
            ),
            _ => panic!("went on"),
        },
        _ => panic!("no finished downloads"),
    }
    match clear_completed(&c, json(QUEUE)) {
        ClearStep::RemoveFinished(run, _) => {
            match run.finished_removed(&c, Err("reset".to_string())) {
                ClearStep::Return(outcome) => assert_eq!(outcome, Err("reset".to_string())),
                _ => panic!("went on"),
            }
        }
        _ => panic!("no finished downloads"),
    }
}

#[test]
fn clearing_an_idle_queue_does_nothing() {
    let c = config("a");
    match clear_completed(&c, json(r#"{"queue": {"e": {"status": "inQueue"}}}"#)) {
        ClearStep::Return(outcome) => assert_eq!(outcome, Ok(0)),
        _ => panic!("asked for something"),
    }
    match clear_completed(&c, failed()) {
        ClearStep::Return(outcome) => assert_eq!(outcome, Err("timeout".to_string())),
        _ => panic!("asked for something"),
    }
    match clear_completed(&c, json(r#"{"queue": {"x": {"status": "failed"}}}"#)) {
        ClearStep::RemoveOne(run, _) => match run.one_removed(&c, Err("reset".to_string())) {
            ClearStep::Return(outcome) => assert_eq!(outcome, Ok(0)),
            _ => panic!("went on"),
        },
        _ => panic!("nothing to remove"),
    }
}

#[test]
fn searches_return_at_most_eight_results() {
    let r = search_request(&config("a"), "a b", "track");
    assert_eq!(r.url, "http://d/api/search");
    assert_eq!(r.query[0], ("term".to_string(), "a b".to_string()));
    assert_eq!(r.query[1], ("type".to_string(), "track".to_string()));
    assert_eq!(search(json(r#"{"data": [1,2,3,4,5,6,7,8,9,10]}"#)).unwrap().len(), 8);
    assert_eq!(search(json(r#"{"results": {"data": [1,2]}}"#)).unwrap().len(), 2);
    assert_eq!(search(json(r#"{"data": [], "results": {"data": [1]}}"#)).unwrap().len(), 0);
    assert!(search(json("{}")).unwrap().is_empty());
    assert_eq!(search(failed()).err(), Some("timeout".to_string()));
    assert_eq!(login_arl_request(&config("a"), "q").url, "http://d/api/loginArl");
}
