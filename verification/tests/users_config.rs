use deemix_bot::config::{arl_of, parse_ids, read_arl, BotState, Config, Environment, State};
use deemix_bot::json::parse;
use deemix_bot::table::Table;
use deemix_bot::users::{all_with_notifications, get_or_create, update, UserSettings};

fn empty() -> Environment {
    Environment {
        deemix_url: None,
        login_file: None,
        users_file: None,
        audd_api_key: None,
        acrcloud_host: None,
        acrcloud_access_key: None,
        acrcloud_secret_key: None,
        openai_api_key: None,
        whisper_url: None,
        bot_bitrate: None,
        deemix_bitrate_lock: None,
        whitelist_enabled: None,
        whitelist_ids: None,
    }
}

#[test]
fn new_users_get_the_defaults() {
    let mut db: Table<UserSettings> = Table::new();
    let s = get_or_create(&mut db, 42);
    assert!(!s.restart_notifications && s.voice_search && s.song_recognition);
    assert_eq!(s, UserSettings::default());
    assert!(db.get("42").is_some());
}

#[test]
fn looking_up_changes_nothing() {
    let mut db: Table<UserSettings> = Table::new();
    update(&mut db, 1, |s: &mut UserSettings| s.voice_search = false);
    let first = get_or_create(&mut db, 1);
    let second = get_or_create(&mut db, 1);
    assert_eq!(first, second);
    assert!(!first.voice_search);
    assert_eq!(db.entries().len(), 1);
}

#[test]
fn a_change_is_one_users_own() {
    let mut db: Table<UserSettings> = Table::new();
    get_or_create(&mut db, 1);
    update(&mut db, -1, |s: &mut UserSettings| s.song_recognition = false);
    assert!(get_or_create(&mut db, 1).song_recognition);
    assert!(!get_or_create(&mut db, -1).song_recognition);
}

#[test]
fn only_subscribers_are_notified() {
    let mut db: Table<UserSettings> = Table::new();
    update(&mut db, 7, |s: &mut UserSettings| s.restart_notifications = true);
    update(&mut db, -8, |s: &mut UserSettings| s.restart_notifications = true);
    get_or_create(&mut db, 9);
    let odd = UserSettings { restart_notifications: true, voice_search: true, song_recognition: true };
    db.insert("nobody".to_string(), odd);
    assert_eq!(all_with_notifications(&db), vec![7, -8]);
    update(&mut db, 7, |s: &mut UserSettings| s.restart_notifications = false);
    assert_eq!(all_with_notifications(&db), vec![-8]);
    db.insert("-08".to_string(), odd);
    assert_eq!(all_with_notifications(&db), vec![-8, -8]);
}

#[test]
fn an_empty_environment_gives_the_defaults() {
    let c = Config::from_env(empty());
    assert_eq!(c.deemix_url, "http://localhost:6595");
    assert_eq!(c.deemix_arl, "");
    assert_eq!(c.users_file, "/config/telegram_bot/users.json");
    assert_eq!(c.deemix_bitrate, 9);
    assert!(!c.deemix_bitrate_lock);
    assert!(c.whitelist_enabled);
    assert!(c.whitelist_ids.is_empty());
    assert!(!c.audd_enabled() && !c.acrcloud_enabled() && !c.whisper_enabled());
}

#[test]
fn variables_are_read() {
    let mut e = empty();
    e.deemix_url = Some("http://d:1".to_string());
    e.login_file = Some(r#"{"arl": "abc", "x": 1}"#.to_string());
    e.bot_bitrate = Some("3".to_string());
    e.deemix_bitrate_lock = Some("TRUE".to_string());
    e.whitelist_enabled = Some("no".to_string());
    e.whitelist_ids = Some(" 5, -6 ,x,, 7".to_string());
    e.whisper_url = Some("http://w".to_string());
    let c = Config::from_env(e);
    assert_eq!(c.deemix_url, "http://d:1");
    assert_eq!(c.deemix_arl, "abc");
    assert_eq!(c.deemix_bitrate, 3);
    assert!(c.deemix_bitrate_lock);
    assert!(!c.whitelist_enabled);
    assert_eq!(c.whitelist_ids, vec![5, -6, 7]);
    assert!(c.whisper_enabled());
}

#[test]
fn a_bitrate_that_is_none_falls_back() {
    for text in ["", "nine", "300", "-1"] {
        let mut e = empty();
        e.bot_bitrate = Some(text.to_string());
        assert_eq!(Config::from_env(e).deemix_bitrate, 9);
    }
}

#[test]
fn the_arl_is_read_from_the_login_file() {
    assert_eq!(read_arl(&Some(r#"{"arl": "q"}"#.to_string())), Some("q".to_string()));
    assert_eq!(read_arl(&Some(r#"{"arl": 5}"#.to_string())), None);
    assert_eq!(read_arl(&Some("nonsense".to_string())), None);
    assert_eq!(read_arl(&None), None);
    assert_eq!(arl_of(&parse(r#"{"arl": "z"}"#)), Some("z".to_string()));
    assert_eq!(arl_of(&None), None);
    assert_eq!(parse_ids("1,2"), vec![1, 2]);
}

#[test]
fn the_whitelist_lets_in_whom_it_names() {
    let mut e = empty();
    e.whitelist_ids = Some("5".to_string());
    let c = Config::from_env(e);
    assert!(c.is_user_allowed(5));
    assert!(!c.is_user_allowed(6));
    assert!(!c.is_whitelist_empty());
}

#[test]
fn an_empty_whitelist_lets_in_nobody() {
    let c = Config::from_env(empty());
    assert!(c.is_whitelist_empty());
    assert!(!c.is_user_allowed(0));
    let mut e = empty();
    e.whitelist_enabled = Some("false".to_string());
    let open = Config::from_env(e);
    assert!(!open.is_whitelist_empty());
    assert!(open.is_user_allowed(0));
}

#[test]
fn the_state_starts_from_the_configuration() {
    let mut e = empty();
    e.bot_bitrate = Some("1".to_string());
    e.login_file = Some(r#"{"arl": "a"}"#.to_string());
    let state = BotState::new(Config::from_env(e), Table::new());
    assert_eq!(state.current_bitrate, 1);
    assert_eq!(state.current_arl, "a");
    assert!(state.ws_events.is_empty());
    assert!(state.pending_voices.entries().is_empty());
    assert_eq!(State::default(), State::Idle);
}
