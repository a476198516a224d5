//! Commands and the keys of the bot's keyboards.

use vstd::prelude::*;

use crate::config::{BotState, Command, State};
use crate::flow::{send, send_with, send_with_keys, Action, Pending, Step, VoiceTask};
use crate::keyboards::{
    arl_cancel_keyboard, bitrate_label, main_keyboard, next_bitrate, settings_keyboard,
};
use crate::text::{same, starts_with};
use crate::users::{get_or_create, update, UserSettings};

verus! {

// ── Texts ────────────────────────────────────────────────────────────────────

pub const STARTUP: &'static str = "🎵 Deemix is back online!\n\nTap /menu for quick actions.";

pub const WELCOME: &'static str =
    "👋 Hey! I'm your personal music download assistant.\n\nJust send me a song name, a Deezer link, or a Spotify link and I'll find it and queue it for download on your server. No technical stuff needed!\n\n📲 Use /menu to see quick action buttons.\n\nFor a full list of what I can do, type /help.";

pub const HELP: &'static str = "ℹ️ What I do?\n\n\
I connect to your personal deemix server and queue music downloads for you. Just tell me what you want!\n\n\
📥 Ways to request music:\n\
• Type any song or artist name → search and pick from results\n\
• Send a Deezer link (track, album, playlist) → queued instantly\n\
• Send a Spotify, YouTube, YouTube Music, or Apple Music link → found on Deezer and queued\n\
• Send a Spotify or YouTube playlist link → every track is scanned and queued individually\n\
• Send a voice note → transcribe what you said or recognize the song\n\n\
🔧 All commands:\n\
/menu — quick action buttons\n\
/search — search for a track\n\
/album — search for an album\n\
/status — check deemix connection and queue\n\
/clearqueue — clear completed downloads from queue\n\
/settings — manage your personal preferences\n\
/updatearl — update your Deezer ARL\n\n\
⚙️ Settings (via /settings):\n\
• Restart notifications — get notified when the bot restarts\n\
• Voice search — transcribe voice notes to search\n\
• Song recognition — identify songs from voice recordings\n\n\
💡 Tip: You don't need commands — just send a song name or link directly!";

pub const SHORT_HELP: &'static str = "ℹ️ What I do?\n\n\
I connect to your personal deemix server and queue music downloads. Just tell me what you want!\n\n\
📥 Ways to request music:\n\
• Type any song or artist name → search and pick\n\
• Send a Deezer link → queued instantly\n\
• Send a Spotify, YouTube, YouTube Music, or Apple Music link → found on Deezer and queued\n\
• Send a Spotify or YouTube playlist link → every track is scanned and queued individually\n\
• Send a voice note → transcribe or recognize\n\n\
🔧 Commands:\n\
/menu — quick action buttons\n\
/search — search for a track\n\
/album — search for an album\n\
/status — check deemix\n\
/clearqueue — clear completed downloads from queue\n\
/settings — your personal settings\n\
/updatearl — update your Deezer ARL\n\n\
💡 Tip: Just send a song name or link — no commands needed!";

pub const ASK_SEARCH: &'static str = "🔍 What song or artist are you looking for?";

pub const ASK_ALBUM: &'static str = "💿 What album are you looking for?";

pub const ASK_ARL: &'static str = "Please send your new Deezer ARL:";

pub const ASK_ACTION: &'static str = "Choose an action:";

pub const ASK_SETTING: &'static str = "⚙️ Your settings — tap to toggle:";

pub const QUALITY_LOCKED: &'static str = "🔒 Download quality is locked by the administrator.";

/// How long the bot waits for a voice note that it has asked for, in seconds.
pub const VOICE_WAIT: u64 = 60;

// ── Keys ─────────────────────────────────────────────────────────────────────

/// What the text of a message says as a key of a keyboard.
#[derive(Clone, Copy, Debug, PartialEq, Eq, Structural)]
pub enum Key {
    SearchTrack,
    SearchAlbum,
    VoiceSearch,
    RecognizeSong,
    CheckStatus,
    ClearQueue,
    Settings,
    Back,
    UpdateArl,
    Help,
    ToggleNotifications,
    ToggleVoice,
    ChangeQuality,
    LockedQuality,
    ToggleRecognition,
    /// It is no key.
    Other,
}

/// The keys of the settings screen show a value behind their name.
pub open spec fn key_of(text: Seq<char>) -> Key {
    if text == "🔍 Search a track"@ {
        Key::SearchTrack
    } else if text == "💿 Search an album"@ {
        Key::SearchAlbum
    } else if text == "🎤 Voice search"@ {
        Key::VoiceSearch
    } else if text == "🎵 Recognize song"@ {
        Key::RecognizeSong
    } else if text == "📊 Check status"@ {
        Key::CheckStatus
    } else if text == "🧹 Clear queue"@ {
        Key::ClearQueue
    } else if text == "⚙️ Settings"@ {
        Key::Settings
    } else if text == "🔙 Back to menu"@ {
        Key::Back
    } else if text == "🔑 Update ARL"@ {
        Key::UpdateArl
    } else if text == "ℹ️ Help"@ {
        Key::Help
    } else if crate::text::has_prefix(text, "🔔 Restart notifications:"@)
        || crate::text::has_prefix(text, "🔕 Restart notifications:"@) {
        Key::ToggleNotifications
    } else if crate::text::has_prefix(text, "🎤 Voice search:"@) {
        Key::ToggleVoice
    } else if crate::text::has_prefix(text, "🎚️ Quality:"@) {
        Key::ChangeQuality
    } else if crate::text::has_prefix(text, "🔒 Quality:"@) {
        Key::LockedQuality
    } else if crate::text::has_prefix(text, "🎵 Song recognition:"@) {
        Key::ToggleRecognition
    } else {
        Key::Other
    }
}

pub fn read_key(text: &str) -> (r: Key)
    ensures
        r == key_of(text@),
{
    if same(text, "🔍 Search a track") {
        Key::SearchTrack
    } else if same(text, "💿 Search an album") {
        Key::SearchAlbum
    } else if same(text, "🎤 Voice search") {
        Key::VoiceSearch
    } else if same(text, "🎵 Recognize song") {
        Key::RecognizeSong
    } else if same(text, "📊 Check status") {
        Key::CheckStatus
    } else if same(text, "🧹 Clear queue") {
        Key::ClearQueue
    } else if same(text, "⚙️ Settings") {
        Key::Settings
    } else if same(text, "🔙 Back to menu") {
        Key::Back
    } else if same(text, "🔑 Update ARL") {
        Key::UpdateArl
    } else if same(text, "ℹ️ Help") {
        Key::Help
    } else if starts_with(text, "🔔 Restart notifications:") || starts_with(
        text,
        "🔕 Restart notifications:",
    ) {
        Key::ToggleNotifications
    } else if starts_with(text, "🎤 Voice search:") {
        Key::ToggleVoice
    } else if starts_with(text, "🎚️ Quality:") {
        Key::ChangeQuality
    } else if starts_with(text, "🔒 Quality:") {
        Key::LockedQuality
    } else if starts_with(text, "🎵 Song recognition:") {
        Key::ToggleRecognition
    } else {
        Key::Other
    }
}

pub open spec fn notifications_flipped(s: UserSettings) -> UserSettings {
    UserSettings { restart_notifications: !s.restart_notifications, ..s }
}

pub open spec fn voice_flipped(s: UserSettings) -> UserSettings {
    UserSettings { voice_search: !s.voice_search, ..s }
}

pub open spec fn recognition_flipped(s: UserSettings) -> UserSettings {
    UserSettings { song_recognition: !s.song_recognition, ..s }
}

/// The settings of a user after a key. A feature that is not configured cannot
/// be switched.
pub open spec fn settings_after(
    s: UserSettings,
    key: Key,
    config: crate::config::ConfigView,
) -> UserSettings {
    match key {
        Key::ToggleNotifications => notifications_flipped(s),
        Key::ToggleVoice => if config.whisper_enabled() {
            voice_flipped(s)
        } else {
            s
        },
        Key::ToggleRecognition => if config.audd_enabled() {
            recognition_flipped(s)
        } else {
            s
        },
        _ => s,
    }
}

/// The bitrate of new downloads after a key. One that is locked does not
/// change.
pub open spec fn bitrate_with(bitrate: u8, key: Key, config: crate::config::ConfigView) -> u8 {
    if key == Key::ChangeQuality && !config.deemix_bitrate_lock {
        crate::keyboards::bitrate_after(bitrate)
    } else {
        bitrate
    }
}

pub open spec fn on_or_off(on: bool) -> Seq<char> {
    if on {
        "ON"@
    } else {
        "OFF"@
    }
}

/// The step that asks for something and makes the dialogue wait for it.
pub open spec fn ask_step(state: State, text: Seq<char>) -> crate::flow::StepView {
    crate::flow::idle().act(crate::flow::ActionView::TrySetDialogue(state)).act(
        crate::flow::sent(text),
    )
}

/// The step that asks for a voice note, for as long as the bot waits for it.
pub open spec fn ask_voice_step(task: VoiceTask) -> crate::flow::StepView {
    match task {
        VoiceTask::Transcribe => ask_step(
            State::AwaitingVoiceTranscribe,
            "🎤 Send me a voice note and I'll transcribe what you said and search for it.\n\n⏱ You have 60 seconds."@,
        ),
        VoiceTask::Recognize => ask_step(
            State::AwaitingVoiceRecognize,
            "🎵 Send me a voice recording of a song and I'll identify it.\n\n⏱ You have 60 seconds."@,
        ),
    }.act(crate::flow::ActionView::ArmTimeout { task, seconds: VOICE_WAIT })
}

/// The step after a switch was turned: `settings` are those with the change.
pub open spec fn switched_step(
    name: Seq<char>,
    on: bool,
    settings: UserSettings,
    config: crate::config::ConfigView,
    bitrate: u8,
) -> crate::flow::StepView {
    crate::flow::idle().act(crate::flow::ActionView::SaveUsers).act(
        crate::flow::sent_with_keys(
            name + on_or_off(on),
            crate::keyboards::settings_keys(settings, config, bitrate),
        ),
    )
}

/// The step for a key, given the user's settings, the configuration and the
/// bitrate before it.
pub open spec fn key_step(
    key: Key,
    s: UserSettings,
    config: crate::config::ConfigView,
    bitrate: u8,
) -> crate::flow::StepView {
    let new = settings_after(s, key, config);
    let new_bitrate = bitrate_with(bitrate, key, config);
    let start = crate::flow::idle();
    match key {
        Key::SearchTrack => ask_step(State::AwaitingSearch, ASK_SEARCH@),
        Key::SearchAlbum => ask_step(State::AwaitingAlbum, ASK_ALBUM@),
        Key::VoiceSearch => if !config.whisper_enabled() || !s.voice_search {
            start.act(
                crate::flow::sent(
                    "⚠️ Voice search is not configured. Add OPENAI_API_KEY or WHISPER_URL in the add-on options, or enable it in /settings."@,
                ),
            )
        } else {
            ask_voice_step(VoiceTask::Transcribe)
        },
        Key::RecognizeSong => if !config.audd_enabled() || !s.song_recognition {
            start.act(
                crate::flow::sent(
                    "⚠️ Song recognition is not configured. Add AUDD_API_KEY in the add-on options, or enable it in /settings."@,
                ),
            )
        } else {
            ask_voice_step(VoiceTask::Recognize)
        },
        Key::CheckStatus => start.wait(
            crate::flow::PendingView::Status { asked_by_command: false },
        ),
        Key::ClearQueue => start.wait(crate::flow::PendingView::ClearQueue),
        Key::Settings => start.act(
            crate::flow::sent_with_keys(
                ASK_SETTING@,
                crate::keyboards::settings_keys(s, config, bitrate),
            ),
        ),
        Key::Back => start.act(
            crate::flow::sent_with_keys(ASK_ACTION@, crate::keyboards::main_keys(s, config)),
        ),
        Key::UpdateArl => start.act(
            crate::flow::ActionView::TrySetDialogue(State::AwaitingArl),
        ).act(crate::flow::sent_with(ASK_ARL@, crate::keyboards::arl_cancel_rows())),
        Key::Help => start.act(crate::flow::sent(SHORT_HELP@)),
        Key::ToggleNotifications => switched_step(
            "🔔 Restart notifications: "@,
            new.restart_notifications,
            new,
            config,
            bitrate,
        ),
        Key::ToggleVoice => if config.whisper_enabled() {
            switched_step("🎤 Voice search: "@, new.voice_search, new, config, bitrate)
        } else {
            start.act(
                crate::flow::sent(
                    "⚠️ Voice search is not configured. Add OPENAI_API_KEY in the add-on options to enable it."@,
                ),
            )
        },
        Key::ChangeQuality => if config.deemix_bitrate_lock {
            start.act(crate::flow::sent(QUALITY_LOCKED@))
        } else {
            start.act(
                crate::flow::sent_with_keys(
                    "🎚️ Download quality changed to: "@ + crate::keyboards::label_of(new_bitrate)
                        + "\n\n⚠️ This affects ALL users on this server."@,
                    crate::keyboards::settings_keys(s, config, new_bitrate),
                ),
            )
        },
        Key::LockedQuality => start.act(crate::flow::sent(QUALITY_LOCKED@)),
        Key::ToggleRecognition => if config.audd_enabled() {
            switched_step("🎵 Song recognition: "@, new.song_recognition, new, config, bitrate)
        } else {
            start.act(
                crate::flow::sent(
                    "⚠️ Song recognition is not configured. Add AUDD_API_KEY in the add-on options to enable it."@,
                ),
            )
        },
        Key::Other => start,
    }
}

fn ask(state: State, text: &str) -> (r: Step)
    ensures
        r.deep_view() == ask_step(state, text@),
{
    Step::new().act(Action::TrySetDialogue(state)).act(send(text))
}

fn ask_voice(task: VoiceTask) -> (r: Step)
    ensures
        r.deep_view() == ask_voice_step(task),
{
    let step = match task {
        VoiceTask::Transcribe => ask(
            State::AwaitingVoiceTranscribe,
            "🎤 Send me a voice note and I'll transcribe what you said and search for it.\n\n⏱ You have 60 seconds.",
        ),
        VoiceTask::Recognize => ask(
            State::AwaitingVoiceRecognize,
            "🎵 Send me a voice recording of a song and I'll identify it.\n\n⏱ You have 60 seconds.",
        ),
    };
    step.act(Action::ArmTimeout { task, seconds: VOICE_WAIT })
}

fn switched(state: &BotState, name: &str, on: bool, settings: &UserSettings) -> (r: Step)
    ensures
        r.deep_view() == switched_step(
            name@,
            on,
            *settings,
            state.config.deep_view(),
            state.current_bitrate,
        ),
{
    let value = if on {
        "ON"
    } else {
        "OFF"
    };
    let keys = settings_keyboard(settings, &state.config, state.current_bitrate);
    Step::new().act(Action::SaveUsers).act(
        send_with_keys(name.to_owned().concat(value).as_str(), keys),
    )
}

/// Turns a key of the settings screen: changes the user's settings.
fn turn_switch(state: &mut BotState, user_id: i64, key: Key) -> (r: UserSettings)
    ensures
        r == settings_after(
            crate::users::settings_of(old(state).users@, user_id),
            key,
            old(state).config.deep_view(),
        ),
        final(state).users@ == old(state).users@.insert(crate::users::user_key(user_id), r),
        final(state).pending_voices == old(state).pending_voices,
        final(state).current_bitrate == old(state).current_bitrate,
        crate::config::rest_unchanged(*old(state), *final(state)),
{
    let voice_on = state.config.whisper_enabled();
    let songs_on = state.config.audd_enabled();
    let ghost before = state.users@;
    match key {
        Key::ToggleNotifications => {
            let flip = |s: &mut UserSettings| -> (u: ())
                ensures
                    *final(s) == notifications_flipped(*old(s)),
                { s.restart_notifications = !s.restart_notifications; };
            update(&mut state.users, user_id, flip);
        },
        Key::ToggleVoice => if voice_on {
            let flip = |s: &mut UserSettings| -> (u: ())
                ensures
                    *final(s) == voice_flipped(*old(s)),
                { s.voice_search = !s.voice_search; };
            update(&mut state.users, user_id, flip);
        },
        Key::ToggleRecognition => if songs_on {
            let flip = |s: &mut UserSettings| -> (u: ())
                ensures
                    *final(s) == recognition_flipped(*old(s)),
                { s.song_recognition = !s.song_recognition; };
            update(&mut state.users, user_id, flip);
        },
        _ => {},
    }
    let r = get_or_create(&mut state.users, user_id);
    assert(state.users@ =~= before.insert(crate::users::user_key(user_id), r));
    r
}

/// Moves on to the next bitrate, unless it is locked.
pub fn handle_quality_change(state: &mut BotState, user_id: i64) -> (r: Step)
    ensures
        r.deep_view() == key_step(
            Key::ChangeQuality,
            crate::users::settings_of(old(state).users@, user_id),
            old(state).config.deep_view(),
            old(state).current_bitrate,
        ),
        final(state).current_bitrate == bitrate_with(
            old(state).current_bitrate,
            Key::ChangeQuality,
            old(state).config.deep_view(),
        ),
        final(state).users@ == if old(state).config.deemix_bitrate_lock {
            old(state).users@
        } else {
            old(state).users@.insert(
                crate::users::user_key(user_id),
                crate::users::settings_of(old(state).users@, user_id),
            )
        },
        final(state).pending_voices == old(state).pending_voices,
        crate::config::rest_unchanged(*old(state), *final(state)),
{
    if state.config.deemix_bitrate_lock {
        return Step::new().act(send(QUALITY_LOCKED));
    }
    let bitrate: u8 = next_bitrate(state.current_bitrate);
    state.current_bitrate = bitrate;
    let settings = get_or_create(&mut state.users, user_id);
    let text = "🎚️ Download quality changed to: ".to_owned().concat(bitrate_label(bitrate)).concat(
        "\n\n⚠️ This affects ALL users on this server.",
    );
    Step::new().act(
        send_with_keys(text.as_str(), settings_keyboard(&settings, &state.config, bitrate)),
    )
}

/// What a key changes: the user's settings, or the bitrate. A user who was not
/// known is entered.
pub open spec fn key_effect(before: BotState, after: BotState, user_id: i64, key: Key) -> bool {
    let s = crate::users::settings_of(before.users@, user_id);
    &&& after.users@ == before.users@.insert(
        crate::users::user_key(user_id),
        settings_after(s, key, before.config.deep_view()),
    )
    &&& after.current_bitrate == bitrate_with(
        before.current_bitrate,
        key,
        before.config.deep_view(),
    )
    &&& after.pending_voices == before.pending_voices
    &&& crate::config::rest_unchanged(before, after)
}

/// Does what a key asks for.
pub fn press_key(state: &mut BotState, user_id: i64, key: Key) -> (r: Step)
    ensures
        r.deep_view() == key_step(
            key,
            crate::users::settings_of(old(state).users@, user_id),
            old(state).config.deep_view(),
            old(state).current_bitrate,
        ),
        key_effect(*old(state), *final(state), user_id, key),
{
    let ghost before = *state;
    let settings = turn_switch(state, user_id, key);
    proof {
        crate::users::a_change_is_the_users_own(before.users@, user_id, settings, user_id);
    }
    match key {
        Key::SearchTrack => ask(State::AwaitingSearch, ASK_SEARCH),
        Key::SearchAlbum => ask(State::AwaitingAlbum, ASK_ALBUM),
        Key::VoiceSearch => if !state.config.whisper_enabled() || !settings.voice_search {
            Step::new().act(
                send(
                    "⚠️ Voice search is not configured. Add OPENAI_API_KEY or WHISPER_URL in the add-on options, or enable it in /settings.",
                ),
            )
        } else {
            ask_voice(VoiceTask::Transcribe)
        },
        Key::RecognizeSong => if !state.config.audd_enabled() || !settings.song_recognition {
            Step::new().act(
                send(
                    "⚠️ Song recognition is not configured. Add AUDD_API_KEY in the add-on options, or enable it in /settings.",
                ),
            )
        } else {
            ask_voice(VoiceTask::Recognize)
        },
        Key::CheckStatus => Step::new().wait(Pending::Status { asked_by_command: false }),
        Key::ClearQueue => Step::new().wait(Pending::ClearQueue),
        Key::Settings => Step::new().act(
            send_with_keys(
                ASK_SETTING,
                settings_keyboard(&settings, &state.config, state.current_bitrate),
            ),
        ),
        Key::Back => Step::new().act(
            send_with_keys(ASK_ACTION, main_keyboard(&settings, &state.config)),
        ),
        Key::UpdateArl => Step::new().act(Action::TrySetDialogue(State::AwaitingArl)).act(
            send_with(ASK_ARL, arl_cancel_keyboard()),
        ),
        Key::Help => Step::new().act(send(SHORT_HELP)),
        Key::ToggleNotifications => switched(
            state,
            "🔔 Restart notifications: ",
            settings.restart_notifications,
            &settings,
        ),
        Key::ToggleVoice => if state.config.whisper_enabled() {
            switched(state, "🎤 Voice search: ", settings.voice_search, &settings)
        } else {
            Step::new().act(
                send(
                    "⚠️ Voice search is not configured. Add OPENAI_API_KEY in the add-on options to enable it.",
                ),
            )
        },
        Key::ChangeQuality => {
            let step = handle_quality_change(state, user_id);
            proof {
                let s = crate::users::settings_of(before.users@, user_id);
                assert(state.users@ =~= before.users@.insert(crate::users::user_key(user_id), s));
            }
            step
        },
        Key::LockedQuality => Step::new().act(send(QUALITY_LOCKED)),
        Key::ToggleRecognition => if state.config.audd_enabled() {
            switched(state, "🎵 Song recognition: ", settings.song_recognition, &settings)
        } else {
            Step::new().act(
                send(
                    "⚠️ Song recognition is not configured. Add AUDD_API_KEY in the add-on options to enable it.",
                ),
            )
        },
        Key::Other => Step::new(),
    }
}

// ── Commands ─────────────────────────────────────────────────────────────────

/// The step for a command, given the user's settings, the configuration and
/// the bitrate.
pub open spec fn command_step(
    cmd: Command,
    s: UserSettings,
    config: crate::config::ConfigView,
    bitrate: u8,
) -> crate::flow::StepView {
    let start = crate::flow::idle().act(crate::flow::ActionView::SaveUsers);
    match cmd {
        Command::Start => start.act(
            crate::flow::sent_with_keys(WELCOME@, crate::keyboards::main_keys(s, config)),
        ),
        Command::Help => start.act(crate::flow::sent(HELP@)),
        Command::Status => start.wait(crate::flow::PendingView::Status { asked_by_command: true }),
        Command::Search => start.act(
            crate::flow::ActionView::SetDialogue(State::AwaitingSearch),
        ).act(crate::flow::sent(ASK_SEARCH@)),
        Command::Album => start.act(
            crate::flow::ActionView::SetDialogue(State::AwaitingAlbum),
        ).act(crate::flow::sent(ASK_ALBUM@)),
        Command::Clearqueue => start.wait(crate::flow::PendingView::ClearQueue),
        Command::Menu => start.act(
            crate::flow::sent_with_keys(ASK_ACTION@, crate::keyboards::main_keys(s, config)),
        ),
        Command::Settings => start.act(
            crate::flow::sent_with_keys(
                ASK_SETTING@,
                crate::keyboards::settings_keys(s, config, bitrate),
            ),
        ),
        Command::Updatearl => start.act(
            crate::flow::ActionView::SetDialogue(State::AwaitingArl),
        ).act(crate::flow::sent_with(ASK_ARL@, crate::keyboards::arl_cancel_rows())),
    }
}

/// Does what a command asks for. A user who was not known is entered.
pub fn handle_command(state: &mut BotState, user_id: i64, cmd: Command) -> (r: Step)
    ensures
        r.deep_view() == command_step(
            cmd,
            crate::users::settings_of(old(state).users@, user_id),
            old(state).config.deep_view(),
            old(state).current_bitrate,
        ),
        key_effect(*old(state), *final(state), user_id, Key::Other),
{
    let settings = get_or_create(&mut state.users, user_id);
    let start = Step::new().act(Action::SaveUsers);
    match cmd {
        Command::Start => start.act(
            send_with_keys(WELCOME, main_keyboard(&settings, &state.config)),
        ),
        Command::Help => start.act(send(HELP)),
        Command::Status => start.wait(Pending::Status { asked_by_command: true }),
        Command::Search => start.act(Action::SetDialogue(State::AwaitingSearch)).act(
            send(ASK_SEARCH),
        ),
        Command::Album => start.act(Action::SetDialogue(State::AwaitingAlbum)).act(send(ASK_ALBUM)),
        Command::Clearqueue => start.wait(Pending::ClearQueue),
        Command::Menu => start.act(
            send_with_keys(ASK_ACTION, main_keyboard(&settings, &state.config)),
        ),
        Command::Settings => start.act(
            send_with_keys(
                ASK_SETTING,
                settings_keyboard(&settings, &state.config, state.current_bitrate),
            ),
        ),
        Command::Updatearl => start.act(Action::SetDialogue(State::AwaitingArl)).act(
            send_with(ASK_ARL, arl_cancel_keyboard()),
        ),
    }
}

// ── What holds of keys ───────────────────────────────────────────────────────

/// A switch that is turned twice is where it was, and turning one leaves the
/// others alone.
pub proof fn switching_twice_restores(
    s: UserSettings,
    key: Key,
    config: crate::config::ConfigView,
)
    ensures
        settings_after(settings_after(s, key, config), key, config) == s,
        key != Key::ToggleNotifications ==> settings_after(s, key, config).restart_notifications
            == s.restart_notifications,
        key != Key::ToggleVoice ==> settings_after(s, key, config).voice_search == s.voice_search,
        key != Key::ToggleRecognition ==> settings_after(s, key, config).song_recognition
            == s.song_recognition,
{
}

/// No key changes a bitrate that is locked.
pub proof fn a_locked_bitrate_stays(bitrate: u8, key: Key, config: crate::config::ConfigView)
    requires
        config.deemix_bitrate_lock,
    ensures
        bitrate_with(bitrate, key, config) == bitrate,
{
}

/// A text without white space at its ends is its own trimmed form.
proof fn lemma_trimmed_key(text: Seq<char>)
    requires
        text.len() > 0,
        !crate::text::is_white_space(text[0]),
        !crate::text::is_white_space(text.last()),
    ensures
        crate::text::trimmed(text) == text,
{
}

/// A name with a value behind it starts with the name.
proof fn lemma_named(text: Seq<char>, name: Seq<char>)
    requires
        name.len() <= text.len(),
        forall|i: int| 0 <= i < name.len() ==> text[i] == name[i],
    ensures
        crate::text::has_prefix(text, name),
{
    assert(text.take(name.len() as int) =~= name);
    assert(text.subrange(0, name.len() as int) =~= name);
}

/// A text is none of the keys that start with another character.
proof fn lemma_told_by_first(text: Seq<char>)
    requires
        text.len() > 0,
    ensures
        text[0] != '🔍' ==> text != "🔍 Search a track"@,
        text[0] != '💿' ==> text != "💿 Search an album"@,
        text[0] != '🎤' ==> text != "🎤 Voice search"@,
        text[0] != '🎵' ==> text != "🎵 Recognize song"@,
        text[0] != '📊' ==> text != "📊 Check status"@,
        text[0] != '🧹' ==> text != "🧹 Clear queue"@,
        text[0] != '⚙' ==> text != "⚙️ Settings"@,
        text[0] != '🔙' ==> text != "🔙 Back to menu"@,
        text[0] != '🔑' ==> text != "🔑 Update ARL"@,
        text[0] != 'ℹ' ==> text != "ℹ️ Help"@,
        text[0] != '🔔' ==> !crate::text::has_prefix(text, "🔔 Restart notifications:"@),
        text[0] != '🔕' ==> !crate::text::has_prefix(text, "🔕 Restart notifications:"@),
        text[0] != '🎤' ==> !crate::text::has_prefix(text, "🎤 Voice search:"@),
        text[0] != '🎚' ==> !crate::text::has_prefix(text, "🎚️ Quality:"@),
        text[0] != '🔒' ==> !crate::text::has_prefix(text, "🔒 Quality:"@),
        text[0] != '🎵' ==> !crate::text::has_prefix(text, "🎵 Song recognition:"@),
{
    reveal_strlit("🔍 Search a track");
    reveal_strlit("💿 Search an album");
    reveal_strlit("🎤 Voice search");
    reveal_strlit("🎵 Recognize song");
    reveal_strlit("📊 Check status");
    reveal_strlit("🧹 Clear queue");
    reveal_strlit("⚙️ Settings");
    reveal_strlit("🔙 Back to menu");
    reveal_strlit("🔑 Update ARL");
    reveal_strlit("ℹ️ Help");
    reveal_strlit("🔔 Restart notifications:");
    reveal_strlit("🔕 Restart notifications:");
    reveal_strlit("🎤 Voice search:");
    reveal_strlit("🎚️ Quality:");
    reveal_strlit("🔒 Quality:");
    reveal_strlit("🎵 Song recognition:");
    if crate::text::has_prefix(text, "🔔 Restart notifications:"@) {
        assert(text.subrange(0, "🔔 Restart notifications:"@.len() as int)[0] == "🔔 Restart notifications:"@[0]);
    }
    if crate::text::has_prefix(text, "🔕 Restart notifications:"@) {
        assert(text.subrange(0, "🔕 Restart notifications:"@.len() as int)[0] == "🔕 Restart notifications:"@[0]);
    }
    if crate::text::has_prefix(text, "🎤 Voice search:"@) {
        assert(text.subrange(0, "🎤 Voice search:"@.len() as int)[0] == "🎤 Voice search:"@[0]);
    }
    if crate::text::has_prefix(text, "🎚️ Quality:"@) {
        assert(text.subrange(0, "🎚️ Quality:"@.len() as int)[0] == "🎚️ Quality:"@[0]);
    }
    if crate::text::has_prefix(text, "🔒 Quality:"@) {
        assert(text.subrange(0, "🔒 Quality:"@.len() as int)[0] == "🔒 Quality:"@[0]);
    }
    if crate::text::has_prefix(text, "🎵 Song recognition:"@) {
        assert(text.subrange(0, "🎵 Song recognition:"@.len() as int)[0] == "🎵 Song recognition:"@[0]);
    }
}

/// The bot understands every key of the settings screen, whatever the settings
/// are: it takes each for the switch that it shows.
pub proof fn settings_keys_are_understood(
    s: UserSettings,
    config: crate::config::ConfigView,
    bitrate: u8,
)
    ensures
        key_of(crate::text::trimmed(crate::keyboards::notification_key(s)))
            == Key::ToggleNotifications,
        key_of(crate::text::trimmed(crate::keyboards::voice_key(s, config))) == Key::ToggleVoice,
        key_of(crate::text::trimmed(crate::keyboards::recognition_key(s, config)))
            == Key::ToggleRecognition,
        key_of(crate::text::trimmed(crate::keyboards::quality_key(config, bitrate))) == (
        if config.deemix_bitrate_lock {
            Key::LockedQuality
        } else {
            Key::ChangeQuality
        }),
        key_of(crate::text::trimmed("🔑 Update ARL"@)) == Key::UpdateArl,
        key_of(crate::text::trimmed("🔙 Back to menu"@)) == Key::Back,
{
    lemma_notification_key(s);
    lemma_voice_key(s, config);
    lemma_recognition_key(s, config);
    lemma_quality_key(config, bitrate);
    reveal_strlit("🔑 Update ARL");
    reveal_strlit("🔙 Back to menu");
    lemma_trimmed_key("🔑 Update ARL"@);
    lemma_trimmed_key("🔙 Back to menu"@);
    lemma_told_by_first("🔑 Update ARL"@);
    lemma_told_by_first("🔙 Back to menu"@);
}

proof fn lemma_notification_key(s: UserSettings)
    ensures
        key_of(crate::text::trimmed(crate::keyboards::notification_key(s)))
            == Key::ToggleNotifications,
{
    let text = crate::keyboards::notification_key(s);
    reveal_strlit("🔔 Restart notifications: ON");
    reveal_strlit("🔕 Restart notifications: OFF");
    reveal_strlit("🔔 Restart notifications:");
    reveal_strlit("🔕 Restart notifications:");
    lemma_trimmed_key(text);
    lemma_told_by_first(text);
    if s.restart_notifications {
        lemma_named(text, "🔔 Restart notifications:"@);
    } else {
        lemma_named(text, "🔕 Restart notifications:"@);
    }
}

proof fn lemma_voice_key(s: UserSettings, config: crate::config::ConfigView)
    ensures
        key_of(crate::text::trimmed(crate::keyboards::voice_key(s, config))) == Key::ToggleVoice,
{
    let text = crate::keyboards::voice_key(s, config);
    reveal_strlit("🎤 Voice search: ON");
    reveal_strlit("🎤 Voice search: OFF");
    reveal_strlit("🎤 Voice search:");
    reveal_strlit("🎤 Voice search");
    lemma_trimmed_key(text);
    lemma_told_by_first(text);
    lemma_named(text, "🎤 Voice search:"@);
    assert(text.len() != "🎤 Voice search"@.len());
}

proof fn lemma_recognition_key(s: UserSettings, config: crate::config::ConfigView)
    ensures
        key_of(crate::text::trimmed(crate::keyboards::recognition_key(s, config)))
            == Key::ToggleRecognition,
{
    let text = crate::keyboards::recognition_key(s, config);
    reveal_strlit("🎵 Song recognition: ON");
    reveal_strlit("🎵 Song recognition: OFF");
    reveal_strlit("🎵 Song recognition:");
    reveal_strlit("🎵 Recognize song");
    lemma_trimmed_key(text);
    lemma_told_by_first(text);
    lemma_named(text, "🎵 Song recognition:"@);
    assert(text.len() != "🎵 Recognize song"@.len());
}

proof fn lemma_quality_key(config: crate::config::ConfigView, bitrate: u8)
    ensures
        key_of(crate::text::trimmed(crate::keyboards::quality_key(config, bitrate))) == (
        if config.deemix_bitrate_lock {
            Key::LockedQuality
        } else {
            Key::ChangeQuality
        }),
{
    let text = crate::keyboards::quality_key(config, bitrate);
    reveal_strlit("🔒 Quality: ");
    reveal_strlit("🎚️ Quality: ");
    reveal_strlit("🔒 Quality:");
    reveal_strlit("🎚️ Quality:");
    reveal_strlit(" (locked)");
    reveal_strlit(" (tap to change)");
    lemma_trimmed_key(text);
    lemma_told_by_first(text);
    if config.deemix_bitrate_lock {
        lemma_named(text, "🔒 Quality:"@);
    } else {
        lemma_named(text, "🎚️ Quality:"@);
    }
}

/// A key that stands in the menu to show what can be sent.
pub open spec fn is_hint(text: Seq<char>) -> bool {
    text == "🔗 From streaming link"@ || text == "🎵 From Deezer URL"@
}

/// The bot understands every key of the main menu but the two hints, which it
/// takes for what to search for.
pub proof fn menu_keys_are_understood(
    s: UserSettings,
    config: crate::config::ConfigView,
    i: int,
    j: int,
)
    requires
        0 <= i < crate::keyboards::main_keys(s, config).rows.len(),
        0 <= j < crate::keyboards::main_keys(s, config).rows[i].len(),
    ensures
        key_of(crate::text::trimmed(crate::keyboards::main_keys(s, config).rows[i][j]))
            == Key::Other <==> is_hint(crate::keyboards::main_keys(s, config).rows[i][j]),
{
    lemma_menu_literals();
    let rows = crate::keyboards::main_keys(s, config).rows;
    let text = rows[i][j];
    let voice = crate::keyboards::voice_keys(s, config);
    assert(rows.len() == if voice.len() > 0 {
        5int
    } else {
        4
    });
    if i == 2 && voice.len() > 0 {
        assert(rows[2] == voice);
        assert(text == "🎤 Voice search"@ || text == "🎵 Recognize song"@);
    } else {
        let k = if i > 2 && voice.len() > 0 {
            i - 1
        } else {
            i
        };
        assert(rows[i].len() == 2);
        assert(k == 0 ==> text == "🔍 Search a track"@ || text == "💿 Search an album"@);
        assert(k == 1 ==> is_hint(text));
        assert(k == 2 ==> text == "📊 Check status"@ || text == "🧹 Clear queue"@);
        assert(k == 3 ==> text == "⚙️ Settings"@ || text == "ℹ️ Help"@);
    }
}

proof fn lemma_menu_literals()
    ensures
        key_of(crate::text::trimmed("🔍 Search a track"@)) != Key::Other,
        !is_hint("🔍 Search a track"@),
        key_of(crate::text::trimmed("💿 Search an album"@)) != Key::Other,
        !is_hint("💿 Search an album"@),
        key_of(crate::text::trimmed("🎤 Voice search"@)) != Key::Other,
        !is_hint("🎤 Voice search"@),
        key_of(crate::text::trimmed("🎵 Recognize song"@)) != Key::Other,
        !is_hint("🎵 Recognize song"@),
        key_of(crate::text::trimmed("📊 Check status"@)) != Key::Other,
        !is_hint("📊 Check status"@),
        key_of(crate::text::trimmed("🧹 Clear queue"@)) != Key::Other,
        !is_hint("🧹 Clear queue"@),
        key_of(crate::text::trimmed("⚙️ Settings"@)) != Key::Other,
        !is_hint("⚙️ Settings"@),
        key_of(crate::text::trimmed("ℹ️ Help"@)) != Key::Other,
        !is_hint("ℹ️ Help"@),
        key_of(crate::text::trimmed("🔗 From streaming link"@)) == Key::Other,
        key_of(crate::text::trimmed("🎵 From Deezer URL"@)) == Key::Other,
{
    reveal_strlit("🔍 Search a track");
    lemma_trimmed_key("🔍 Search a track"@);
    lemma_told_by_first("🔍 Search a track"@);
    reveal_strlit("💿 Search an album");
    lemma_trimmed_key("💿 Search an album"@);
    lemma_told_by_first("💿 Search an album"@);
    reveal_strlit("🎤 Voice search");
    lemma_trimmed_key("🎤 Voice search"@);
    lemma_told_by_first("🎤 Voice search"@);
    reveal_strlit("🎵 Recognize song");
    lemma_trimmed_key("🎵 Recognize song"@);
    lemma_told_by_first("🎵 Recognize song"@);
    reveal_strlit("📊 Check status");
    lemma_trimmed_key("📊 Check status"@);
    lemma_told_by_first("📊 Check status"@);
    reveal_strlit("🧹 Clear queue");
    lemma_trimmed_key("🧹 Clear queue"@);
    lemma_told_by_first("🧹 Clear queue"@);
    reveal_strlit("⚙️ Settings");
    lemma_trimmed_key("⚙️ Settings"@);
    lemma_told_by_first("⚙️ Settings"@);
    reveal_strlit("ℹ️ Help");
    lemma_trimmed_key("ℹ️ Help"@);
    lemma_told_by_first("ℹ️ Help"@);
    reveal_strlit("🔗 From streaming link");
    lemma_trimmed_key("🔗 From streaming link"@);
    lemma_told_by_first("🔗 From streaming link"@);
    reveal_strlit("🎵 From Deezer URL");
    lemma_trimmed_key("🎵 From Deezer URL"@);
    lemma_told_by_first("🎵 From Deezer URL"@);
    reveal_strlit("🎵 Song recognition:");
    assert("🎵 From Deezer URL"@[2] != "🎵 Recognize song"@[2]);
    if crate::text::has_prefix("🎵 From Deezer URL"@, "🎵 Song recognition:"@) {
        assert("🎵 From Deezer URL"@.subrange(0, "🎵 Song recognition:"@.len() as int)[2] == 'F');
    }
}

/// The main menu shows a voice key exactly where pressing it asks for a voice
/// note.
pub proof fn voice_keys_work_where_they_show(
    s: UserSettings,
    config: crate::config::ConfigView,
    bitrate: u8,
)
    ensures
        crate::keyboards::voice_keys(s, config).contains("🎤 Voice search"@) <==> key_step(
            Key::VoiceSearch,
            s,
            config,
            bitrate,
        ) == ask_voice_step(VoiceTask::Transcribe),
        crate::keyboards::voice_keys(s, config).contains("🎵 Recognize song"@) <==> key_step(
            Key::RecognizeSong,
            s,
            config,
            bitrate,
        ) == ask_voice_step(VoiceTask::Recognize),
{
    reveal_strlit("🎤 Voice search");
    reveal_strlit("🎵 Recognize song");
    let keys = crate::keyboards::voice_keys(s, config);
    assert("🎤 Voice search"@[0] != "🎵 Recognize song"@[0]);
    let search = config.whisper_enabled() && s.voice_search;
    let songs = config.audd_enabled() && s.song_recognition;
    if search {
        assert(keys[0] == "🎤 Voice search"@);
    }
    if songs {
        assert(keys[keys.len() - 1] == "🎵 Recognize song"@);
    }
    assert(ask_voice_step(VoiceTask::Transcribe).actions.len() == 3);
    assert(ask_voice_step(VoiceTask::Recognize).actions.len() == 3);
    assert(!search ==> key_step(Key::VoiceSearch, s, config, bitrate).actions.len() == 1);
    assert(!songs ==> key_step(Key::RecognizeSong, s, config, bitrate).actions.len() == 1);
}

// ── What holds of each key and command ───────────────────────────────────────

/// Each key of the menus is taken for what it says.
pub proof fn each_key_is_taken_for_what_it_says()
    ensures
        key_of(crate::text::trimmed("🔍 Search a track"@)) == Key::SearchTrack,
        key_of(crate::text::trimmed("💿 Search an album"@)) == Key::SearchAlbum,
        key_of(crate::text::trimmed("🎤 Voice search"@)) == Key::VoiceSearch,
        key_of(crate::text::trimmed("🎵 Recognize song"@)) == Key::RecognizeSong,
        key_of(crate::text::trimmed("📊 Check status"@)) == Key::CheckStatus,
        key_of(crate::text::trimmed("🧹 Clear queue"@)) == Key::ClearQueue,
        key_of(crate::text::trimmed("⚙️ Settings"@)) == Key::Settings,
        key_of(crate::text::trimmed("🔙 Back to menu"@)) == Key::Back,
        key_of(crate::text::trimmed("🔑 Update ARL"@)) == Key::UpdateArl,
        key_of(crate::text::trimmed("ℹ️ Help"@)) == Key::Help,
{
    reveal_strlit("🔍 Search a track");
    lemma_trimmed_key("🔍 Search a track"@);
    lemma_told_by_first("🔍 Search a track"@);
    reveal_strlit("💿 Search an album");
    lemma_trimmed_key("💿 Search an album"@);
    lemma_told_by_first("💿 Search an album"@);
    reveal_strlit("🎤 Voice search");
    lemma_trimmed_key("🎤 Voice search"@);
    lemma_told_by_first("🎤 Voice search"@);
    reveal_strlit("🎵 Recognize song");
    lemma_trimmed_key("🎵 Recognize song"@);
    lemma_told_by_first("🎵 Recognize song"@);
    reveal_strlit("📊 Check status");
    lemma_trimmed_key("📊 Check status"@);
    lemma_told_by_first("📊 Check status"@);
    reveal_strlit("🧹 Clear queue");
    lemma_trimmed_key("🧹 Clear queue"@);
    lemma_told_by_first("🧹 Clear queue"@);
    reveal_strlit("⚙️ Settings");
    lemma_trimmed_key("⚙️ Settings"@);
    lemma_told_by_first("⚙️ Settings"@);
    reveal_strlit("🔙 Back to menu");
    lemma_trimmed_key("🔙 Back to menu"@);
    lemma_told_by_first("🔙 Back to menu"@);
    reveal_strlit("🔑 Update ARL");
    lemma_trimmed_key("🔑 Update ARL"@);
    lemma_told_by_first("🔑 Update ARL"@);
    reveal_strlit("ℹ️ Help");
    lemma_trimmed_key("ℹ️ Help"@);
    lemma_told_by_first("ℹ️ Help"@);
}

/// The state of the dialogue that an action sets.
pub open spec fn dialogue_set(action: crate::flow::ActionView) -> Option<State> {
    match action {
        crate::flow::ActionView::SetDialogue(s) => Some(s),
        crate::flow::ActionView::TrySetDialogue(s) => Some(s),
        _ => None,
    }
}

/// A key that asks for something makes the dialogue wait for just that.
pub proof fn keys_ask_for_what_they_say(
    s: UserSettings,
    config: crate::config::ConfigView,
    bitrate: u8,
)
    ensures
        dialogue_set(key_step(Key::SearchTrack, s, config, bitrate).actions[0]) == Some(
            State::AwaitingSearch,
        ),
        dialogue_set(key_step(Key::SearchAlbum, s, config, bitrate).actions[0]) == Some(
            State::AwaitingAlbum,
        ),
        dialogue_set(key_step(Key::UpdateArl, s, config, bitrate).actions[0]) == Some(
            State::AwaitingArl,
        ),
        config.whisper_enabled() && s.voice_search ==> dialogue_set(
            key_step(Key::VoiceSearch, s, config, bitrate).actions[0],
        ) == Some(State::AwaitingVoiceTranscribe) && key_step(
            Key::VoiceSearch,
            s,
            config,
            bitrate,
        ).actions.last() == (crate::flow::ActionView::ArmTimeout {
            task: VoiceTask::Transcribe,
            seconds: 60,
        }),
        config.audd_enabled() && s.song_recognition ==> dialogue_set(
            key_step(Key::RecognizeSong, s, config, bitrate).actions[0],
        ) == Some(State::AwaitingVoiceRecognize) && key_step(
            Key::RecognizeSong,
            s,
            config,
            bitrate,
        ).actions.last() == (crate::flow::ActionView::ArmTimeout {
            task: VoiceTask::Recognize,
            seconds: 60,
        }),
        !(config.whisper_enabled() && s.voice_search) ==> key_step(
            Key::VoiceSearch,
            s,
            config,
            bitrate,
        ).actions.len() == 1,
        !(config.audd_enabled() && s.song_recognition) ==> key_step(
            Key::RecognizeSong,
            s,
            config,
            bitrate,
        ).actions.len() == 1,
        key_step(Key::CheckStatus, s, config, bitrate).next is Status,
        key_step(Key::ClearQueue, s, config, bitrate).next is ClearQueue,
        forall|key: Key|
            key != Key::CheckStatus && key != Key::ClearQueue ==> (#[trigger] key_step(
                key,
                s,
                config,
                bitrate,
            )).next is Done,
{
}

/// The commands ask for what the keys ask for.
pub proof fn commands_do_what_the_keys_do(
    s: UserSettings,
    config: crate::config::ConfigView,
    bitrate: u8,
)
    ensures
        dialogue_set(command_step(Command::Search, s, config, bitrate).actions[1]) == Some(
            State::AwaitingSearch,
        ),
        dialogue_set(command_step(Command::Album, s, config, bitrate).actions[1]) == Some(
            State::AwaitingAlbum,
        ),
        dialogue_set(command_step(Command::Updatearl, s, config, bitrate).actions[1]) == Some(
            State::AwaitingArl,
        ),
        command_step(Command::Status, s, config, bitrate).next is Status,
        command_step(Command::Clearqueue, s, config, bitrate).next is ClearQueue,
        command_step(Command::Menu, s, config, bitrate).actions[1] == key_step(
            Key::Back,
            s,
            config,
            bitrate,
        ).actions[0],
        command_step(Command::Settings, s, config, bitrate).actions[1] == key_step(
            Key::Settings,
            s,
            config,
            bitrate,
        ).actions[0],
        command_step(Command::Start, s, config, bitrate).actions[1] matches crate::flow::ActionView::Send {
            text,
            markup: crate::flow::MarkupView::Keyboard(keys),
        } && keys == crate::keyboards::main_keys(s, config),
        forall|cmd: Command| (#[trigger] command_step(cmd, s, config, bitrate)).actions[0] is SaveUsers,
        forall|cmd: Command|
            cmd != Command::Status && cmd != Command::Clearqueue ==> (#[trigger] command_step(
                cmd,
                s,
                config,
                bitrate,
            )).next is Done,
{
}

/// A switch turns its own setting over, where the feature is configured, and the
/// answer says how the setting is now and shows the settings as they are.
pub proof fn switches_say_what_they_did(
    s: UserSettings,
    config: crate::config::ConfigView,
    bitrate: u8,
)
    ensures
        settings_after(s, Key::ToggleNotifications, config).restart_notifications
            == !s.restart_notifications,
        config.whisper_enabled() ==> settings_after(s, Key::ToggleVoice, config).voice_search
            == !s.voice_search,
        !config.whisper_enabled() ==> settings_after(s, Key::ToggleVoice, config) == s,
        config.audd_enabled() ==> settings_after(s, Key::ToggleRecognition, config).song_recognition
            == !s.song_recognition,
        !config.audd_enabled() ==> settings_after(s, Key::ToggleRecognition, config) == s,
        ({
            let new = settings_after(s, Key::ToggleNotifications, config);
            let step = key_step(Key::ToggleNotifications, s, config, bitrate);
            &&& step.actions[0] is SaveUsers
            &&& step.actions[1] matches crate::flow::ActionView::Send {
                text,
                markup: crate::flow::MarkupView::Keyboard(keys),
            } && keys == crate::keyboards::settings_keys(new, config, bitrate) && text
                == "🔔 Restart notifications: "@ + (if s.restart_notifications {
                "OFF"@
            } else {
                "ON"@
            })
        }),
        config.whisper_enabled() ==> ({
            let new = settings_after(s, Key::ToggleVoice, config);
            let step = key_step(Key::ToggleVoice, s, config, bitrate);
            &&& step.actions[0] is SaveUsers
            &&& step.actions[1] matches crate::flow::ActionView::Send {
                text,
                markup: crate::flow::MarkupView::Keyboard(keys),
            } && keys == crate::keyboards::settings_keys(new, config, bitrate) && text
                == "🎤 Voice search: "@ + (if s.voice_search {
                "OFF"@
            } else {
                "ON"@
            })
        }),
        config.audd_enabled() ==> ({
            let new = settings_after(s, Key::ToggleRecognition, config);
            let step = key_step(Key::ToggleRecognition, s, config, bitrate);
            &&& step.actions[0] is SaveUsers
            &&& step.actions[1] matches crate::flow::ActionView::Send {
                text,
                markup: crate::flow::MarkupView::Keyboard(keys),
            } && keys == crate::keyboards::settings_keys(new, config, bitrate) && text
                == "🎵 Song recognition: "@ + (if s.song_recognition {
                "OFF"@
            } else {
                "ON"@
            })
        }),
{
}

/// The quality changes with the key for it, unless it is locked, and with no
/// other; the answer names the new one.
pub proof fn the_quality_changes_with_its_key(
    s: UserSettings,
    config: crate::config::ConfigView,
    bitrate: u8,
    key: Key,
)
    ensures
        !config.deemix_bitrate_lock ==> bitrate_with(bitrate, Key::ChangeQuality, config)
            == crate::keyboards::bitrate_after(bitrate),
        key != Key::ChangeQuality ==> bitrate_with(bitrate, key, config) == bitrate,
        !config.deemix_bitrate_lock ==> (key_step(
            Key::ChangeQuality,
            s,
            config,
            bitrate,
        ).actions[0] matches crate::flow::ActionView::Send {
            text,
            markup: crate::flow::MarkupView::Keyboard(keys),
        } && keys == crate::keyboards::settings_keys(
            s,
            config,
            crate::keyboards::bitrate_after(bitrate),
        ) && crate::text::occurs_in(
            text,
            crate::keyboards::label_of(crate::keyboards::bitrate_after(bitrate)),
        )),
        config.deemix_bitrate_lock ==> key_step(Key::ChangeQuality, s, config, bitrate) == key_step(
            Key::LockedQuality,
            s,
            config,
            bitrate,
        ),
{
    let label = crate::keyboards::label_of(crate::keyboards::bitrate_after(bitrate));
    crate::text::parts_are_found_anywhere(
        "🎚️ Download quality changed to: "@,
        label,
        "\n\n⚠️ This affects ALL users on this server."@,
        label,
    );
}

/// The keys that show something show just that: the settings as they are, the
/// menu, and the short help.
pub proof fn keys_show_what_they_say(
    s: UserSettings,
    config: crate::config::ConfigView,
    bitrate: u8,
)
    ensures
        key_step(Key::Settings, s, config, bitrate).actions == seq![
            crate::flow::ActionView::Send {
                text: "⚙️ Your settings — tap to toggle:"@,
                markup: crate::flow::MarkupView::Keyboard(
                    crate::keyboards::settings_keys(s, config, bitrate),
                ),
            },
        ],
        key_step(Key::Back, s, config, bitrate).actions == seq![
            crate::flow::ActionView::Send {
                text: "Choose an action:"@,
                markup: crate::flow::MarkupView::Keyboard(crate::keyboards::main_keys(s, config)),
            },
        ],
        key_step(Key::Help, s, config, bitrate).actions == seq![
            crate::flow::ActionView::Send {
                text: SHORT_HELP@,
                markup: crate::flow::MarkupView::Plain,
            },
        ],
        command_step(Command::Help, s, config, bitrate).actions[1] == (
        crate::flow::ActionView::Send { text: HELP@, markup: crate::flow::MarkupView::Plain }),
        command_step(Command::Help, s, config, bitrate).actions.len() == 2,
        key_step(Key::LockedQuality, s, config, bitrate).actions == seq![
            crate::flow::ActionView::Send {
                text: "🔒 Download quality is locked by the administrator."@,
                markup: crate::flow::MarkupView::Plain,
            },
        ],
        key_step(Key::Other, s, config, bitrate).actions.len() == 0,
{
    assert(key_step(Key::Settings, s, config, bitrate).actions =~= seq![
        crate::flow::ActionView::Send {
            text: "⚙️ Your settings — tap to toggle:"@,
            markup: crate::flow::MarkupView::Keyboard(
                crate::keyboards::settings_keys(s, config, bitrate),
            ),
        },
    ]);
    assert(key_step(Key::Back, s, config, bitrate).actions =~= seq![
        crate::flow::ActionView::Send {
            text: "Choose an action:"@,
            markup: crate::flow::MarkupView::Keyboard(crate::keyboards::main_keys(s, config)),
        },
    ]);
    assert(key_step(Key::Help, s, config, bitrate).actions =~= seq![
        crate::flow::ActionView::Send {
            text: SHORT_HELP@,
            markup: crate::flow::MarkupView::Plain,
        },
    ]);
    assert(key_step(Key::LockedQuality, s, config, bitrate).actions =~= seq![
        crate::flow::ActionView::Send {
            text: "🔒 Download quality is locked by the administrator."@,
            markup: crate::flow::MarkupView::Plain,
        },
    ]);
}

/// A key changes the settings of the user who pressed it and the quality, and
/// nobody else's settings.
pub proof fn a_key_changes_its_own_user(
    before: BotState,
    after: BotState,
    user: i64,
    key: Key,
    other: i64,
)
    requires
        key_effect(before, after, user, key),
        user != other,
    ensures
        ({
            let s = crate::users::settings_of(before.users@, user);
            let new = crate::users::settings_of(after.users@, user);
            &&& new == settings_after(s, key, before.config.deep_view())
            &&& new.restart_notifications != s.restart_notifications <==> key
                == Key::ToggleNotifications
            &&& crate::users::settings_of(after.users@, other) == crate::users::settings_of(
                before.users@,
                other,
            )
            &&& after.current_bitrate != before.current_bitrate ==> key == Key::ChangeQuality
                && !before.config.deep_view().deemix_bitrate_lock
            &&& after.pending_voices == before.pending_voices
            &&& after.current_arl == before.current_arl
        }),
{
    crate::users::users_have_their_own_entries(user, other);
}

} // verus!
