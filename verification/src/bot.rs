//! What the bot makes of each update.

use vstd::prelude::*;

use crate::config::{BotState, Command, Config, State};
use crate::deemix::QueueStatus;
use crate::flow::{
    edit, send, send_with, Action, AfterQueue, AfterSearch, AfterSpotify, Pending, SearchKind, Step,
    VoiceTask,
};
use crate::json::Json;
use crate::keyboards::arl_cancel_keyboard;
use crate::links::{extract_link, take_text, DEEZER_URL_RE};
use crate::menu::{handle_command, press_key, read_key, Key};
use crate::pattern::Groups;
use crate::search::{do_search, show_search};
use crate::spotify::SpotifyMeta;
use crate::streaming::{link_queued, link_resolved, link_searched};
use crate::text::{capitalize, lowercase, same, strip_prefix, trim, usize_text};
use crate::users::{get_or_create, UserSettings};
use crate::voice::{
    handle_voice_callback, handle_voice_message, heard_searched, receive_voice_recognize,
    receive_voice_transcribe, song_resolved, song_searched, title_searched,
};

verus! {

// ── The download queue ───────────────────────────────────────────────────────

/// A count with its name before it, where there is anything to count.
pub open spec fn count_line(name: Seq<char>, n: usize, end: Seq<char>) -> Seq<char> {
    if n > 0 {
        name + crate::text::decimal(n as nat) + end
    } else {
        Seq::empty()
    }
}

/// What is said of the download queue.
pub open spec fn status_text(q: QueueStatus, asked_by_command: bool) -> Seq<char> {
    "✅ Deemix is reachable\n"@ + count_line("⬇️ Downloading: "@, q.downloading, "\n"@) + count_line(
        "⏳ Pending: "@,
        q.pending,
        "\n"@,
    ) + count_line("❌ Failed: "@, q.failed, "\n"@) + count_line(
        if asked_by_command {
            "✅ Completed (in queue): "@
        } else {
            "✅ Completed: "@
        },
        q.done,
        Seq::empty(),
    ) + if q.downloading == 0 && q.pending == 0 && q.done == 0 && q.failed == 0 {
        "📭 Queue is empty"@
    } else {
        Seq::empty()
    }
}

fn count(name: &str, n: usize, end: &str) -> (r: String)
    ensures
        r@ == count_line(name@, n, end@),
{
    if n > 0 {
        name.to_owned().concat(usize_text(n).as_str()).concat(end)
    } else {
        String::new()
    }
}

/// The step once the download queue was counted.
pub open spec fn status_step(
    asked_by_command: bool,
    counts: Result<QueueStatus, String>,
) -> crate::flow::StepView {
    crate::flow::idle().act(
        crate::flow::sent(
            match counts {
                Ok(q) => status_text(q, asked_by_command),
                Err(e) => "❌ Can't reach deemix: "@ + e@,
            },
        ),
    )
}

/// Says what is in the download queue.
pub fn show_status(asked_by_command: bool, counts: Result<QueueStatus, String>) -> (r: Step)
    ensures
        r.deep_view() == status_step(asked_by_command, counts),
{
    match counts {
        Ok(q) => {
            let done = if asked_by_command {
                "✅ Completed (in queue): "
            } else {
                "✅ Completed: "
            };
            proof {
                reveal_strlit("");
                assert(""@ =~= Seq::<char>::empty());
            }
            let empty = if q.downloading == 0 && q.pending == 0 && q.done == 0 && q.failed == 0 {
                "📭 Queue is empty"
            } else {
                ""
            };
            let text = "✅ Deemix is reachable\n".to_owned().concat(
                count("⬇️ Downloading: ", q.downloading, "\n").as_str(),
            ).concat(count("⏳ Pending: ", q.pending, "\n").as_str()).concat(
                count("❌ Failed: ", q.failed, "\n").as_str(),
            ).concat(count(done, q.done, "").as_str()).concat(empty);
            Step::new().act(send(text.as_str()))
        },
        Err(e) => Step::new().act(
            send("❌ Can't reach deemix: ".to_owned().concat(e.as_str()).as_str()),
        ),
    }
}

/// The step once finished downloads were removed.
pub open spec fn cleared_step(outcome: Result<usize, String>) -> crate::flow::StepView {
    crate::flow::idle().act(
        crate::flow::sent(
            match outcome {
                Ok(n) => if n == 0 {
                    "📭 No completed downloads to clear."@
                } else {
                    "🧹 Cleared "@ + crate::text::decimal(n as nat)
                        + " completed download(s) from queue."@
                },
                Err(e) => "❌ Failed to clear queue: "@ + e@,
            },
        ),
    )
}

pub fn show_cleared(outcome: Result<usize, String>) -> (r: Step)
    ensures
        r.deep_view() == cleared_step(outcome),
{
    let text = match outcome {
        Ok(n) => if n == 0 {
            "📭 No completed downloads to clear.".to_owned()
        } else {
            "🧹 Cleared ".to_owned().concat(usize_text(n).as_str()).concat(
                " completed download(s) from queue.",
            )
        },
        Err(e) => "❌ Failed to clear queue: ".to_owned().concat(e.as_str()),
    };
    Step::new().act(send(text.as_str()))
}

// ── The ARL ──────────────────────────────────────────────────────────────────

/// The least number of bytes in an ARL.
pub const MIN_ARL: usize = 100;

/// The step for a message where the dialogue had asked for an ARL.
pub open spec fn arl_step(text: Option<Seq<char>>) -> crate::flow::StepView {
    match text {
        Some(t) => {
            let arl = crate::text::trimmed(t);
            if vstd::utf8::encode_utf8(arl).len() < MIN_ARL {
                crate::flow::idle().act(
                    crate::flow::sent_with(
                        "❌ That ARL looks too short, double check it. Try again:"@,
                        crate::keyboards::arl_cancel_rows(),
                    ),
                )
            } else {
                crate::flow::idle().act(crate::flow::ActionView::ExitDialogue).act(
                    crate::flow::sent("🔄 Validating new ARL..."@),
                ).wait(crate::flow::PendingView::LogIn { arl })
            }
        },
        None => crate::flow::idle().act(crate::flow::sent("Please send the ARL as text."@)),
    }
}

/// Takes an ARL that the dialogue had asked for. One that is too short leaves
/// the dialogue waiting.
pub fn receive_arl(text: &Option<String>) -> (r: Step)
    ensures
        r.deep_view() == arl_step(text.deep_view()),
{
    match text {
        Some(t) => {
            let arl = trim(t.as_str());
            if arl.as_str().as_bytes().len() < MIN_ARL {
                Step::new().act(
                    send_with(
                        "❌ That ARL looks too short, double check it. Try again:",
                        arl_cancel_keyboard(),
                    ),
                )
            } else {
                handle_updatearl(Step::new().act(Action::ExitDialogue), arl)
            }
        },
        None => Step::new().act(send("Please send the ARL as text.")),
    }
}

/// Tries an ARL, after `step`.
fn handle_updatearl(step: Step, arl: String) -> (r: Step)
    ensures
        r.deep_view() == step.deep_view().act(
            crate::flow::sent("🔄 Validating new ARL..."@),
        ).wait(crate::flow::PendingView::LogIn { arl: arl@ }),
{
    step.act(send("🔄 Validating new ARL...")).wait(Pending::LogIn { arl })
}

/// The step once an ARL was tried.
pub open spec fn arl_checked_step(outcome: Result<String, String>) -> crate::flow::StepView {
    crate::flow::idle().act(
        crate::flow::edited(
            match outcome {
                Ok(_)
                    => "✅ ARL updated and logged in! Downloads will use the new ARL immediately."@,
                Err(e) => "❌ ARL rejected by deemix: "@ + e@,
            },
        ),
    )
}

/// Says what came of an ARL. One that deemix takes is used from then on.
pub fn arl_checked(state: &mut BotState, arl: String, outcome: Result<String, String>) -> (r: Step)
    ensures
        r.deep_view() == arl_checked_step(outcome),
        final(state).current_arl == if outcome is Ok {
            arl
        } else {
            old(state).current_arl
        },
        final(state).config == old(state).config,
        final(state).users == old(state).users,
        final(state).pending_voices == old(state).pending_voices,
        final(state).current_bitrate == old(state).current_bitrate,
        final(state).ws_events == old(state).ws_events,
        final(state).queue_initiators == old(state).queue_initiators,
{
    match outcome {
        Ok(_) => {
            state.current_arl = arl;
            Step::new().act(
                edit(
                    "✅ ARL updated and logged in! Downloads will use the new ARL immediately.",
                ),
            )
        },
        Err(e) => Step::new().act(
            edit("❌ ARL rejected by deemix: ".to_owned().concat(e.as_str()).as_str()),
        ),
    }
}

// ── Searches that the dialogue has asked for ─────────────────────────────────

/// The step for a message where the dialogue had asked what to search for.
pub open spec fn asked_search_step(text: Option<Seq<char>>, kind: SearchKind) -> crate::flow::StepView {
    match text {
        Some(query) => crate::flow::after_actions(
            seq![crate::flow::ActionView::ExitDialogue],
            crate::search::search_step(crate::text::trimmed(query), kind),
        ),
        None => crate::flow::idle().act(crate::flow::ActionView::ExitDialogue),
    }
}

fn receive_query(text: &Option<String>, kind: SearchKind) -> (r: Step)
    ensures
        r.deep_view() == asked_search_step(text.deep_view(), kind),
{
    match text {
        Some(query) => do_search(trim(query.as_str()).as_str(), kind).after(Action::ExitDialogue),
        None => Step::new().act(Action::ExitDialogue),
    }
}

pub fn receive_search(text: &Option<String>) -> (r: Step)
    ensures
        r.deep_view() == asked_search_step(text.deep_view(), SearchKind::Track),
{
    receive_query(text, SearchKind::Track)
}

pub fn receive_album(text: &Option<String>) -> (r: Step)
    ensures
        r.deep_view() == asked_search_step(text.deep_view(), SearchKind::Album),
{
    receive_query(text, SearchKind::Album)
}

// ── Messages ─────────────────────────────────────────────────────────────────

/// A message, with what the dialogue in its chat waits for, the command in it,
/// its text and the file of its voice note.
pub struct Incoming {
    pub user_id: i64,
    pub message_id: i32,
    pub dialogue: State,
    pub command: Option<Command>,
    pub text: Option<String>,
    pub voice: Option<String>,
}

/// The id under which the bot knows the sender of a message. Messages without
/// a sender share one.
pub fn user_id_from_msg(from: Option<u64>) -> (r: i64)
    ensures
        r == match from {
            Some(id) => id as i64,
            None => 0,
        },
{
    match from {
        Some(id) => id as i64,
        None => 0,
    }
}

/// The key that a message presses.
pub open spec fn pressed(msg: Incoming) -> Key {
    match msg.text {
        Some(t) => crate::menu::key_of(crate::text::trimmed(t@)),
        None => Key::Other,
    }
}

/// The first link of a message leads to something on Deezer.
pub open spec fn sends_deezer_link(msg: Incoming) -> bool {
    msg.text matches Some(t) && crate::links::link_in(crate::text::trimmed(t@)) matches Some(link)
        && crate::links::is_deezer_link(link)
}

/// The step for a message that is no command, where nothing is awaited.
pub open spec fn message_step(before: BotState, msg: Incoming) -> crate::flow::StepView {
    let s = crate::users::settings_of(before.users@, msg.user_id);
    let config = before.config.deep_view();
    crate::flow::after_actions(
        seq![crate::flow::ActionView::SaveUsers],
        match msg.voice {
            Some(_) => crate::voice::voice_note_step(s, config, msg.message_id),
            None => match msg.text {
                Some(t) => {
                    let text = crate::text::trimmed(t@);
                    if pressed(msg) == Key::Other {
                        crate::links::text_step(text, crate::links::link_in(text))
                    } else {
                        crate::menu::key_step(pressed(msg), s, config, before.current_bitrate)
                    }
                },
                None => crate::flow::idle(),
            },
        },
    )
}

/// What such a message changes: a key as a key does, and a voice note is kept
/// until its user has chosen. A user who was not known is entered.
pub open spec fn message_effect(before: BotState, after: BotState, msg: Incoming) -> bool {
    let s = crate::users::settings_of(before.users@, msg.user_id);
    match msg.voice {
        Some(file_id) => {
            &&& after.users@ == before.users@.insert(crate::users::user_key(msg.user_id), s)
            &&& after.pending_voices.deep_view() == crate::voice::voices_after(
                before.pending_voices.deep_view(),
                s,
                before.config.deep_view(),
                msg.message_id,
                file_id@,
            )
            &&& after.current_bitrate == before.current_bitrate
            &&& crate::config::rest_unchanged(before, after)
        },
        None => crate::menu::key_effect(before, after, msg.user_id, pressed(msg)),
    }
}

/// Handles a message that is no command, where nothing is awaited: a voice
/// note, a key, a link or what to search for. A link to Deezer is never refused.
pub fn handle_message(state: &mut BotState, msg: &Incoming) -> (r: Step)
    ensures
        r.deep_view() == message_step(*old(state), *msg),
        message_effect(*old(state), *final(state), *msg),
        msg.voice is None && pressed(*msg) == Key::Other && sends_deezer_link(*msg)
            ==> r.next is Queue,
{
    let ghost before = *state;
    let settings = get_or_create(&mut state.users, msg.user_id);
    proof {
        crate::users::a_change_is_the_users_own(
            before.users@,
            msg.user_id,
            settings,
            msg.user_id,
        );
    }
    let ghost entered = state.users@;
    let ghost id = crate::users::user_key(msg.user_id);
    let step = match &msg.voice {
        Some(file_id) => handle_voice_message(state, msg.user_id, msg.message_id, file_id.as_str()),
        None => match &msg.text {
            Some(t) => {
                let text = trim(t.as_str());
                match read_key(text.as_str()) {
                    Key::Other => take_text(text.as_str(), &extract_link(text.as_str())),
                    key => press_key(state, msg.user_id, key),
                }
            },
            None => Step::new(),
        },
    };
    assert(forall|new: UserSettings| #[trigger]
        entered.insert(id, new) =~= before.users@.insert(id, new));
    step.after(Action::SaveUsers)
}

/// What is said to users who are not let in because nobody is.
pub const NOBODY_LET_IN: &'static str =
    "⚠️ The user list is empty.\nAdd users to the whitelist or disable the user filtering feature.";

/// The step for a message of a user who is not let in.
pub open spec fn unauthorized_step(config: crate::config::ConfigView) -> crate::flow::StepView {
    if config.is_whitelist_empty() {
        crate::flow::idle().act(crate::flow::sent(NOBODY_LET_IN@))
    } else {
        crate::flow::idle()
    }
}

pub fn handle_unauthorized_message(config: &Config) -> (r: Step)
    ensures
        r.deep_view() == unauthorized_step(config.deep_view()),
{
    if config.is_whitelist_empty() {
        Step::new().act(send(NOBODY_LET_IN))
    } else {
        Step::new()
    }
}

/// The step for a message: users who are not let in come first, then what the
/// dialogue waits for, then commands, then everything else.
pub open spec fn incoming_step(before: BotState, msg: Incoming) -> crate::flow::StepView {
    let config = before.config.deep_view();
    if !config.is_user_allowed(msg.user_id) {
        unauthorized_step(config)
    } else {
        match msg.dialogue {
            State::AwaitingArl => arl_step(msg.text.deep_view()),
            State::AwaitingSearch => asked_search_step(msg.text.deep_view(), SearchKind::Track),
            State::AwaitingAlbum => asked_search_step(msg.text.deep_view(), SearchKind::Album),
            State::AwaitingVoiceTranscribe => crate::voice::awaited_step(
                VoiceTask::Transcribe,
                msg.voice.deep_view(),
            ),
            State::AwaitingVoiceRecognize => crate::voice::awaited_step(
                VoiceTask::Recognize,
                msg.voice.deep_view(),
            ),
            State::Idle => match msg.command {
                Some(cmd) => crate::menu::command_step(
                    cmd,
                    crate::users::settings_of(before.users@, msg.user_id),
                    config,
                    before.current_bitrate,
                ),
                None => message_step(before, msg),
            },
        }
    }
}

/// What a message changes. Users who are not let in, and answers in a dialogue,
/// change nothing.
pub open spec fn incoming_effect(before: BotState, after: BotState, msg: Incoming) -> bool {
    if !before.config.deep_view().is_user_allowed(msg.user_id) || msg.dialogue != State::Idle {
        after == before
    } else if msg.command is Some {
        crate::menu::key_effect(before, after, msg.user_id, Key::Other)
    } else {
        message_effect(before, after, msg)
    }
}

/// Handles a message.
pub fn on_message(state: &mut BotState, msg: &Incoming) -> (r: Step)
    ensures
        r.deep_view() == incoming_step(*old(state), *msg),
        incoming_effect(*old(state), *final(state), *msg),
{
    if !state.config.is_user_allowed(msg.user_id) {
        return handle_unauthorized_message(&state.config);
    }
    match msg.dialogue {
        State::AwaitingArl => receive_arl(&msg.text),
        State::AwaitingSearch => receive_search(&msg.text),
        State::AwaitingAlbum => receive_album(&msg.text),
        State::AwaitingVoiceTranscribe => receive_voice_transcribe(&msg.voice),
        State::AwaitingVoiceRecognize => receive_voice_recognize(&msg.voice),
        State::Idle => match msg.command {
            Some(cmd) => handle_command(state, msg.user_id, cmd),
            None => handle_message(state, msg),
        },
    }
}

/// What the dialogue waits for while a voice note is asked for.
pub open spec fn awaited_for(task: VoiceTask) -> State {
    match task {
        VoiceTask::Transcribe => State::AwaitingVoiceTranscribe,
        VoiceTask::Recognize => State::AwaitingVoiceRecognize,
    }
}

/// The step once the time for a voice note is up. `now` is what the dialogue
/// waits for then, where that could be told.
pub open spec fn timeout_step(task: VoiceTask, now: Option<State>) -> crate::flow::StepView {
    if now == Some(awaited_for(task)) {
        crate::flow::idle().act(crate::flow::ActionView::ExitDialogue).act(
            crate::flow::ActionView::TrySend {
                text: match task {
                    VoiceTask::Transcribe
                        => "⏱ Voice search timed out. Send a voice note or use /menu to start again."@,
                    VoiceTask::Recognize
                        => "⏱ Song recognition timed out. Send a voice note or use /menu to start again."@,
                },
            },
        )
    } else {
        crate::flow::idle()
    }
}

/// Gives up on a voice note, unless the dialogue has moved on.
pub fn voice_timed_out(task: VoiceTask, now: Option<State>) -> (r: Step)
    ensures
        r.deep_view() == timeout_step(task, now),
{
    let (awaited, text) = match task {
        VoiceTask::Transcribe => (
            State::AwaitingVoiceTranscribe,
            "⏱ Voice search timed out. Send a voice note or use /menu to start again.",
        ),
        VoiceTask::Recognize => (
            State::AwaitingVoiceRecognize,
            "⏱ Song recognition timed out. Send a voice note or use /menu to start again.",
        ),
    };
    match now {
        Some(state) => if state == awaited {
            Step::new().act(Action::ExitDialogue).act(Action::TrySend { text: text.to_owned() })
        } else {
            Step::new()
        },
        None => Step::new(),
    }
}

// ── Taps on buttons ──────────────────────────────────────────────────────────

/// What the result behind a button is called, given the kind in its link.
pub open spec fn tapped_kind(kind: Option<Seq<char>>) -> Seq<char> {
    match kind {
        Some(k) => crate::text::capitalized(k),
        None => "Item"@,
    }
}

/// The step that queues the result behind a button.
pub open spec fn tapped_step(url: Seq<char>, kind: Option<Seq<char>>) -> crate::flow::StepView {
    crate::flow::idle().act(
        crate::flow::edited(
            "⏳ Queuing "@ + crate::text::lowercased(tapped_kind(kind)) + "..."@,
        ),
    ).wait(
        crate::flow::PendingView::Queue {
            url,
            after: crate::flow::AfterQueueView::Tapped { kind: tapped_kind(kind) },
        },
    )
}

/// Every character is a lower-case ASCII letter.
pub open spec fn is_in_small_letters(s: Seq<char>) -> bool {
    forall|i: int| 0 <= i < s.len() ==> 'a' <= #[trigger] s[i] <= 'z'
}

/// Queues the result behind a button, given the kind in its link.
pub fn queue_tapped(url: &str, kind: &Option<String>) -> (r: Step)
    ensures
        r.deep_view() == tapped_step(url@, kind.deep_view()),
        kind.deep_view() matches Some(k) ==> is_in_small_letters(k) ==> r.deep_view()
            == crate::flow::idle().act(
            crate::flow::edited("⏳ Queuing "@ + k + "..."@),
        ).wait(
            (crate::flow::PendingView::Queue {
                url: url@,
                after: crate::flow::AfterQueueView::Tapped {
                    kind: crate::text::ascii_capitalized(k),
                },
            }),
        ),
        kind is None ==> r.deep_view().actions == seq![
            crate::flow::edited("⏳ Queuing "@ + "item"@ + "..."@),
        ],
{
    let ghost given = kind.deep_view();
    let kind = match kind {
        Some(k) => capitalize(k.as_str()),
        None => "Item".to_owned(),
    };
    proof {
        match given {
            Some(k) => if is_in_small_letters(k) {
                assert(kind@ == crate::text::ascii_capitalized(k));
                assert(vstd::utf8::is_ascii_chars(kind@));
                assert(crate::text::ascii_lowered(kind@) =~= k);
            },
            None => {
                reveal_strlit("Item");
                reveal_strlit("item");
                assert(vstd::utf8::is_ascii_chars(kind@));
                assert(crate::text::ascii_lowered(kind@) =~= "item"@);
            },
        }
    }
    let text = "⏳ Queuing ".to_owned().concat(lowercase(kind.as_str()).as_str()).concat("...");
    Step::new().act(edit(text.as_str())).wait(
        Pending::Queue { url: url.to_owned(), after: AfterQueue::Tapped { kind } },
    )
}

/// The step for a tap on a button with this data. A tap whose message is gone
/// is only confirmed.
pub open spec fn tap_step(
    voices: Map<Seq<char>, Seq<char>>,
    data: Option<Seq<char>>,
    has_message: bool,
) -> crate::flow::StepView {
    let confirmed = crate::flow::ActionView::AnswerCallback { notice: None };
    let step = match data {
        Some(d) => if !has_message {
            crate::flow::idle()
        } else if d == "cancel"@ {
            crate::flow::idle().act(crate::flow::edited("Cancelled."@))
        } else if d == "cancel_arl"@ {
            crate::flow::idle().act(crate::flow::ActionView::ExitDialogue).act(
                crate::flow::edited("❌ ARL update cancelled."@),
            )
        } else if crate::text::has_prefix(d, "dl:"@) {
            tapped_step(
                d.skip(3),
                crate::pattern::group_of(
                    crate::pattern::regex_captures(crate::links::DEEZER_URL_RE@, d.skip(3)),
                    1,
                ),
            )
        } else if crate::voice::is_voice_data(d) {
            crate::voice::voice_tap_step(voices, d)
        } else {
            crate::flow::idle()
        },
        None => crate::flow::idle(),
    };
    crate::flow::after_actions(seq![confirmed], step)
}

/// Handles a tap on a button.
pub fn handle_callback(state: &BotState, data: &Option<String>, has_message: bool) -> (r: Step)
    ensures
        r.deep_view() == tap_step(
            state.pending_voices.deep_view(),
            data.deep_view(),
            has_message,
        ),
{
    proof {
        reveal_strlit("dl:");
    }
    let step = match data {
        Some(d) => if !has_message {
            Step::new()
        } else if same(d.as_str(), "cancel") {
            Step::new().act(edit("Cancelled."))
        } else if same(d.as_str(), "cancel_arl") {
            Step::new().act(Action::ExitDialogue).act(edit("❌ ARL update cancelled."))
        } else {
            match strip_prefix(d.as_str(), "dl:") {
                Some(url) => queue_tapped(
                    url.as_str(),
                    &Groups::of(DEEZER_URL_RE, url.as_str()).get(1),
                ),
                None => handle_voice_callback(state, d.as_str(), has_message),
            }
        },
        None => Step::new(),
    };
    step.after(Action::AnswerCallback { notice: None })
}

/// The step for a tap by a user who is not let in.
pub open spec fn unauthorized_tap_step(config: crate::config::ConfigView) -> crate::flow::StepView {
    if config.is_whitelist_empty() {
        crate::flow::idle().act(
            crate::flow::ActionView::AnswerCallback { notice: Some(NOBODY_LET_IN@) },
        )
    } else {
        crate::flow::idle()
    }
}

pub fn handle_unauthorized_callback(config: &Config) -> (r: Step)
    ensures
        r.deep_view() == unauthorized_tap_step(config.deep_view()),
{
    if config.is_whitelist_empty() {
        Step::new().act(Action::AnswerCallback { notice: Some(NOBODY_LET_IN.to_owned()) })
    } else {
        Step::new()
    }
}

/// Handles a tap, of whatever user.
pub fn on_callback(
    state: &BotState,
    user_id: i64,
    data: &Option<String>,
    has_message: bool,
) -> (r: Step)
    ensures
        r.deep_view() == if state.config.deep_view().is_user_allowed(user_id) {
            tap_step(state.pending_voices.deep_view(), data.deep_view(), has_message)
        } else {
            unauthorized_tap_step(state.config.deep_view())
        },
{
    if state.config.is_user_allowed(user_id) {
        handle_callback(state, data, has_message)
    } else {
        handle_unauthorized_callback(&state.config)
    }
}

// ── Replies ──────────────────────────────────────────────────────────────────

/// The step once a search was made.
pub open spec fn search_reply_step(
    after: crate::flow::AfterSearchView,
    results: Result<Seq<crate::json::JsonView>, Seq<char>>,
) -> crate::flow::StepView {
    match after {
        crate::flow::AfterSearchView::List { query, kind } => crate::search::search_shown(
            query,
            kind,
            results,
        ),
        crate::flow::AfterSearchView::Heard { text } => crate::voice::heard_step(text, results),
        crate::flow::AfterSearchView::Recognized {
            song,
            query,
        } => crate::voice::song_searched_step(song, query, results),
        crate::flow::AfterSearchView::RecognizedTitle { song, query } => crate::voice::song_shown(
            song,
            crate::voice::normal_url(crate::voice::search_page(query)),
            match results {
                Ok(found) => found,
                Err(_) => Seq::empty(),
            },
        ),
        crate::flow::AfterSearchView::Linked { url, meta, kind } => crate::streaming::linked_step(
            url,
            meta,
            kind,
            results,
        ),
        crate::flow::AfterSearchView::Playlist {
            run,
            by_title,
        } => crate::streaming::track_searched_step(run, by_title, results),
    }
}

/// Goes on after a search.
pub fn searched(after: AfterSearch, results: Result<Vec<Json>, String>) -> (r: Step)
    ensures
        r.deep_view() == search_reply_step(after.deep_view(), crate::flow::result_view(results)),
{
    match after {
        AfterSearch::List { query, kind } => show_search(query.as_str(), kind, results),
        AfterSearch::Heard { text } => heard_searched(text.as_str(), results),
        AfterSearch::Recognized { song, query } => song_searched(song, query, results),
        AfterSearch::RecognizedTitle { song, query } => title_searched(
            &song,
            query.as_str(),
            results,
        ),
        AfterSearch::Linked { url, meta, kind } => link_searched(url, meta, kind, results),
        AfterSearch::Playlist { run, by_title } => run.track_searched(by_title, results),
    }
}

/// The step once something was queued or refused.
pub open spec fn queue_reply_step(
    after: crate::flow::AfterQueueView,
    outcome: Result<Seq<crate::json::JsonView>, Seq<char>>,
) -> crate::flow::StepView {
    match after {
        crate::flow::AfterQueueView::Tapped { kind } => crate::flow::idle().act(
            crate::flow::edited(
                match outcome {
                    Ok(_) => "✅ "@ + kind + " added to queue!"@,
                    Err(e) => "❌ Failed: "@ + e,
                },
            ),
        ),
        crate::flow::AfterQueueView::Linked { label } => crate::streaming::queued_step(
            label,
            outcome,
        ),
        crate::flow::AfterQueueView::Playlist { run } => crate::streaming::run_step(
            crate::streaming::run_after(run, outcome is Ok),
        ),
    }
}

/// Goes on after something was queued or refused.
pub fn queued(after: AfterQueue, outcome: Result<Vec<Json>, String>) -> (r: Step)
    ensures
        r.deep_view() == queue_reply_step(after.deep_view(), crate::flow::result_view(outcome)),
{
    match after {
        AfterQueue::Tapped { kind } => {
            let text = match outcome {
                Ok(_) => "✅ ".to_owned().concat(kind.as_str()).concat(" added to queue!"),
                Err(e) => "❌ Failed: ".to_owned().concat(e.as_str()),
            };
            Step::new().act(edit(text.as_str()))
        },
        AfterQueue::Linked { label } => link_queued(label.as_str(), outcome),
        AfterQueue::Playlist { run } => run.track_queued(outcome),
    }
}

/// The step once Spotify has answered.
pub open spec fn spotify_reply_step(
    after: crate::flow::AfterSpotifyView,
    meta: Option<crate::spotify::MetaView>,
) -> crate::flow::StepView {
    match after {
        crate::flow::AfterSpotifyView::Link { url, kind } => crate::streaming::resolved_step(
            url,
            kind,
            meta,
        ),
        crate::flow::AfterSpotifyView::Recognized { song } => crate::voice::song_search_step(
            Seq::empty(),
            song,
            match meta {
                Some(m) => m.query,
                None => crate::voice::song_query_of(song),
            },
        ),
    }
}

/// Goes on after Spotify has answered.
pub fn spotify_answered(after: AfterSpotify, meta: Option<SpotifyMeta>) -> (r: Step)
    ensures
        r.deep_view() == spotify_reply_step(after.deep_view(), meta.deep_view()),
{
    match after {
        AfterSpotify::Link { url, kind } => link_resolved(url, kind, meta),
        AfterSpotify::Recognized { song } => song_resolved(song, meta),
    }
}

// ── What holds of each message, tap and reply ────────────────────────────────

/// The parts of the status: what it starts with, a line for each count, and what
/// it says of an empty queue.
proof fn lemma_status_parts(q: QueueStatus, by_command: bool)
    ensures
        ({
            let d = count_line("⬇️ Downloading: "@, q.downloading, "\n"@);
            let p = count_line("⏳ Pending: "@, q.pending, "\n"@);
            let f = count_line("❌ Failed: "@, q.failed, "\n"@);
            let c = count_line(
                if by_command {
                    "✅ Completed (in queue): "@
                } else {
                    "✅ Completed: "@
                },
                q.done,
                Seq::empty(),
            );
            let e = if q.downloading == 0 && q.pending == 0 && q.done == 0 && q.failed == 0 {
                "📭 Queue is empty"@
            } else {
                Seq::empty()
            };
            status_text(q, by_command) == "✅ Deemix is reachable\n"@ + d + p + f + c + e
        }),
{
}

proof fn lemma_five_parts(
    a: Seq<char>,
    b: Seq<char>,
    c: Seq<char>,
    d: Seq<char>,
    e: Seq<char>,
    f: Seq<char>,
)
    ensures
        ({
            let all = a + b + c + d + e + f;
            &&& crate::text::has_prefix(all, a)
            &&& crate::text::occurs_in(all, b)
            &&& crate::text::occurs_in(all, c)
            &&& crate::text::occurs_in(all, d)
            &&& f.len() == 0 ==> crate::text::has_suffix(all, e)
        }),
{
    let all = a + b + c + d + e + f;
    assert(all.subrange(0, a.len() as int) =~= a);
    assert(all =~= a + b + (c + d + e + f));
    crate::text::parts_are_found_anywhere(a, b, c + d + e + f, all);
    assert(all =~= (a + b) + c + (d + e + f));
    crate::text::parts_are_found_anywhere(a + b, c, d + e + f, all);
    assert(all =~= (a + b + c) + d + (e + f));
    crate::text::parts_are_found_anywhere(a + b + c, d, e + f, all);
    if f.len() == 0 {
        assert(all =~= (a + b + c + d) + e);
        crate::text::ends_are_found(a + b + c + d, e);
    }
}

/// The status names each count that is not zero, with its number.
pub proof fn the_status_names_every_count(q: QueueStatus, by_command: bool)
    ensures
        ({
            let text = status_text(q, by_command);
            &&& crate::text::has_prefix(text, "✅ Deemix is reachable\n"@)
            &&& q.downloading > 0 ==> crate::text::occurs_in(
                text,
                "⬇️ Downloading: "@ + crate::text::decimal(q.downloading as nat) + "\n"@,
            )
            &&& q.pending > 0 ==> crate::text::occurs_in(
                text,
                "⏳ Pending: "@ + crate::text::decimal(q.pending as nat) + "\n"@,
            )
            &&& q.failed > 0 ==> crate::text::occurs_in(
                text,
                "❌ Failed: "@ + crate::text::decimal(q.failed as nat) + "\n"@,
            )
            &&& q.done > 0 && by_command ==> crate::text::has_suffix(
                text,
                "✅ Completed (in queue): "@ + crate::text::decimal(q.done as nat),
            )
            &&& q.done > 0 && !by_command ==> crate::text::has_suffix(
                text,
                "✅ Completed: "@ + crate::text::decimal(q.done as nat),
            )
        }),
{
    let d = count_line("⬇️ Downloading: "@, q.downloading, "\n"@);
    let p = count_line("⏳ Pending: "@, q.pending, "\n"@);
    let f = count_line("❌ Failed: "@, q.failed, "\n"@);
    let name = if by_command {
        "✅ Completed (in queue): "@
    } else {
        "✅ Completed: "@
    };
    let c = count_line(name, q.done, Seq::empty());
    let e = if q.downloading == 0 && q.pending == 0 && q.done == 0 && q.failed == 0 {
        "📭 Queue is empty"@
    } else {
        Seq::empty()
    };
    lemma_status_parts(q, by_command);
    lemma_five_parts("✅ Deemix is reachable\n"@, d, p, f, c, e);
    if q.done > 0 {
        assert(c =~= name + crate::text::decimal(q.done as nat));
    }
}

/// A count that is zero is not named, and an empty queue is said to be empty.
pub proof fn the_status_passes_over_zeros(q: QueueStatus, by_command: bool)
    requires
        q.downloading == 0 && q.pending == 0 && q.failed == 0,
    ensures
        q.done == 0 ==> status_text(q, by_command) == "✅ Deemix is reachable\n"@
            + "📭 Queue is empty"@,
        q.done > 0 && by_command ==> status_text(q, by_command) == "✅ Deemix is reachable\n"@ + (
        "✅ Completed (in queue): "@ + crate::text::decimal(q.done as nat)),
        q.done > 0 && !by_command ==> status_text(q, by_command) == "✅ Deemix is reachable\n"@ + (
        "✅ Completed: "@ + crate::text::decimal(q.done as nat)),
{
    let head = "✅ Deemix is reachable\n"@;
    let none = Seq::<char>::empty();
    lemma_status_parts(q, by_command);
    let text = status_text(q, by_command);
    if q.done == 0 {
        assert(text == head + none + none + none + none + "📭 Queue is empty"@);
        assert(text =~= head + "📭 Queue is empty"@);
    } else {
        let name = if by_command {
            "✅ Completed (in queue): "@
        } else {
            "✅ Completed: "@
        };
        let line = name + crate::text::decimal(q.done as nat);
        assert(count_line(name, q.done, none) =~= line);
        assert(text == head + none + none + none + line + none);
        assert(text =~= head + line);
    }
}

/// What was counted, or what kept it from being counted, is what is said.
pub proof fn the_status_is_sent(q: QueueStatus, by_command: bool, e: String)
    ensures
        status_step(by_command, Ok(q)).actions == seq![
            crate::flow::ActionView::Send {
                text: status_text(q, by_command),
                markup: crate::flow::MarkupView::Plain,
            },
        ],
        status_step(by_command, Err(e)).actions == seq![
            crate::flow::ActionView::Send {
                text: "❌ Can't reach deemix: "@ + e@,
                markup: crate::flow::MarkupView::Plain,
            },
        ],
{
    assert(status_step(by_command, Ok(q)).actions =~= seq![
        crate::flow::ActionView::Send {
            text: status_text(q, by_command),
            markup: crate::flow::MarkupView::Plain,
        },
    ]);
    assert(status_step(by_command, Err(e)).actions =~= seq![
        crate::flow::ActionView::Send {
            text: "❌ Can't reach deemix: "@ + e@,
            markup: crate::flow::MarkupView::Plain,
        },
    ]);
}

/// The number of items that are gone is said, and that there were none where
/// there were none.
pub proof fn the_clearing_is_reported(n: usize, e: String)
    ensures
        cleared_step(Ok(n)).actions == seq![
            crate::flow::ActionView::Send {
                text: if n > 0 {
                    "🧹 Cleared "@ + crate::text::decimal(n as nat)
                        + " completed download(s) from queue."@
                } else {
                    "📭 No completed downloads to clear."@
                },
                markup: crate::flow::MarkupView::Plain,
            },
        ],
        cleared_step(Err(e)).actions == seq![
            crate::flow::ActionView::Send {
                text: "❌ Failed to clear queue: "@ + e@,
                markup: crate::flow::MarkupView::Plain,
            },
        ],
{
    assert(cleared_step(Err(e)).actions =~= seq![
        crate::flow::ActionView::Send {
            text: "❌ Failed to clear queue: "@ + e@,
            markup: crate::flow::MarkupView::Plain,
        },
    ]);
    assert(cleared_step(Ok(n)).actions =~= seq![
        crate::flow::ActionView::Send {
            text: if n > 0 {
                "🧹 Cleared "@ + crate::text::decimal(n as nat)
                    + " completed download(s) from queue."@
            } else {
                "📭 No completed downloads to clear."@
            },
            markup: crate::flow::MarkupView::Plain,
        },
    ]);
}

/// An ARL of a hundred bytes or more is tried, without the space around it; a
/// shorter one is not, and the dialogue goes on waiting for one.
pub proof fn a_long_enough_arl_is_tried(before: Seq<char>, arl: Seq<char>, behind: Seq<char>)
    requires
        crate::text::is_all_white(before),
        crate::text::is_all_white(behind),
        crate::text::has_no_outer_space(arl),
    ensures
        ({
            let step = arl_step(Some(before + arl + behind));
            &&& vstd::utf8::encode_utf8(arl).len() >= 100 ==> step.next == (
            crate::flow::PendingView::LogIn { arl }) && step.actions[0] is ExitDialogue
            &&& vstd::utf8::encode_utf8(arl).len() < 100 ==> step.next
                == crate::flow::PendingView::Done && step.actions.len() == 1
                && !(step.actions[0] is ExitDialogue)
        }),
        arl_step(None).next == crate::flow::PendingView::Done,
        arl_step(None).actions.len() == 1,
        !(arl_step(None).actions[0] is ExitDialogue),
{
    crate::text::trimming_takes_the_outer_space(before, arl, behind);
}

/// What a user was asked for is searched for, without the space around it, as
/// what was asked for.
pub proof fn what_was_asked_for_is_searched_for(
    before: Seq<char>,
    query: Seq<char>,
    behind: Seq<char>,
    kind: SearchKind,
)
    requires
        crate::text::is_all_white(before),
        crate::text::is_all_white(behind),
        crate::text::has_no_outer_space(query),
    ensures
        asked_search_step(Some(before + query + behind), kind).next == (
        crate::flow::PendingView::Search {
            query,
            kind,
            after: crate::flow::AfterSearchView::List { query, kind },
        }),
        asked_search_step(Some(before + query + behind), kind).actions[0] is ExitDialogue,
        asked_search_step(None, kind).next == crate::flow::PendingView::Done,
        asked_search_step(None, kind).actions[0] is ExitDialogue,
{
    crate::text::trimming_takes_the_outer_space(before, query, behind);
}

/// What the dialogue waits for decides how a message is taken.
pub proof fn the_dialogue_decides(before: BotState, msg: Incoming)
    requires
        before.config.deep_view().is_user_allowed(msg.user_id),
    ensures
        msg.dialogue == State::AwaitingArl ==> incoming_step(before, msg) == arl_step(
            msg.text.deep_view(),
        ),
        msg.dialogue == State::AwaitingSearch ==> incoming_step(before, msg) == asked_search_step(
            msg.text.deep_view(),
            SearchKind::Track,
        ),
        msg.dialogue == State::AwaitingAlbum ==> incoming_step(before, msg) == asked_search_step(
            msg.text.deep_view(),
            SearchKind::Album,
        ),
        msg.dialogue == State::AwaitingVoiceTranscribe && msg.voice is Some ==> incoming_step(
            before,
            msg,
        ).next == (crate::flow::PendingView::FetchVoice {
            file_id: msg.voice->0@,
            task: VoiceTask::Transcribe,
            origin: crate::flow::VoiceOrigin::Dialogue,
        }),
        msg.dialogue == State::AwaitingVoiceRecognize && msg.voice is Some ==> incoming_step(
            before,
            msg,
        ).next == (crate::flow::PendingView::FetchVoice {
            file_id: msg.voice->0@,
            task: VoiceTask::Recognize,
            origin: crate::flow::VoiceOrigin::Dialogue,
        }),
        msg.dialogue == State::Idle && msg.command is None && msg.voice is None && msg.text is None
            ==> incoming_step(before, msg).next == crate::flow::PendingView::Done,
{
}

/// A text that is no key is taken, without the space around it, for a link where
/// it holds one, and else for what to search for.
pub proof fn a_text_is_a_link_or_a_query(
    before: BotState,
    msg: Incoming,
    front: Seq<char>,
    text: Seq<char>,
    behind: Seq<char>,
)
    requires
        before.config.deep_view().is_user_allowed(msg.user_id),
        msg.dialogue == State::Idle,
        msg.command is None,
        msg.voice is None,
        msg.text is Some,
        msg.text->0@ == front + text + behind,
        crate::text::is_all_white(front),
        crate::text::is_all_white(behind),
        crate::text::has_no_outer_space(text),
        crate::menu::key_of(text) == Key::Other,
    ensures
        crate::links::link_in(text) is None ==> incoming_step(before, msg).next == (
        crate::flow::PendingView::Search {
            query: text,
            kind: SearchKind::Track,
            after: crate::flow::AfterSearchView::List { query: text, kind: SearchKind::Track },
        }),
        incoming_step(before, msg).next == crate::links::text_step(
            text,
            crate::links::link_in(text),
        ).next,
        incoming_step(before, msg).actions[0] is SaveUsers,
{
    crate::text::trimming_takes_the_outer_space(front, text, behind);
}

/// A wait for a voice note runs out only where the dialogue still waits for it.
pub proof fn a_timeout_ends_its_own_wait(task: VoiceTask, now: Option<State>)
    ensures
        task == VoiceTask::Transcribe && now == Some(State::AwaitingVoiceTranscribe) || task
            == VoiceTask::Recognize && now == Some(State::AwaitingVoiceRecognize) ==> timeout_step(
            task,
            now,
        ).actions.len() == 2 && timeout_step(task, now).actions[0] is ExitDialogue && timeout_step(
            task,
            now,
        ).actions[1] is TrySend,
        !(task == VoiceTask::Transcribe && now == Some(State::AwaitingVoiceTranscribe) || task
            == VoiceTask::Recognize && now == Some(State::AwaitingVoiceRecognize)) ==> timeout_step(
            task,
            now,
        ).actions.len() == 0,
        timeout_step(task, now).next == crate::flow::PendingView::Done,
{
}

/// A tap is confirmed first. One on a result queues the link that its button
/// carries; without its message, or with data that no button has, it starts
/// nothing.
pub proof fn a_tap_queues_what_its_button_carries(
    voices: Map<Seq<char>, Seq<char>>,
    link: Seq<char>,
    data: Seq<char>,
    has_message: bool,
)
    ensures
        tap_step(voices, Some("dl:"@ + link), true).next matches crate::flow::PendingView::Queue {
            url,
            after,
        } && url == link && after is Tapped,
        tap_step(voices, Some(data), false).next == crate::flow::PendingView::Done,
        tap_step(voices, None, has_message).next == crate::flow::PendingView::Done,
        tap_step(voices, Some(data), has_message).actions[0] is AnswerCallback,
        !crate::text::has_prefix(data, "dl:"@) && !crate::text::has_prefix(data, "vt:"@)
            && !crate::text::has_prefix(data, "vr:"@) ==> tap_step(
            voices,
            Some(data),
            has_message,
        ).next == crate::flow::PendingView::Done,
{
    reveal_strlit("dl:");
    reveal_strlit("cancel");
    reveal_strlit("cancel_arl");
    let carried = "dl:"@ + link;
    assert(carried.subrange(0, 3) =~= "dl:"@);
    assert(carried.skip(3) =~= link);
    assert(carried[0] == 'd');
    assert("cancel"@[0] == 'c');
    assert("cancel_arl"@[0] == 'c');
}

/// What came of queueing is told to the one who asked: a tap and a link are told
/// at once, and a playlist goes on with its next track, with this one counted
/// where it was taken and named where it was not.
pub proof fn queueing_is_answered(
    kind: Seq<char>,
    label: Seq<char>,
    run: crate::streaming::RunView,
    objects: Seq<crate::json::JsonView>,
    e: Seq<char>,
)
    requires
        run.position < run.tracks.len(),
    ensures
        queue_reply_step(crate::flow::AfterQueueView::Tapped { kind }, Ok(objects)).actions == seq![
            crate::flow::ActionView::Edit {
                text: "✅ "@ + kind + " added to queue!"@,
                markup: crate::flow::MarkupView::Plain,
            },
        ],
        queue_reply_step(crate::flow::AfterQueueView::Tapped { kind }, Err(e)).actions == seq![
            crate::flow::ActionView::Edit {
                text: "❌ Failed: "@ + e,
                markup: crate::flow::MarkupView::Plain,
            },
        ],
        queue_reply_step(crate::flow::AfterQueueView::Linked { label }, Ok(objects)).actions
            == seq![
            crate::flow::ActionView::Edit {
                text: "✅ "@ + label + " added to queue!"@,
                markup: crate::flow::MarkupView::Plain,
            },
        ],
        queue_reply_step(crate::flow::AfterQueueView::Linked { label }, Err(e)).actions == seq![
            crate::flow::ActionView::Edit {
                text: "❌ Failed to queue: "@ + e,
                markup: crate::flow::MarkupView::Plain,
            },
        ],
        queue_reply_step(crate::flow::AfterQueueView::Playlist { run }, Ok(objects))
            == crate::streaming::run_step(
            crate::streaming::RunView {
                name: run.name,
                tracks: run.tracks,
                position: run.position + 1,
                queued: run.queued + 1,
                not_found: run.not_found,
            },
        ),
        queue_reply_step(crate::flow::AfterQueueView::Playlist { run }, Err(e))
            == crate::streaming::run_step(
            crate::streaming::RunView {
                name: run.name,
                tracks: run.tracks,
                position: run.position + 1,
                queued: run.queued,
                not_found: run.not_found.push(
                    if run.tracks[run.position as int].artist.len() > 0 {
                        run.tracks[run.position as int].title + " — "@
                            + run.tracks[run.position as int].artist
                    } else {
                        run.tracks[run.position as int].title
                    },
                ),
            },
        ),
{
    assert(queue_reply_step(crate::flow::AfterQueueView::Tapped { kind }, Ok(objects)).actions
        =~= seq![
        crate::flow::ActionView::Edit {
            text: "✅ "@ + kind + " added to queue!"@,
            markup: crate::flow::MarkupView::Plain,
        },
    ]);
    assert(queue_reply_step(crate::flow::AfterQueueView::Tapped { kind }, Err(e)).actions =~= seq![
        crate::flow::ActionView::Edit {
            text: "❌ Failed: "@ + e,
            markup: crate::flow::MarkupView::Plain,
        },
    ]);
    assert(queue_reply_step(crate::flow::AfterQueueView::Linked { label }, Ok(objects)).actions
        =~= seq![
        crate::flow::ActionView::Edit {
            text: "✅ "@ + label + " added to queue!"@,
            markup: crate::flow::MarkupView::Plain,
        },
    ]);
    assert(queue_reply_step(crate::flow::AfterQueueView::Linked { label }, Err(e)).actions
        =~= seq![
        crate::flow::ActionView::Edit {
            text: "❌ Failed to queue: "@ + e,
            markup: crate::flow::MarkupView::Plain,
        },
    ]);
}

/// The results of a search go to the one who asked for them.
pub proof fn results_go_to_who_asked(
    query: Seq<char>,
    kind: SearchKind,
    song: crate::voice::RecognitionView,
    url: Seq<char>,
    meta: crate::spotify::MetaView,
    run: crate::streaming::RunView,
    by_title: bool,
    results: Result<Seq<crate::json::JsonView>, Seq<char>>,
)
    ensures
        search_reply_step(crate::flow::AfterSearchView::List { query, kind }, results)
            == crate::search::search_shown(query, kind, results),
        search_reply_step(crate::flow::AfterSearchView::Heard { text: query }, results)
            == crate::voice::heard_step(query, results),
        search_reply_step(crate::flow::AfterSearchView::Recognized { song, query }, results)
            == crate::voice::song_searched_step(song, query, results),
        search_reply_step(crate::flow::AfterSearchView::Linked { url, meta, kind }, results)
            == crate::streaming::linked_step(url, meta, kind, results),
        search_reply_step(crate::flow::AfterSearchView::Playlist { run, by_title }, results)
            == crate::streaming::track_searched_step(run, by_title, results),
        results matches Ok(found) ==> search_reply_step(
            crate::flow::AfterSearchView::RecognizedTitle { song, query },
            results,
        ) == crate::voice::song_shown(
            song,
            crate::voice::normal_url(crate::voice::search_page(query)),
            found,
        ),
        results is Err ==> search_reply_step(
            crate::flow::AfterSearchView::RecognizedTitle { song, query },
            results,
        ) == crate::voice::song_shown(
            song,
            crate::voice::normal_url(crate::voice::search_page(query)),
            Seq::empty(),
        ),
        spotify_reply_step(crate::flow::AfterSpotifyView::Recognized { song }, Some(meta)).next == (
        crate::flow::PendingView::Search {
            query: meta.query,
            kind: SearchKind::Track,
            after: crate::flow::AfterSearchView::Recognized { song, query: meta.query },
        }),
        spotify_reply_step(crate::flow::AfterSpotifyView::Link { url, kind }, Some(meta)).next == (
        crate::flow::PendingView::Search {
            query: meta.query,
            kind,
            after: crate::flow::AfterSearchView::Linked { url, meta, kind },
        }),
{
}

/// What was said is answered with all the results for it, or with what was said
/// where there are none.
pub proof fn what_was_said_is_answered(
    text: Seq<char>,
    found: Seq<crate::json::JsonView>,
    e: Seq<char>,
)
    ensures
        found.len() > 0 ==> crate::voice::heard_step(text, Ok(found))
            == crate::search::search_shown(text, SearchKind::Track, Ok(found)),
        found.len() == 0 ==> crate::voice::heard_step(text, Ok(found)).actions == seq![
            crate::flow::ActionView::Edit {
                text: "😕 No results for: "@ + text,
                markup: crate::flow::MarkupView::Plain,
            },
        ],
        crate::voice::heard_step(text, Err(e)) == crate::search::search_shown(
            text,
            SearchKind::Track,
            Err(e),
        ),
{
    if found.len() == 0 {
        assert(crate::voice::heard_step(text, Ok(found)).actions =~= seq![
            crate::flow::ActionView::Edit {
                text: "😕 No results for: "@ + text,
                markup: crate::flow::MarkupView::Plain,
            },
        ]);
    }
}

/// A tap that cancels says so and starts nothing.
pub proof fn cancelling_is_confirmed(voices: Map<Seq<char>, Seq<char>>)
    ensures
        tap_step(voices, Some("cancel"@), true).actions == seq![
            crate::flow::ActionView::AnswerCallback { notice: None },
            crate::flow::ActionView::Edit {
                text: "Cancelled."@,
                markup: crate::flow::MarkupView::Plain,
            },
        ],
        tap_step(voices, Some("cancel_arl"@), true).actions == seq![
            crate::flow::ActionView::AnswerCallback { notice: None },
            crate::flow::ActionView::ExitDialogue,
            crate::flow::ActionView::Edit {
                text: "❌ ARL update cancelled."@,
                markup: crate::flow::MarkupView::Plain,
            },
        ],
{
    reveal_strlit("cancel");
    reveal_strlit("cancel_arl");
    assert("cancel"@.len() != "cancel_arl"@.len());
    assert(tap_step(voices, Some("cancel"@), true).actions =~= seq![
        crate::flow::ActionView::AnswerCallback { notice: None },
        crate::flow::ActionView::Edit {
            text: "Cancelled."@,
            markup: crate::flow::MarkupView::Plain,
        },
    ]);
    assert(tap_step(voices, Some("cancel_arl"@), true).actions =~= seq![
        crate::flow::ActionView::AnswerCallback { notice: None },
        crate::flow::ActionView::ExitDialogue,
        crate::flow::ActionView::Edit {
            text: "❌ ARL update cancelled."@,
            markup: crate::flow::MarkupView::Plain,
        },
    ]);
}

/// Those who are not let in are told that nobody is where that is so, and
/// nothing otherwise; their taps as well as their messages.
pub proof fn strangers_are_told_only_of_an_empty_list(config: crate::config::ConfigView)
    ensures
        config.whitelist_enabled && config.whitelist_ids.len() == 0 ==> (unauthorized_step(
            config,
        ).actions.len() == 1 && unauthorized_tap_step(config).actions.len() == 1) && (
        unauthorized_step(config).actions[0] matches crate::flow::ActionView::Send { text, markup }
            && unauthorized_tap_step(config).actions[0] == (
        crate::flow::ActionView::AnswerCallback { notice: Some(text) })),
        !(config.whitelist_enabled && config.whitelist_ids.len() == 0) ==> unauthorized_step(
            config,
        ).actions.len() == 0 && unauthorized_tap_step(config).actions.len() == 0,
        unauthorized_step(config).next == crate::flow::PendingView::Done,
        unauthorized_tap_step(config).next == crate::flow::PendingView::Done,
{
}

/// A new ARL that deemix takes is confirmed, and one that it does not is reported
/// with the reason.
pub proof fn the_arl_is_answered(name: String, e: String)
    ensures
        arl_checked_step(Ok(name)).actions == seq![
            crate::flow::ActionView::Edit {
                text: "✅ ARL updated and logged in! Downloads will use the new ARL immediately."@,
                markup: crate::flow::MarkupView::Plain,
            },
        ],
        arl_checked_step(Err(e)).actions == seq![
            crate::flow::ActionView::Edit {
                text: "❌ ARL rejected by deemix: "@ + e@,
                markup: crate::flow::MarkupView::Plain,
            },
        ],
{
    assert(arl_checked_step(Ok(name)).actions =~= seq![
        crate::flow::ActionView::Edit {
            text: "✅ ARL updated and logged in! Downloads will use the new ARL immediately."@,
            markup: crate::flow::MarkupView::Plain,
        },
    ]);
    assert(arl_checked_step(Err(e)).actions =~= seq![
        crate::flow::ActionView::Edit {
            text: "❌ ARL rejected by deemix: "@ + e@,
            markup: crate::flow::MarkupView::Plain,
        },
    ]);
}

} // verus!
