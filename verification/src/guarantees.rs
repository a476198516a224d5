//! What holds of every update, whatever the user sends and the servers answer.

use vstd::prelude::*;

use crate::bot::Incoming;
use crate::config::{BotState, State};
use crate::menu::Key;

verus! {

// ── Users and taps ───────────────────────────────────────────────────────────

/// A user who is not let in changes nothing and learns nothing, except that
/// the list is empty where it is.
pub proof fn strangers_are_kept_out(before: BotState, after: BotState, msg: Incoming)
    requires
        !before.config.deep_view().is_user_allowed(msg.user_id),
        crate::bot::incoming_effect(before, after, msg),
    ensures
        after == before,
        crate::bot::incoming_step(before, msg).next == crate::flow::PendingView::Done,
        crate::bot::incoming_step(before, msg) == crate::bot::unauthorized_step(before.config.deep_view()),
        !before.config.deep_view().is_whitelist_empty() ==> crate::bot::incoming_step(before, msg)
            == crate::flow::idle(),
{
}

/// A user who writes to the bot while nothing is awaited is known from then on,
/// and the settings of every other user stay as they are.
pub proof fn writing_enters_the_user(
    before: BotState,
    after: BotState,
    msg: Incoming,
    other: i64,
)
    requires
        before.config.deep_view().is_user_allowed(msg.user_id),
        msg.dialogue == State::Idle,
        crate::bot::incoming_effect(before, after, msg),
    ensures
        after.users@.contains_key(crate::users::user_key(msg.user_id)),
        other != msg.user_id ==> crate::users::settings_of(after.users@, other)
            == crate::users::settings_of(before.users@, other),
{
    crate::users::users_have_their_own_entries(msg.user_id, other);
}

/// A tap on the button of a result queues the link of that result.
pub proof fn a_tap_queues_its_result(
    voices: Map<Seq<char>, Seq<char>>,
    results: Seq<crate::json::JsonView>,
    icon: Seq<char>,
    i: int,
)
    requires
        0 <= i < results.len(),
    ensures
        crate::search::result_rows(results, icon)[i][0] matches crate::flow::ButtonView::Callback {
            label,
            data,
        } && crate::bot::tap_step(voices, Some(data), true).next matches crate::flow::PendingView::Queue {
            url,
            after,
        } && url == results[i].field("link"@).str_or(""@),
{
    reveal_strlit("dl:");
    reveal_strlit("cancel");
    reveal_strlit("cancel_arl");
    let link = results[i].field("link"@).str_or(""@);
    let data = "dl:"@ + link;
    assert(data.subrange(0, 3) =~= "dl:"@);
    assert(data.skip(3) =~= link);
    assert(data[0] == 'd');
    assert("cancel"@[0] == 'c');
    assert("cancel_arl"@[0] == 'c');
}

/// Each button under a voice note, but the one that cancels, leads to the file
/// of that note.
pub proof fn a_voice_note_is_found_by_its_buttons(
    before: BotState,
    after: BotState,
    msg: Incoming,
    i: int,
)
    requires
        before.config.deep_view().is_user_allowed(msg.user_id),
        msg.dialogue == State::Idle,
        msg.command is None,
        msg.voice is Some,
        crate::bot::incoming_effect(before, after, msg),
        crate::bot::incoming_step(before, msg).actions.last() matches crate::flow::ActionView::Send {
            text,
            markup: crate::flow::MarkupView::Inline(rows),
        } && 0 <= i < rows.len() - 1,
    ensures
        crate::bot::incoming_step(before, msg).actions.last() matches crate::flow::ActionView::Send {
            text,
            markup: crate::flow::MarkupView::Inline(rows),
        } && rows[i][0] matches crate::flow::ButtonView::Callback { label, data }
            && crate::bot::tap_step(
            after.pending_voices.deep_view(),
            Some(data),
            true,
        ).next matches crate::flow::PendingView::FetchVoice { file_id, task, origin } && file_id
            == msg.voice->0@,
{
    reveal_strlit("vt:");
    reveal_strlit("vr:");
    reveal_strlit("dl:");
    reveal_strlit("cancel");
    reveal_strlit("cancel_arl");
    let s = crate::users::settings_of(before.users@, msg.user_id);
    let config = before.config.deep_view();
    let key = crate::voice::voice_key(msg.message_id);
    let voices = before.pending_voices.deep_view();
    let step = crate::bot::incoming_step(before, msg);
    assert(step.actions.last() == crate::voice::voice_note_step(
        s,
        config,
        msg.message_id,
    ).actions.last());
    crate::voice::a_choice_finds_its_voice_note(voices, msg.message_id, msg.voice->0@);
    let spoken = "vt:"@ + key;
    let sung = "vr:"@ + key;
    assert(spoken[0] == 'v' && sung[0] == 'v');
    assert(spoken.subrange(0, 3) =~= "vt:"@);
    assert(sung.subrange(0, 3) =~= "vr:"@);
    assert("dl:"@[0] == 'd');
    assert("cancel"@[0] == 'c');
    assert("cancel_arl"@[0] == 'c');
}

/// A tap on a cancel button drops what was on offer and starts no work.
pub proof fn cancelling_starts_nothing(voices: Map<Seq<char>, Seq<char>>, has_message: bool)
    ensures
        crate::flow::cancel_row()[0] matches crate::flow::ButtonView::Callback { label, data }
            && crate::bot::tap_step(voices, Some(data), has_message).next == crate::flow::PendingView::Done,
        crate::keyboards::arl_cancel_rows()[0][0] matches crate::flow::ButtonView::Callback {
            label,
            data,
        } && crate::bot::tap_step(voices, Some(data), has_message).next == crate::flow::PendingView::Done,
{
}

// ── Every update comes to an end ─────────────────────────────────────────────

/// How many tracks of a run are still to be dealt with.
pub open spec fn tracks_left(run: crate::streaming::RunView) -> int {
    run.tracks.len() - run.position
}

/// How far the work of a kind is from the end, and how far within the kind.
pub open spec fn distance(p: crate::flow::PendingView) -> (nat, nat) {
    match p {
        crate::flow::PendingView::Done => (0, 0),
        crate::flow::PendingView::Fail { .. } => (0, 0),
        crate::flow::PendingView::Status { .. } => (1, 0),
        crate::flow::PendingView::ClearQueue => (1, 0),
        crate::flow::PendingView::LogIn { .. } => (1, 0),
        crate::flow::PendingView::Queue { after, .. } => match after {
            crate::flow::AfterQueueView::Playlist { run } => (2, (3 * tracks_left(run)) as nat),
            _ => (1, 0),
        },
        crate::flow::PendingView::Search { after, .. } => match after {
            crate::flow::AfterSearchView::Playlist { run, by_title } => (
                2,
                (3 * tracks_left(run) + if by_title {
                    1int
                } else {
                    2
                }) as nat,
            ),
            crate::flow::AfterSearchView::Linked { .. } => (4, 0),
            crate::flow::AfterSearchView::Recognized { .. } => (4, 0),
            _ => (1, 0),
        },
        crate::flow::PendingView::FollowLink { .. } => (2, 0),
        crate::flow::PendingView::Odesli { .. } => (3, 0),
        crate::flow::PendingView::Spotify { .. } => (5, 0),
        crate::flow::PendingView::SpotifyPlaylist { .. } => (5, 0),
        crate::flow::PendingView::YoutubePlaylist { .. } => (5, 0),
        crate::flow::PendingView::Transcribe { .. } => (6, 0),
        crate::flow::PendingView::Recognize { .. } => (6, 0),
        crate::flow::PendingView::FetchVoice { .. } => (7, 0),
    }
}

/// `a` is nearer to the end than `b`.
pub open spec fn nearer(a: (nat, nat), b: (nat, nat)) -> bool {
    a.0 < b.0 || (a.0 == b.0 && a.1 < b.1)
}

/// A run in `p`, if there is one, has a current track.
pub open spec fn runs_on(p: crate::flow::PendingView) -> bool {
    match p {
        crate::flow::PendingView::Queue { after, .. } => match after {
            crate::flow::AfterQueueView::Playlist { run } => tracks_left(run) > 0,
            _ => true,
        },
        crate::flow::PendingView::Search { after, .. } => match after {
            crate::flow::AfterSearchView::Playlist { run, .. } => tracks_left(run) > 0,
            _ => true,
        },
        _ => true,
    }
}

/// `step` follows on `p` for some reply.
pub open spec fn follows(p: crate::flow::PendingView, step: crate::flow::StepView) -> bool {
    match p {
        crate::flow::PendingView::Done => false,
        crate::flow::PendingView::Fail { .. } => false,
        crate::flow::PendingView::Status { asked_by_command } => exists|r|
            step == #[trigger] crate::bot::status_step(asked_by_command, r),
        crate::flow::PendingView::ClearQueue => exists|r| step == #[trigger] crate::bot::cleared_step(r),
        crate::flow::PendingView::LogIn { .. } => exists|r| step == #[trigger] crate::bot::arl_checked_step(r),
        crate::flow::PendingView::Queue { after, .. } => exists|r|
            step == #[trigger] crate::bot::queue_reply_step(after, r),
        crate::flow::PendingView::Search { after, .. } => exists|r|
            step == #[trigger] crate::bot::search_reply_step(after, r),
        crate::flow::PendingView::FollowLink { .. } => exists|r|
            step == #[trigger] crate::links::followed_step(r),
        crate::flow::PendingView::Odesli { after, .. } => exists|r|
            step == #[trigger] crate::streaming::odesli_step(after, r),
        crate::flow::PendingView::Spotify { after, .. } => exists|r|
            step == #[trigger] crate::bot::spotify_reply_step(after, r),
        crate::flow::PendingView::SpotifyPlaylist { .. } => exists|r|
            step == #[trigger] crate::streaming::spotify_playlist_step(r),
        crate::flow::PendingView::YoutubePlaylist { url } => exists|r|
            step == #[trigger] crate::streaming::youtube_step(url, r),
        crate::flow::PendingView::FetchVoice { task, origin, .. } => exists|r|
            step == #[trigger] crate::voice::fetched_step(task, origin, r),
        crate::flow::PendingView::Transcribe { .. } => exists|r|
            step == #[trigger] crate::voice::transcribed_step(r),
        crate::flow::PendingView::Recognize { .. } => exists|r|
            step == #[trigger] crate::voice::recognized_step(r),
    }
}

/// The work that a message or a tap starts is work that comes to an end.
pub proof fn updates_start_with_finite_work(
    before: BotState,
    msg: Incoming,
    voices: Map<Seq<char>, Seq<char>>,
    data: Option<Seq<char>>,
    has_message: bool,
)
    ensures
        runs_on(crate::bot::incoming_step(before, msg).next),
        runs_on(crate::bot::tap_step(voices, data, has_message).next),
{
}

/// Whatever the replies are, each brings the end of an update nearer, so every
/// update is handled in finitely many steps.
pub proof fn every_update_comes_to_an_end(
    p: crate::flow::PendingView,
    step: crate::flow::StepView,
)
    requires
        runs_on(p),
        follows(p, step),
    ensures
        nearer(distance(step.next), distance(p)),
        runs_on(step.next),
{
}

// ── The status message ───────────────────────────────────────────────────────

/// One of these actions sends a message that can be edited later.
pub open spec fn has_sent(actions: Seq<crate::flow::ActionView>) -> bool {
    exists|i: int| 0 <= i < actions.len() && (#[trigger] actions[i]) is Send
}

/// No action edits the status message before there is one; `has_status` tells
/// whether there is one at first.
pub open spec fn edits_what_is_there(
    actions: Seq<crate::flow::ActionView>,
    has_status: bool,
) -> bool {
    forall|i: int|
        0 <= i < actions.len() && ((#[trigger] actions[i]) is Edit || actions[i] is TryEdit)
            ==> has_status || has_sent(actions.take(i))
}

/// What follows on `p` may edit the status message.
pub open spec fn needs_status(p: crate::flow::PendingView) -> bool {
    !(p is Done || p is Fail || p is Status || p is ClearQueue || p is FollowLink)
}

/// A step that edits only what is there, and waits for work that may lead to an
/// edit only with a status message there.
pub open spec fn keeps_status(step: crate::flow::StepView, has_status: bool) -> bool {
    &&& edits_what_is_there(step.actions, has_status)
    &&& needs_status(step.next) ==> has_status || has_sent(step.actions)
}

/// An action before a step that edits nothing keeps what holds of the step.
proof fn lemma_action_before(a: crate::flow::ActionView, step: crate::flow::StepView)
    requires
        !(a is Edit || a is TryEdit),
        keeps_status(step, false),
    ensures
        keeps_status(crate::flow::after_actions(seq![a], step), false),
{
    let old_actions = step.actions;
    let actions = seq![a] + old_actions;
    assert forall|i: int|
        0 <= i < actions.len() && ((#[trigger] actions[i]) is Edit || actions[i]
            is TryEdit) implies has_sent(actions.take(i)) by {
        assert(actions[i] == old_actions[i - 1]);
        let j = choose|j: int|
            0 <= j < old_actions.take(i - 1).len() && (#[trigger] old_actions.take(i - 1)[j])
                is Send;
        assert(actions.take(i)[j + 1] == old_actions[j]);
    }
    if has_sent(old_actions) {
        let j = choose|j: int| 0 <= j < old_actions.len() && (#[trigger] old_actions[j]) is Send;
        assert(actions[j + 1] == old_actions[j]);
    }
}

proof fn lemma_text_keeps_status(text: Seq<char>, link: Option<Seq<char>>)
    ensures
        keeps_status(crate::links::text_step(text, link), false),
{
    let step = crate::links::text_step(text, link);
    if step.actions.len() > 0 {
        assert(step.actions[0] is Send);
        assert forall|i: int|
            0 <= i < step.actions.len() && ((#[trigger] step.actions[i]) is Edit
                || step.actions[i] is TryEdit) implies has_sent(step.actions.take(i)) by {
            assert(step.actions.take(i)[0] is Send);
        }
    }
}

/// When a message arrives, the bot edits no message before it has sent one.
pub proof fn messages_edit_what_is_there(before: BotState, msg: Incoming)
    ensures
        keeps_status(crate::bot::incoming_step(before, msg), false),
{
    let step = crate::bot::incoming_step(before, msg);
    let s = crate::users::settings_of(before.users@, msg.user_id);
    let config = before.config.deep_view();
    if config.is_user_allowed(msg.user_id) {
        match msg.dialogue {
            State::Idle => if msg.command is None {
                let inner = match msg.voice {
                    Some(_) => crate::voice::voice_note_step(s, config, msg.message_id),
                    None => match msg.text {
                        Some(t) => {
                            let text = crate::text::trimmed(t@);
                            if crate::bot::pressed(msg) == Key::Other {
                                crate::links::text_step(text, crate::links::link_in(text))
                            } else {
                                crate::menu::key_step(
                                    crate::bot::pressed(msg),
                                    s,
                                    config,
                                    before.current_bitrate,
                                )
                            }
                        },
                        None => crate::flow::idle(),
                    },
                };
                if msg.voice is None && msg.text is Some && crate::bot::pressed(msg) == Key::Other {
                    let text = crate::text::trimmed(msg.text->0@);
                    lemma_text_keeps_status(text, crate::links::link_in(text));
                }
                lemma_action_before(crate::flow::ActionView::SaveUsers, inner);
            },
            State::AwaitingArl => {
                if needs_status(step.next) {
                    assert(step.actions[1] is Send);
                }
            },
            State::AwaitingSearch | State::AwaitingAlbum => {
                if needs_status(step.next) {
                    assert(step.actions[1] is Send);
                }
            },
            _ => {
                if needs_status(step.next) {
                    assert(step.actions[1] is Send);
                }
            },
        }
    }
}

/// When a button is tapped, the bot edits a message only where the one with the
/// button is still there.
pub proof fn taps_edit_what_is_there(
    voices: Map<Seq<char>, Seq<char>>,
    data: Option<Seq<char>>,
    has_message: bool,
)
    ensures
        keeps_status(crate::bot::tap_step(voices, data, has_message), has_message),
{
}

/// When the result of some work is there, the bot edits a message only where it
/// had one when the work was started.
pub proof fn replies_edit_what_is_there(p: crate::flow::PendingView, step: crate::flow::StepView)
    requires
        follows(p, step),
    ensures
        keeps_status(step, needs_status(p)),
{
    if p is FollowLink && needs_status(step.next) {
        assert(step.actions[0] is Send);
    }
}

} // verus!
