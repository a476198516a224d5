//! The events that a deemix server broadcasts.
//!
//! deemix sends `{"key": "...", "data": {...}}` frames to every listener. Those
//! that report a rejected link or a duplicate are buffered, for confirming a
//! queue request; those that report a failed download are forwarded to the
//! chat that asked for it.

use vstd::arithmetic::power2::{lemma2_to64, lemma_pow2_unfold, pow2};
use vstd::prelude::*;

use std::collections::VecDeque;

use crate::config::{BotState, Config, WsEvent, WsEventKind};
use crate::json::Json;
use crate::table::Table;
use crate::text::replace_once;

verus! {

/// Events of this age, in nanoseconds, are dropped when another arrives.
pub const EVENT_TTL: u64 = 60_000_000_000;

/// The most events that are kept.
pub const EVENT_CAP: usize = 128;

// ── Connecting ───────────────────────────────────────────────────────────────

/// The address at which the server at `deemix_url` broadcasts.
pub open spec fn address_of(deemix_url: Seq<char>) -> Seq<char> {
    crate::text::replaced_once(deemix_url, "http"@, "ws"@) + "/"@
}

pub fn ws_url(config: &Config) -> (r: String)
    ensures
        r@ == address_of(config.deemix_url@),
{
    replace_once(config.deemix_url.as_str(), "http", "ws").concat("/")
}

/// The longest wait before another attempt to connect, in seconds.
pub const MAX_DELAY: u64 = 60;

/// How long to wait before the next attempt to connect.
pub struct Backoff {
    delay: u64,
}

impl View for Backoff {
    type V = nat;

    closed spec fn view(&self) -> nat {
        self.delay as nat
    }
}

/// The wait after a wait of `delay` seconds: twice as long, up to the longest.
pub open spec fn doubled(delay: nat) -> nat {
    if 2 * delay <= MAX_DELAY {
        2 * delay
    } else {
        MAX_DELAY as nat
    }
}

impl Backoff {
    #[verifier::type_invariant]
    spec fn wf(self) -> bool {
        self.delay <= MAX_DELAY
    }

    pub fn new() -> (r: Self)
        ensures
            r@ == 1,
    {
        Backoff { delay: 1 }
    }

    /// A connection was made: the next wait is short again.
    pub fn connected(&mut self)
        ensures
            final(self)@ == 1,
    {
        self.delay = 1;
    }

    /// The seconds to wait now; the next wait is twice as long.
    pub fn wait(&mut self) -> (r: u64)
        ensures
            r == old(self)@,
            r <= MAX_DELAY,
            final(self)@ == doubled(old(self)@),
    {
        proof {
            use_type_invariant(&*self);
        }
        let now: u64 = self.delay;
        self.delay = if now * 2 <= MAX_DELAY {
            now * 2
        } else {
            MAX_DELAY
        };
        now
    }
}

/// The wait after `n` failures in a row.
pub open spec fn wait_after(n: nat) -> nat
    decreases n,
{
    if n == 0 {
        1
    } else {
        doubled(wait_after((n - 1) as nat))
    }
}

/// Waits start at a second, never shrink while connecting fails, and stay at
/// the longest from the seventh on.
pub proof fn waits_grow_to_the_longest(n: nat)
    ensures
        1 <= wait_after(n) <= MAX_DELAY,
        wait_after(n) <= wait_after(n + 1),
        n >= 6 ==> wait_after(n) == MAX_DELAY,
    decreases n,
{
    if n > 0 {
        waits_grow_to_the_longest((n - 1) as nat);
    }
    if n == 6 {
        reveal_with_fuel(wait_after, 7);
    }
}

/// The wait after `n` failures in a row is two to the power of `n` seconds, up to
/// the longest.
pub proof fn waits_are_powers_of_two(n: nat)
    ensures
        wait_after(n) == if pow2(n) <= MAX_DELAY {
            pow2(n)
        } else {
            MAX_DELAY as nat
        },
    decreases n,
{
    if n == 0 {
        lemma2_to64();
    } else {
        waits_are_powers_of_two((n - 1) as nat);
        lemma_pow2_unfold(n);
    }
}

// ── Listening ────────────────────────────────────────────────────────────────

/// What the listener does next. There is always something: it never ends.
pub enum WsAction {
    /// Try to connect.
    Connect { url: String },
    /// Wait for a frame.
    Read,
    /// Wait before the next attempt.
    Sleep { seconds: u64 },
}

pub ghost enum WsActionView {
    Connect { url: Seq<char> },
    Read,
    Sleep { seconds: nat },
}

impl DeepView for WsAction {
    type V = WsActionView;

    open spec fn deep_view(&self) -> WsActionView {
        match *self {
            WsAction::Connect { url } => WsActionView::Connect { url: url@ },
            WsAction::Read => WsActionView::Read,
            WsAction::Sleep { seconds } => WsActionView::Sleep { seconds: seconds as nat },
        }
    }
}

/// What came of an action.
#[derive(Clone, Copy, Debug, PartialEq, Eq, Structural)]
pub enum WsReply {
    /// The attempt led to a connection.
    Connected,
    /// The attempt failed.
    Refused,
    /// A frame was read.
    Frame,
    /// The connection broke or was closed.
    Closed,
    /// The wait is over.
    Slept,
}

/// Keeps a connection to the server.
pub struct Listener {
    url: String,
    backoff: Backoff,
}

pub ghost struct ListenerView {
    /// Where the server broadcasts.
    pub url: Seq<char>,
    /// The seconds of the next wait.
    pub wait: nat,
}

impl View for Listener {
    type V = ListenerView;

    closed spec fn view(&self) -> ListenerView {
        ListenerView { url: self.url@, wait: self.backoff@ }
    }
}

/// The listener after a reply. A connection makes the next wait short again, and
/// each wait makes it longer.
pub open spec fn listened(l: ListenerView, reply: WsReply) -> ListenerView {
    match reply {
        WsReply::Connected => ListenerView { wait: 1, ..l },
        WsReply::Refused | WsReply::Closed => ListenerView { wait: doubled(l.wait), ..l },
        WsReply::Frame | WsReply::Slept => l,
    }
}

/// What a listener does about a reply.
pub open spec fn action_on(l: ListenerView, reply: WsReply) -> WsActionView {
    match reply {
        WsReply::Connected | WsReply::Frame => WsActionView::Read,
        WsReply::Refused | WsReply::Closed => WsActionView::Sleep { seconds: l.wait },
        WsReply::Slept => WsActionView::Connect { url: l.url },
    }
}

impl Listener {
    /// A listener, and its first attempt.
    pub fn start(config: &Config) -> (r: (Listener, WsAction))
        ensures
            r.0@ == (ListenerView { url: address_of(config.deemix_url@), wait: 1 }),
            r.1.deep_view() == (WsActionView::Connect { url: address_of(config.deemix_url@) }),
    {
        let url = ws_url(config);
        let action = WsAction::Connect { url: url.clone() };
        (Listener { url, backoff: Backoff::new() }, action)
    }

    /// Takes in what came of the last action; says what to do next.
    pub fn next(&mut self, reply: WsReply) -> (r: WsAction)
        ensures
            r.deep_view() == action_on(old(self)@, reply),
            final(self)@ == listened(old(self)@, reply),
    {
        match reply {
            WsReply::Connected => {
                self.backoff.connected();
                WsAction::Read
            },
            WsReply::Frame => WsAction::Read,
            WsReply::Refused | WsReply::Closed => WsAction::Sleep { seconds: self.backoff.wait() },
            WsReply::Slept => WsAction::Connect { url: self.url.clone() },
        }
    }
}

/// The listener at `url` after these replies.
pub open spec fn after_replies(url: Seq<char>, replies: Seq<WsReply>) -> ListenerView
    decreases replies.len(),
{
    if replies.len() == 0 {
        ListenerView { url, wait: 1 }
    } else {
        listened(after_replies(url, replies.drop_last()), replies.last())
    }
}

/// What the listener at `url` does after these replies.
pub open spec fn action_after(url: Seq<char>, replies: Seq<WsReply>) -> WsActionView {
    if replies.len() == 0 {
        WsActionView::Connect { url }
    } else {
        action_on(after_replies(url, replies.drop_last()), replies.last())
    }
}

/// A reply that can come of an action.
pub open spec fn is_reply_to(action: WsActionView, reply: WsReply) -> bool {
    match action {
        WsActionView::Connect { .. } => reply == WsReply::Connected || reply == WsReply::Refused,
        WsActionView::Read => reply == WsReply::Frame || reply == WsReply::Closed,
        WsActionView::Sleep { .. } => reply == WsReply::Slept,
    }
}

/// Each reply came of the action before it.
pub open spec fn is_history(url: Seq<char>, replies: Seq<WsReply>) -> bool {
    forall|i: int|
        0 <= i < replies.len() ==> is_reply_to(
            #[trigger] action_after(url, replies.take(i)),
            replies[i],
        )
}

/// The waits since the start or the last connection.
pub open spec fn waits_in_a_row(replies: Seq<WsReply>) -> nat
    decreases replies.len(),
{
    if replies.len() == 0 || replies.last() == WsReply::Connected {
        0
    } else if replies.last() == WsReply::Refused || replies.last() == WsReply::Closed {
        waits_in_a_row(replies.drop_last()) + 1
    } else {
        waits_in_a_row(replies.drop_last())
    }
}

/// How many attempts to connect there were, the first one counted.
pub open spec fn attempts(url: Seq<char>, replies: Seq<WsReply>) -> nat
    decreases replies.len(),
{
    let before = if replies.len() == 0 {
        0
    } else {
        attempts(url, replies.drop_last())
    };
    if action_after(url, replies) is Connect {
        before + 1
    } else {
        before
    }
}

/// How many waits there were.
pub open spec fn waits(url: Seq<char>, replies: Seq<WsReply>) -> nat
    decreases replies.len(),
{
    let before = if replies.len() == 0 {
        0
    } else {
        waits(url, replies.drop_last())
    };
    if action_after(url, replies) is Sleep {
        before + 1
    } else {
        before
    }
}

proof fn lemma_after_replies(url: Seq<char>, replies: Seq<WsReply>)
    ensures
        after_replies(url, replies) == (ListenerView {
            url,
            wait: wait_after(waits_in_a_row(replies)),
        }),
    decreases replies.len(),
{
    if replies.len() > 0 {
        lemma_after_replies(url, replies.drop_last());
    }
}

/// Every attempt goes to the same address, and the k-th wait since the start or
/// the last connection lasts two to the power of k - 1 seconds, up to the
/// longest.
pub proof fn waits_double(url: Seq<char>, replies: Seq<WsReply>)
    ensures
        match action_after(url, replies) {
            WsActionView::Connect { url: to } => to == url,
            WsActionView::Read => true,
            WsActionView::Sleep { seconds } => {
                let k = waits_in_a_row(replies);
                k >= 1 && seconds == if pow2((k - 1) as nat) <= MAX_DELAY {
                    pow2((k - 1) as nat)
                } else {
                    MAX_DELAY as nat
                }
            },
        },
{
    if replies.len() > 0 {
        lemma_after_replies(url, replies.drop_last());
        waits_are_powers_of_two(waits_in_a_row(replies.drop_last()));
    }
}

/// Between two attempts there is one wait: each wait is followed by an attempt
/// and each attempt but the first comes after a wait, so at any time there have
/// been as many waits as attempts while waiting, and one less otherwise.
pub proof fn one_wait_between_attempts(url: Seq<char>, replies: Seq<WsReply>)
    requires
        is_history(url, replies),
    ensures
        replies.len() > 0 ==> (action_after(url, replies) is Connect <==> action_after(
            url,
            replies.drop_last(),
        ) is Sleep),
        attempts(url, replies) == waits(url, replies) + if action_after(url, replies) is Sleep {
            0nat
        } else {
            1nat
        },
    decreases replies.len(),
{
    if replies.len() > 0 {
        let front = replies.drop_last();
        assert forall|i: int| 0 <= i < front.len() implies is_reply_to(
            #[trigger] action_after(url, front.take(i)),
            front[i],
        ) by {
            assert(front.take(i) =~= replies.take(i));
        }
        one_wait_between_attempts(url, front);
        assert(replies.take(replies.len() - 1) =~= front);
        assert(is_reply_to(action_after(url, front), replies.last()));
    }
}

// ── The event buffer ─────────────────────────────────────────────────────────

/// An event that is still of use at `now`.
pub open spec fn is_recent(e: WsEvent, now: u64) -> bool {
    now < e.ts || now - e.ts < EVENT_TTL
}

/// The events that are still of use at `now`.
pub open spec fn recent(events: Seq<WsEvent>, now: u64) -> Seq<WsEvent> {
    events.filter(|e: WsEvent| is_recent(e, now))
}

/// The events of `events` that stay when another arrives at `now`: the recent
/// ones, without the oldest where the buffer would be too full.
pub open spec fn kept(events: Seq<WsEvent>, now: u64) -> Seq<WsEvent> {
    if recent(events, now).len() >= EVENT_CAP {
        recent(events, now).drop_first()
    } else {
        recent(events, now)
    }
}

/// Enters an event that arrives at `now`.
pub fn remember(events: &mut VecDeque<WsEvent>, kind: WsEventKind, now: u64)
    ensures
        final(events)@ == kept(old(events)@, now).push((WsEvent { ts: now, kind })),
{
    let ghost all = events@;
    let mut rest: VecDeque<WsEvent> = VecDeque::new();
    let ghost mut done: int = 0;
    proof {
        reveal(Seq::filter);
        assert(all.take(0) == Seq::<WsEvent>::empty());
        assert(all.skip(0) == all);
        assert(rest@ =~= recent(all.take(0), now));
    }
    while events.len() > 0
        invariant
            0 <= done <= all.len(),
            events@ == all.skip(done),
            rest@ == recent(all.take(done), now),
        decreases events@.len(),
    {
        proof {
            reveal(Seq::filter);
            assert(all.take(done + 1).drop_last() == all.take(done));
            assert(all.take(done + 1).last() == all[done]);
            assert(events@[0] == all[done]);
        }
        match events.pop_front() {
            Some(e) => {
                if now < e.ts || now - e.ts < EVENT_TTL {
                    rest.push_back(e);
                }
            },
            None => {},
        }
        proof {
            done = done + 1;
            assert(events@ =~= all.skip(done));
        }
    }
    assert(all.take(done) == all);
    if rest.len() >= EVENT_CAP {
        let ghost full = rest@;
        let _oldest = rest.pop_front();
        assert(rest@ =~= full.drop_first());
    }
    rest.push_back(WsEvent { ts: now, kind });
    *events = rest;
}

proof fn lemma_recent_only(events: Seq<WsEvent>, now: u64)
    ensures
        recent(events, now).len() <= events.len(),
        forall|i: int|
            0 <= i < recent(events, now).len() ==> is_recent(#[trigger] recent(events, now)[i], now),
    decreases events.len(),
{
    reveal(Seq::filter);
    if events.len() > 0 {
        lemma_recent_only(events.drop_last(), now);
    }
}

/// However many events arrive, the buffer holds at most its cap, and after
/// each arrival only events that are still of use, the newest last.
pub proof fn the_buffer_stays_small_and_fresh(events: Seq<WsEvent>, e: WsEvent)
    requires
        events.len() <= EVENT_CAP,
    ensures
        kept(events, e.ts).push(e).len() <= EVENT_CAP,
        kept(events, e.ts).push(e).last() == e,
        forall|i: int|
            0 <= i < kept(events, e.ts).push(e).len() ==> is_recent(
                #[trigger] kept(events, e.ts).push(e)[i],
                e.ts,
            ),
{
    let now = e.ts;
    lemma_recent_only(events, now);
    let fresh = recent(events, now);
    let after = kept(events, now).push(e);
    assert forall|i: int| 0 <= i < after.len() implies is_recent(#[trigger] after[i], now) by {
        if i < kept(events, now).len() {
            let j = if fresh.len() >= EVENT_CAP { i + 1 } else { i };
            assert(after[i] == fresh[j]);
        }
    }
}

// ── Frames ───────────────────────────────────────────────────────────────────

/// What a frame reports.
#[derive(Clone, Copy, Debug, PartialEq, Eq, Structural)]
pub enum FrameKind {
    /// A track could not be downloaded.
    TrackFailed,
    /// A downloaded object could not be finished.
    PostFailed,
    /// A queue object is done with.
    Gone,
    /// A link was rejected.
    Rejected,
    /// The requested object was in the queue already.
    Duplicate,
    /// Nothing that matters here.
    Other,
}

/// What a frame reports, by its key; an update matters only where it carries a
/// failure.
pub open spec fn kind_of_frame(v: crate::json::JsonView) -> FrameKind {
    let key = v.field("key"@).str();
    if key == Some("updateQueue"@) {
        if v.field("data"@).field("failed"@).bool() == Some(true) {
            FrameKind::TrackFailed
        } else if v.field("data"@).field("postFailed"@).bool() == Some(true) {
            FrameKind::PostFailed
        } else {
            FrameKind::Other
        }
    } else if key == Some("finishDownload"@) || key == Some("removedFromQueue"@) {
        FrameKind::Gone
    } else if key == Some("queueError"@) {
        FrameKind::Rejected
    } else if key == Some("alreadyInQueue"@) {
        FrameKind::Duplicate
    } else {
        FrameKind::Other
    }
}

pub fn frame_kind(v: &Json) -> (r: FrameKind)
    ensures
        r == kind_of_frame(v.deep_view()),
{
    let key = v.field("key");
    if key.is_text("updateQueue") {
        if v.field("data").field("failed").is_true() {
            FrameKind::TrackFailed
        } else if v.field("data").field("postFailed").is_true() {
            FrameKind::PostFailed
        } else {
            FrameKind::Other
        }
    } else if key.is_text("finishDownload") || key.is_text("removedFromQueue") {
        FrameKind::Gone
    } else if key.is_text("queueError") {
        FrameKind::Rejected
    } else if key.is_text("alreadyInQueue") {
        FrameKind::Duplicate
    } else {
        FrameKind::Other
    }
}

/// A message to a chat.
pub struct Notice {
    pub chat_id: i64,
    pub text: String,
}

pub ghost struct NoticeView {
    pub chat_id: i64,
    pub text: Seq<char>,
}

impl DeepView for Notice {
    type V = NoticeView;

    open spec fn deep_view(&self) -> NoticeView {
        NoticeView { chat_id: self.chat_id, text: self.text@ }
    }
}

/// Who asked for the object that `data` is about: the chat and the title.
pub open spec fn initiator_of(
    initiators: Map<Seq<char>, (i64, String)>,
    data: crate::json::JsonView,
) -> Option<(i64, Seq<char>)> {
    match data.field("uuid"@).str() {
        Some(uuid) => if initiators.contains_key(uuid) {
            Some((initiators[uuid].0, initiators[uuid].1@))
        } else {
            None
        },
        None => None,
    }
}

/// Who asked for the object that `data` is about, if it is known.
pub fn initiator(initiators: &Table<(i64, String)>, data: &Json) -> (r: Option<(i64, String)>)
    ensures
        r.deep_view() == initiator_of(initiators@, data.deep_view()),
{
    match data.field("uuid").as_str() {
        Some(uuid) => match initiators.get(uuid) {
            Some(who) => Some((who.0, who.1.clone())),
            None => None,
        },
        None => None,
    }
}

/// The message about a track that could not be downloaded.
pub open spec fn track_error_text(data: crate::json::JsonView) -> Seq<char> {
    let head = "❌ Download failed: "@ + data.field("data"@).field("title"@).str_or("?"@) + " — "@
        + data.field("data"@).field("artist"@).str_or("?"@) + "\n"@ + data.field("error"@).str_or(
        "Unknown error"@,
    );
    match data.field("errid"@).str() {
        Some(errid) => head + " ("@ + errid + ")"@,
        None => head,
    }
}

/// Tells the chat that asked for an object about a track that failed.
pub fn forward_track_error(initiators: &Table<(i64, String)>, data: &Json) -> (r: Option<Notice>)
    ensures
        r.deep_view() == match initiator_of(initiators@, data.deep_view()) {
            Some(who) => Some(
                NoticeView { chat_id: who.0, text: track_error_text(data.deep_view()) },
            ),
            None => None,
        },
{
    match initiator(initiators, data) {
        Some(who) => {
            let title = data.field("data").field("title").str_or("?");
            let artist = data.field("data").field("artist").str_or("?");
            let error = data.field("error").str_or("Unknown error");
            let head = "❌ Download failed: ".to_owned().concat(title).concat(" — ").concat(
                artist,
            ).concat("\n").concat(error);
            let text = match data.field("errid").as_str() {
                Some(errid) => head.concat(" (").concat(errid).concat(")"),
                None => head,
            };
            Some(Notice { chat_id: who.0, text })
        },
        None => None,
    }
}

/// The message about an object that could not be finished.
pub open spec fn post_error_text(title: Seq<char>, data: crate::json::JsonView) -> Seq<char> {
    "⚠️ Post-processing error on \""@ + title + "\": "@ + data.field("error"@).str_or(
        "Unknown error"@,
    ) + " ("@ + data.field("data"@).field("position"@).str_or("unknown"@) + ")"@
}

/// Tells the chat that asked for an object that its artwork, log, playlist or
/// command failed; the music itself has been downloaded.
pub fn forward_post_error(initiators: &Table<(i64, String)>, data: &Json) -> (r: Option<Notice>)
    ensures
        r.deep_view() == match initiator_of(initiators@, data.deep_view()) {
            Some(who) => Some(
                NoticeView { chat_id: who.0, text: post_error_text(who.1, data.deep_view()) },
            ),
            None => None,
        },
{
    match initiator(initiators, data) {
        Some(who) => {
            let error = data.field("error").str_or("Unknown error");
            let position = data.field("data").field("position").str_or("unknown");
            let text = "⚠️ Post-processing error on \"".to_owned().concat(who.1.as_str()).concat(
                "\": ",
            ).concat(error).concat(" (").concat(position).concat(")");
            Some(Notice { chat_id: who.0, text })
        },
        None => None,
    }
}

/// The event in a frame that reports a rejected link.
pub open spec fn rejection_of(data: crate::json::JsonView) -> crate::config::WsEventKindView {
    crate::config::WsEventKindView::QueueError {
        link: data.field("link"@).str(),
        error: data.field("error"@).str_or("Unknown error"@),
        errid: data.field("errid"@).str(),
    }
}

/// The event in a frame that reports a duplicate. The artist is an object with
/// a name, or a name.
pub open spec fn duplicate_of(data: crate::json::JsonView) -> crate::config::WsEventKindView {
    crate::config::WsEventKindView::AlreadyInQueue {
        title: data.field("title"@).str_or("?"@),
        artist: data.field("artist"@).field("name"@).str_or(data.field("artist"@).str_or(""@)),
        size: data.field("size"@).unsigned_or(1),
    }
}

fn rejection(data: &Json) -> (r: WsEventKind)
    ensures
        r.deep_view() == rejection_of(data.deep_view()),
{
    WsEventKind::QueueError {
        link: data.field("link").to_text(),
        error: data.field("error").str_or("Unknown error").to_owned(),
        errid: data.field("errid").to_text(),
    }
}

fn duplicate(data: &Json) -> (r: WsEventKind)
    ensures
        r.deep_view() == duplicate_of(data.deep_view()),
{
    let artist = data.field("artist");
    WsEventKind::AlreadyInQueue {
        title: data.field("title").str_or("?").to_owned(),
        artist: artist.field("name").str_or(artist.str_or("")).to_owned(),
        size: data.field("size").u64_or(1),
    }
}

/// The buffer `after` is `before` with one more event, which arrived at `now`
/// and is of this kind.
pub open spec fn has_entered(
    before: Seq<WsEvent>,
    after: Seq<WsEvent>,
    now: u64,
    kind: crate::config::WsEventKindView,
) -> bool {
    &&& after.len() > 0
    &&& after.last().ts == now
    &&& after.last().kind.deep_view() == kind
    &&& after == kept(before, now).push(after.last())
}

/// What a frame that arrives at `now` does: it changes the buffer or the
/// initiators of `before` into those of `after`, or sends a notice.
pub open spec fn frame_effect(
    v: crate::json::JsonView,
    now: u64,
    before: BotState,
    after: BotState,
    notice: Option<NoticeView>,
) -> bool {
    let data = v.field("data"@);
    let kind = kind_of_frame(v);
    let who = initiator_of(before.queue_initiators@, data);
    &&& notice == if kind == FrameKind::TrackFailed && who is Some {
        Some(NoticeView { chat_id: (who->0).0, text: track_error_text(data) })
    } else if kind == FrameKind::PostFailed && who is Some {
        Some(NoticeView { chat_id: (who->0).0, text: post_error_text((who->0).1, data) })
    } else {
        None
    }
    &&& after.queue_initiators@ == if kind == FrameKind::Gone && data.field("uuid"@).str() is Some {
        before.queue_initiators@.remove(data.field("uuid"@).str()->0)
    } else {
        before.queue_initiators@
    }
    &&& if kind == FrameKind::Rejected {
        has_entered(before.ws_events@, after.ws_events@, now, rejection_of(data))
    } else if kind == FrameKind::Duplicate {
        has_entered(before.ws_events@, after.ws_events@, now, duplicate_of(data))
    } else {
        after.ws_events@ == before.ws_events@
    }
}

/// Nothing but the event buffer and the initiators differs.
pub open spec fn rest_unchanged(before: BotState, after: BotState) -> bool {
    &&& after.config == before.config
    &&& after.users == before.users
    &&& after.pending_voices == before.pending_voices
    &&& after.current_bitrate == before.current_bitrate
    &&& after.current_arl == before.current_arl
}

/// Takes in one frame that arrives at `now`.
pub fn take_frame(state: &mut BotState, v: &Json, now: u64) -> (r: Option<Notice>)
    ensures
        frame_effect(v.deep_view(), now, *old(state), *final(state), r.deep_view()),
        rest_unchanged(*old(state), *final(state)),
{
    let data = v.field("data");
    match frame_kind(v) {
        FrameKind::TrackFailed => forward_track_error(&state.queue_initiators, data),
        FrameKind::PostFailed => forward_post_error(&state.queue_initiators, data),
        FrameKind::Gone => {
            match data.field("uuid").as_str() {
                Some(uuid) => state.queue_initiators.remove(uuid),
                None => {},
            }
            None
        },
        FrameKind::Rejected => {
            remember(&mut state.ws_events, rejection(data), now);
            None
        },
        FrameKind::Duplicate => {
            remember(&mut state.ws_events, duplicate(data), now);
            None
        },
        FrameKind::Other => None,
    }
}

/// Takes in the text of one frame that arrives at `now`. What is no JSON
/// document has no effect.
pub fn handle_frame(state: &mut BotState, text: &str, now: u64) -> (r: Option<Notice>)
    ensures
        match crate::json::json_document(text@) {
            Some(v) => frame_effect(v, now, *old(state), *final(state), r.deep_view()),
            None => r is None && *final(state) == *old(state),
        },
        rest_unchanged(*old(state), *final(state)),
{
    match crate::json::parse(text) {
        Some(v) => take_frame(state, &v, now),
        None => None,
    }
}

// ── What holds of addresses, events and frames ───────────────────────────────

/// The server is listened to where it is, over the scheme that goes with its own.
pub proof fn the_listener_goes_to_the_server(rest: Seq<char>)
    ensures
        address_of("http"@ + rest) == "ws"@ + rest + "/"@,
{
    reveal_strlit("http");
    let none = Seq::<char>::empty();
    assert(none + "http"@ + rest =~= "http"@ + rest);
    crate::text::the_first_occurrence_is_replaced(none, "http"@, rest, "ws"@);
    assert(none + "ws"@ + rest =~= "ws"@ + rest);
}

/// An event stays for a minute.
pub proof fn events_stay_for_a_minute(e: WsEvent, now: u64)
    ensures
        is_recent(e, now) <==> now - e.ts < 60_000_000_000,
{
}

/// Events that are all of use stay, in their order, while there is room for one
/// more; where there is none, the oldest goes and no other.
pub proof fn the_oldest_event_goes_first(events: Seq<WsEvent>, now: u64)
    requires
        forall|i: int| 0 <= i < events.len() ==> is_recent(#[trigger] events[i], now),
    ensures
        events.len() < 128 ==> kept(events, now) == events,
        events.len() >= 128 ==> kept(events, now) == events.skip(1),
{
    lemma_all_recent(events, now);
    assert(events.len() > 0 ==> events.drop_first() =~= events.skip(1));
}

proof fn lemma_all_recent(events: Seq<WsEvent>, now: u64)
    requires
        forall|i: int| 0 <= i < events.len() ==> is_recent(#[trigger] events[i], now),
    ensures
        recent(events, now) == events,
    decreases events.len(),
{
    reveal(Seq::filter);
    if events.len() > 0 {
        let front = events.drop_last();
        assert forall|i: int| 0 <= i < front.len() implies is_recent(#[trigger] front[i], now) by {
            assert(front[i] == events[i]);
        }
        lemma_all_recent(front, now);
        assert(is_recent(events[events.len() - 1], now));
        assert(recent(events, now) =~= events);
    }
}

/// An event that is no longer of use goes, and takes no other with it.
pub proof fn only_old_events_go(a: Seq<WsEvent>, e: WsEvent, b: Seq<WsEvent>, now: u64)
    ensures
        recent(a + b, now) == recent(a, now) + recent(b, now),
        !is_recent(e, now) ==> recent(seq![e], now).len() == 0,
        is_recent(e, now) ==> recent(seq![e], now) == seq![e],
    decreases b.len(),
{
    reveal(Seq::filter);
    let one = seq![e];
    assert(one.drop_last() =~= Seq::<WsEvent>::empty());
    assert(one.last() == e);
    assert(recent(one.drop_last(), now) =~= Seq::<WsEvent>::empty());
    if is_recent(e, now) {
        assert(recent(one, now) =~= seq![e]);
    }
    if b.len() == 0 {
        assert(a + b =~= a);
        assert(recent(a, now) + recent(b, now) =~= recent(a, now));
    } else {
        only_old_events_go(a, e, b.drop_last(), now);
        assert((a + b).drop_last() =~= a + b.drop_last());
        assert((a + b).last() == b.last());
        assert(recent(a + b, now) =~= recent(a, now) + recent(b, now));
    }
}

/// What each key of a frame means.
pub proof fn frames_are_told_by_their_keys(v: crate::json::JsonView)
    ensures
        v.field("key"@) == crate::json::JsonView::Str("updateQueue"@) ==> ({
            let failed = v.field("data"@).field("failed"@) == crate::json::JsonView::Bool(true);
            let post = v.field("data"@).field("postFailed"@) == crate::json::JsonView::Bool(true);
            &&& failed ==> kind_of_frame(v) == FrameKind::TrackFailed
            &&& post && !failed ==> kind_of_frame(v) == FrameKind::PostFailed
            &&& !post && !failed ==> kind_of_frame(v) == FrameKind::Other
        }),
        v.field("key"@) == crate::json::JsonView::Str("finishDownload"@) ==> kind_of_frame(v)
            == FrameKind::Gone,
        v.field("key"@) == crate::json::JsonView::Str("removedFromQueue"@) ==> kind_of_frame(v)
            == FrameKind::Gone,
        v.field("key"@) == crate::json::JsonView::Str("queueError"@) ==> kind_of_frame(v)
            == FrameKind::Rejected,
        v.field("key"@) == crate::json::JsonView::Str("alreadyInQueue"@) ==> kind_of_frame(v)
            == FrameKind::Duplicate,
        !(v.field("key"@) is Str) ==> kind_of_frame(v) == FrameKind::Other,
{
    reveal_strlit("updateQueue");
    reveal_strlit("finishDownload");
    reveal_strlit("removedFromQueue");
    reveal_strlit("queueError");
    reveal_strlit("alreadyInQueue");
    assert("updateQueue"@.len() == 11 && "finishDownload"@.len() == 14
        && "removedFromQueue"@.len() == 16 && "queueError"@.len() == 10
        && "alreadyInQueue"@.len() == 14);
    assert("finishDownload"@[0] == 'f' && "alreadyInQueue"@[0] == 'a');
}

/// A failure is told to the chat that asked for the object, and to no other, with
/// what failed and why.
pub proof fn failures_go_to_who_asked(
    v: crate::json::JsonView,
    now: u64,
    before: BotState,
    after: BotState,
    notice: Option<NoticeView>,
    uuid: Seq<char>,
    error: Seq<char>,
)
    requires
        frame_effect(v, now, before, after, notice),
        v.field("data"@).field("uuid"@) == crate::json::JsonView::Str(uuid),
        v.field("data"@).field("error"@) == crate::json::JsonView::Str(error),
    ensures
        kind_of_frame(v) == FrameKind::TrackFailed || kind_of_frame(v) == FrameKind::PostFailed ==> (
        notice is Some <==> before.queue_initiators@.contains_key(uuid)),
        notice matches Some(n) ==> before.queue_initiators@.contains_key(uuid) && n.chat_id
            == before.queue_initiators@[uuid].0 && crate::text::occurs_in(n.text, error),
        kind_of_frame(v) != FrameKind::TrackFailed && kind_of_frame(v) != FrameKind::PostFailed
            ==> notice is None,
        kind_of_frame(v) == FrameKind::Gone ==> after.queue_initiators@
            == before.queue_initiators@.remove(uuid),
        kind_of_frame(v) != FrameKind::Gone ==> after.queue_initiators@ == before.queue_initiators@,
{
    let data = v.field("data"@);
    let head = "❌ Download failed: "@ + data.field("data"@).field("title"@).str_or("?"@) + " — "@
        + data.field("data"@).field("artist"@).str_or("?"@) + "\n"@;
    let none = Seq::<char>::empty();
    assert(head + error + none =~= head + error);
    crate::text::parts_are_found_anywhere(head, error, none, none);
    if data.field("errid"@) is Str {
        let tail = " ("@ + data.field("errid"@)->Str_0 + ")"@;
        assert(head + error + tail =~= head + error + " ("@ + data.field("errid"@)->Str_0 + ")"@);
        crate::text::parts_are_found_anywhere(head, error, tail, none);
    }
    if before.queue_initiators@.contains_key(uuid) {
        let title = before.queue_initiators@[uuid].1@;
        let front = "⚠️ Post-processing error on \""@ + title + "\": "@;
        let tail = " ("@ + data.field("data"@).field("position"@).str_or("unknown"@) + ")"@;
        assert(post_error_text(title, data) =~= front + error + tail);
        crate::text::parts_are_found_anywhere(front, error, tail, none);
    }
}

/// A rejected link and a duplicate are kept as the newest event, with what the
/// frame says of them; nothing else is kept.
pub proof fn rejections_and_duplicates_are_kept(
    v: crate::json::JsonView,
    now: u64,
    before: BotState,
    after: BotState,
    notice: Option<NoticeView>,
)
    requires
        frame_effect(v, now, before, after, notice),
    ensures
        kind_of_frame(v) == FrameKind::Rejected ==> after.ws_events@.len() > 0
            && after.ws_events@.last().ts == now && (
        after.ws_events@.last().kind.deep_view() matches crate::config::WsEventKindView::QueueError {
            link,
            error,
            errid,
        } && (v.field("data"@).field("link"@) matches crate::json::JsonView::Str(l) ==> link == Some(
            l,
        )) && (!(v.field("data"@).field("link"@) is Str) ==> link is None) && (v.field(
            "data"@,
        ).field("error"@) matches crate::json::JsonView::Str(e) ==> error == e) && (v.field(
            "data"@,
        ).field("errid"@) matches crate::json::JsonView::Str(i) ==> errid == Some(i))),
        kind_of_frame(v) == FrameKind::Duplicate ==> after.ws_events@.len() > 0
            && after.ws_events@.last().ts == now && (
        after.ws_events@.last().kind.deep_view() matches crate::config::WsEventKindView::AlreadyInQueue {
            title,
            artist,
            size,
        } && (v.field("data"@).field("title"@) matches crate::json::JsonView::Str(t) ==> title == t)
            && (v.field("data"@).field("artist"@).field(
            "name"@,
        ) matches crate::json::JsonView::Str(a) ==> artist == a) && (v.field("data"@).field(
            "artist"@,
        ) matches crate::json::JsonView::Str(a) ==> artist == a) && (v.field("data"@).field(
            "size"@,
        ).unsigned() matches Some(n) ==> size == n)),
        kind_of_frame(v) != FrameKind::Rejected && kind_of_frame(v) != FrameKind::Duplicate
            ==> after.ws_events@ == before.ws_events@,
        kind_of_frame(v) == FrameKind::Rejected || kind_of_frame(v) == FrameKind::Duplicate
            ==> after.ws_events@.drop_last() == kept(before.ws_events@, now),
{
    if kind_of_frame(v) == FrameKind::Rejected || kind_of_frame(v) == FrameKind::Duplicate {
        assert(after.ws_events@.drop_last() =~= kept(before.ws_events@, now));
    }
}

/// The message about a failed track names its title, its artist, the error and
/// the error's id, in that order.
pub proof fn a_failed_track_is_named(
    data: crate::json::JsonView,
    title: Seq<char>,
    artist: Seq<char>,
    error: Seq<char>,
)
    requires
        data.field("data"@).field("title"@) == crate::json::JsonView::Str(title),
        data.field("data"@).field("artist"@) == crate::json::JsonView::Str(artist),
        data.field("error"@) == crate::json::JsonView::Str(error),
    ensures
        data.field("errid"@) matches crate::json::JsonView::Str(id) ==> track_error_text(data)
            == "❌ Download failed: "@ + title + " — "@ + artist + "\n"@ + error + " ("@ + id + ")"@,
        !(data.field("errid"@) is Str) ==> track_error_text(data) == "❌ Download failed: "@ + title
            + " — "@ + artist + "\n"@ + error,
{
}

/// The message about an object that could not be finished names the object, the
/// error and where it came up.
pub proof fn an_unfinished_object_is_named(
    title: Seq<char>,
    data: crate::json::JsonView,
    error: Seq<char>,
    position: Seq<char>,
)
    requires
        data.field("error"@) == crate::json::JsonView::Str(error),
        data.field("data"@).field("position"@) == crate::json::JsonView::Str(position),
    ensures
        post_error_text(title, data) == "⚠️ Post-processing error on \""@ + title + "\": "@ + error
            + " ("@ + position + ")"@,
{
}

/// What a frame leaves out has a name of its own in what is kept of it.
pub proof fn what_a_frame_leaves_out(data: crate::json::JsonView)
    ensures
        !(data.field("error"@) is Str) ==> (
        rejection_of(data) matches crate::config::WsEventKindView::QueueError { link, error, errid }
            && error == "Unknown error"@),
        !(data.field("errid"@) is Str) ==> (
        rejection_of(data) matches crate::config::WsEventKindView::QueueError { link, error, errid }
            && errid is None),
        !(data.field("title"@) is Str) && data.field("size"@).unsigned() is None && data.field(
            "artist"@,
        ) is Null ==> duplicate_of(data) == (crate::config::WsEventKindView::AlreadyInQueue {
            title: "?"@,
            artist: ""@,
            size: 1,
        }),
{
}

} // verus!
