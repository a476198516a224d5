//! The deemix server: logging in, queueing, and reading its queue.
//!
//! Each exchange has two halves. One builds the request; the other reads the
//! reply, which is a JSON document or the text of the error that kept it from
//! arriving.

use vstd::prelude::*;

use std::collections::VecDeque;

use crate::config::{BotState, Config, WsEvent, WsEventKind};
use crate::http::{request, Answer, HttpRequest, Method};
use crate::json::{object_of, object_of_two, Json};
use crate::text::{eq_ignore_ascii_case, i64_text, same};

verus! {

/// The address of an endpoint.
pub open spec fn endpoint(config: crate::config::ConfigView, path: Seq<char>) -> Seq<char> {
    config.deemix_url + path
}

fn endpoint_url(config: &Config, path: &str) -> (r: String)
    ensures
        r@ == endpoint(config.deep_view(), path@),
{
    config.deemix_url.clone().concat(path)
}

// ── Logging in ───────────────────────────────────────────────────────────────

pub open spec fn login_request(
    config: crate::config::ConfigView,
    arl: Seq<char>,
) -> crate::http::HttpRequestView {
    crate::http::bare(Method::Post, endpoint(config, "/api/loginArl"@)).with_body(
        crate::json::JsonView::Object(seq![("arl"@, crate::json::JsonView::Str(arl))]),
    )
}

/// The request that logs in with an ARL.
pub fn login_arl_request(config: &Config, arl: &str) -> (r: HttpRequest)
    ensures
        r.deep_view() == login_request(config.deep_view(), arl@),
{
    request(Method::Post, endpoint_url(config, "/api/loginArl")).body(
        object_of("arl", Json::text(arl)),
    )
}

/// The request with which the bot logs in at its start, where an ARL is
/// configured.
pub fn login(config: &Config) -> (r: Option<HttpRequest>)
    ensures
        r.deep_view() == if config.deep_view().deemix_arl.len() == 0 {
            None
        } else {
            Some(login_request(config.deep_view(), config.deep_view().deemix_arl))
        },
{
    if config.deemix_arl.as_str().is_empty() {
        None
    } else {
        Some(login_arl_request(config, config.deemix_arl.as_str()))
    }
}

/// The outcome of a login: the user's name for status 1 (logged in) and 2
/// (already logged in); any other status is a failure.
pub open spec fn login_outcome(reply: Result<crate::json::JsonView, Seq<char>>) -> Result<
    Seq<char>,
    Seq<char>,
> {
    match reply {
        Err(e) => Err(e),
        Ok(data) => {
            let status = match data.field("status"@).signed() {
                Some(s) => s,
                None => 0,
            };
            if status == 1 || status == 2 {
                Ok(data.field("user"@).field("name"@).str_or("unknown"@))
            } else {
                Err("Login failed (status "@ + crate::text::signed_decimal(status as int) + ")"@)
            }
        },
    }
}

/// Reads the reply to a login.
pub fn login_arl(reply: Result<Json, String>) -> (r: Result<String, String>)
    ensures
        crate::flow::result_view(r) == login_outcome(crate::flow::result_view(reply)),
{
    match reply {
        Err(e) => Err(e),
        Ok(data) => {
            let status: i64 = match data.field("status").as_i64() {
                Some(s) => s,
                None => 0,
            };
            if status == 1 || status == 2 {
                Ok(data.field("user").field("name").str_or("unknown").to_owned())
            } else {
                Err(
                    "Login failed (status ".to_owned().concat(i64_text(status).as_str()).concat(
                        ")",
                    ),
                )
            }
        },
    }
}

/// The ARL for logging in again: the one in the login file, unless it is
/// missing or empty, and else the one in use.
pub open spec fn renewal_arl(login_file: Option<Seq<char>>, current: Seq<char>) -> Seq<char> {
    match crate::config::stored_arl(login_file) {
        Some(arl) => if arl.len() > 0 {
            arl
        } else {
            current
        },
        None => current,
    }
}

/// Picks the ARL for logging in again after the session has expired, keeps it
/// as the one in use, and returns the login request.
pub fn relogin(state: &mut BotState, login_file: &Option<String>) -> (r: Result<
    HttpRequest,
    String,
>)
    ensures
        ({
            let arl = renewal_arl(login_file.deep_view(), old(state).current_arl@);
            crate::flow::result_view(r) == if arl.len() == 0 {
                Err("Session expired and no ARL is configured"@)
            } else {
                Ok(login_request(old(state).config.deep_view(), arl))
            } && final(state).current_arl@ == arl
        }),
        final(state).config == old(state).config,
        final(state).users == old(state).users,
        final(state).pending_voices == old(state).pending_voices,
        final(state).current_bitrate == old(state).current_bitrate,
        final(state).ws_events == old(state).ws_events,
        final(state).queue_initiators == old(state).queue_initiators,
{
    let stored = crate::config::read_arl(login_file);
    let arl = match stored {
        Some(a) => if a.as_str().is_empty() {
            state.current_arl.clone()
        } else {
            a
        },
        None => state.current_arl.clone(),
    };
    if arl.as_str().is_empty() {
        return Err("Session expired and no ARL is configured".to_owned());
    }
    let r = login_arl_request(&state.config, arl.as_str());
    state.current_arl = arl;
    Ok(r)
}

// ── Queueing ─────────────────────────────────────────────────────────────────

pub open spec fn queue_request(
    config: crate::config::ConfigView,
    bitrate: u8,
    url: Seq<char>,
) -> crate::http::HttpRequestView {
    crate::http::bare(Method::Post, endpoint(config, "/api/addToQueue"@)).with_body(
        crate::json::JsonView::Object(
            seq![
                ("url"@, crate::json::JsonView::Str(url)),
                ("bitrate"@, crate::json::number_view(bitrate)),
            ],
        ),
    )
}

/// The request that queues a link at the current bitrate.
pub fn add_to_queue_request(state: &BotState, url: &str) -> (r: HttpRequest)
    ensures
        r.deep_view() == queue_request(state.config.deep_view(), state.current_bitrate, url@),
{
    request(Method::Post, endpoint_url(&state.config, "/api/addToQueue")).body(
        object_of_two("url", Json::text(url), "bitrate", Json::number(state.current_bitrate)),
    )
}

/// What one queue request achieved: the objects that were added, or an error.
pub open spec fn queued_objects(reply: Result<crate::json::JsonView, Seq<char>>) -> Result<
    Seq<crate::json::JsonView>,
    Seq<char>,
> {
    match reply {
        Err(e) => Err(e),
        Ok(data) => if data.field("result"@).bool() == Some(true) {
            Ok(data.field("data"@).field("obj"@).items())
        } else {
            Err(data.field("errid"@).str_or("Unknown error"@))
        },
    }
}

/// Reads the reply to a queue request.
pub fn add_to_queue_once(reply: Result<Json, String>) -> (r: Result<Vec<Json>, String>)
    ensures
        crate::flow::result_view(r) == queued_objects(crate::flow::result_view(reply)),
{
    match reply {
        Err(e) => Err(e),
        Ok(data) => if data.field("result").is_true() {
            Ok(data.field("data").field("obj").all_items())
        } else {
            Err(data.field("errid").str_or("Unknown error").to_owned())
        },
    }
}

/// What follows the first reply to a queue request.
pub enum AddToQueue {
    /// It is the outcome.
    Return(Result<Vec<Json>, String>),
    /// The session has expired: log in again and ask once more.
    LogInAgain,
}

pub open spec fn is_expired(error: Seq<char>) -> bool {
    crate::text::same_but_ascii_case(error, "notloggedin"@)
}

/// Reads the first reply to a queue request. deemix forgets sessions after
/// about a day and then refuses with `NotLoggedIn`.
pub fn add_to_queue(reply: Result<Json, String>) -> (r: AddToQueue)
    ensures
        ({
            let outcome = queued_objects(crate::flow::result_view(reply));
            match r {
                AddToQueue::LogInAgain => outcome matches Err(e) && is_expired(e),
                AddToQueue::Return(v) => crate::flow::result_view(v) == outcome && !(
                outcome matches Err(e) && is_expired(e)),
            }
        }),
{
    match add_to_queue_once(reply) {
        Err(e) => if eq_ignore_ascii_case(e.as_str(), "notloggedin") {
            AddToQueue::LogInAgain
        } else {
            AddToQueue::Return(Err(e))
        },
        Ok(v) => AddToQueue::Return(Ok(v)),
    }
}

/// What follows the reply to a login after the session had expired: the link is
/// asked for once more, or the login's error is the outcome.
pub open spec fn retry_view(
    login: Result<crate::json::JsonView, Seq<char>>,
    config: crate::config::ConfigView,
    bitrate: u8,
    url: Seq<char>,
) -> Result<crate::http::HttpRequestView, Seq<char>> {
    match login_outcome(login) {
        Ok(_) => Ok(queue_request(config, bitrate, url)),
        Err(e) => Err(e),
    }
}

/// The second request for a link, once the session is renewed.
pub fn retry_request(state: &BotState, url: &str, login: Result<Json, String>) -> (r: Result<
    HttpRequest,
    String,
>)
    ensures
        crate::flow::result_view(r) == retry_view(
            crate::flow::result_view(login),
            state.config.deep_view(),
            state.current_bitrate,
            url@,
        ),
{
    match login_arl(login) {
        Ok(_) => Ok(add_to_queue_request(state, url)),
        Err(e) => Err(e),
    }
}

// ── Confirming ───────────────────────────────────────────────────────────────

/// The verified outcome of one queue request: the objects that deemix added,
/// and the duplicates and errors that only its events report.
#[derive(Debug)]
pub enum QueueOutcome {
    /// Objects were added: `tracks` in all, a single track where `is_track`;
    /// `already` and `failed` count the duplicates and errors of an artist
    /// request and are zero for any other.
    Added { tracks: usize, is_track: bool, already: usize, failed: usize },
    /// Nothing was added: the item is in the queue already, with `more`
    /// further duplicates of an artist request.
    AlreadyInQueue { title: String, artist: String, size: u64, more: usize },
    /// Nothing was added: the server rejected the link.
    Failed { error: String, errid: Option<String> },
    /// No object and no event: the outcome is unknown.
    NothingAdded,
}

pub ghost enum QueueOutcomeView {
    Added { tracks: nat, is_track: bool, already: nat, failed: nat },
    AlreadyInQueue { title: Seq<char>, artist: Seq<char>, size: u64, more: nat },
    Failed { error: Seq<char>, errid: Option<Seq<char>> },
    NothingAdded,
}

impl DeepView for QueueOutcome {
    type V = QueueOutcomeView;

    open spec fn deep_view(&self) -> QueueOutcomeView {
        match self {
            QueueOutcome::Added { tracks, is_track, already, failed } => QueueOutcomeView::Added {
                tracks: *tracks as nat,
                is_track: *is_track,
                already: *already as nat,
                failed: *failed as nat,
            },
            QueueOutcome::AlreadyInQueue { title, artist, size, more } =>
                QueueOutcomeView::AlreadyInQueue {
                title: title@,
                artist: artist@,
                size: *size,
                more: *more as nat,
            },
            QueueOutcome::Failed { error, errid } => QueueOutcomeView::Failed {
                error: error@,
                errid: errid.deep_view(),
            },
            QueueOutcome::NothingAdded => QueueOutcomeView::NothingAdded,
        }
    }
}

/// A rejected link: the link where the server names it, the error and its id.
pub type ErrorView = (Option<Seq<char>>, Seq<char>, Option<Seq<char>>);

/// A duplicate: title, artist and size.
pub type DuplicateView = (Seq<char>, Seq<char>, u64);

/// The errors among the events since `started`, in order.
pub open spec fn errors_since(events: Seq<WsEvent>, started: u64) -> Seq<ErrorView>
    decreases events.len(),
{
    if events.len() == 0 {
        Seq::empty()
    } else {
        let rest = errors_since(events.drop_last(), started);
        match events.last().kind {
            WsEventKind::QueueError { link, error, errid } => if events.last().ts >= started {
                rest.push((link.deep_view(), error@, errid.deep_view()))
            } else {
                rest
            },
            _ => rest,
        }
    }
}

/// The duplicates among the events since `started`, in order.
pub open spec fn duplicates_since(events: Seq<WsEvent>, started: u64) -> Seq<DuplicateView>
    decreases events.len(),
{
    if events.len() == 0 {
        Seq::empty()
    } else {
        let rest = duplicates_since(events.drop_last(), started);
        match events.last().kind {
            WsEventKind::AlreadyInQueue { title, artist, size } => if events.last().ts >= started {
                rest.push((title@, artist@, size))
            } else {
                rest
            },
            _ => rest,
        }
    }
}

/// The first error for `link`.
pub open spec fn first_error_for(errors: Seq<ErrorView>, link: Option<Seq<char>>) -> Option<
    ErrorView,
>
    decreases errors.len(),
{
    if errors.len() == 0 {
        None
    } else if errors[0].0 == link {
        Some(errors[0])
    } else {
        first_error_for(errors.drop_first(), link)
    }
}

/// The number of tracks in the added objects; an object that does not give
/// its size counts as one.
pub open spec fn tracks_in(added: Seq<crate::json::JsonView>) -> nat
    decreases added.len(),
{
    if added.len() == 0 {
        0
    } else {
        tracks_in(added.drop_last()) + (added.last().field("size"@).unsigned_or(1) as usize) as nat
    }
}

/// The first duplicate, with `more` behind it, or else `otherwise`.
pub open spec fn duplicate_or(
    duplicates: Seq<DuplicateView>,
    more: nat,
    otherwise: QueueOutcomeView,
) -> QueueOutcomeView {
    if duplicates.len() > 0 {
        QueueOutcomeView::AlreadyInQueue {
            title: duplicates[0].0,
            artist: duplicates[0].1,
            size: duplicates[0].2,
            more,
        }
    } else {
        otherwise
    }
}

/// The error, or else `otherwise`.
pub open spec fn error_or(error: Option<ErrorView>, otherwise: QueueOutcomeView) -> QueueOutcomeView {
    match error {
        Some(e) => QueueOutcomeView::Failed { error: e.1, errid: e.2 },
        None => otherwise,
    }
}

/// The outcome of a request that added `added` while the events of its time
/// reported these errors and duplicates.
///
/// Only an artist request resolves to several objects, so only there do added
/// objects, duplicates and errors mix. Any other request that added its object
/// has produced no event of its own; one that added nothing was rejected (an
/// error that names its link), or was a duplicate, or was rejected without a
/// link being named.
pub open spec fn confirmed_outcome(
    added: Seq<crate::json::JsonView>,
    errors: Seq<ErrorView>,
    duplicates: Seq<DuplicateView>,
    url: Seq<char>,
    artist: bool,
) -> QueueOutcomeView {
    if added.len() > 0 {
        QueueOutcomeView::Added {
            tracks: tracks_in(added),
            is_track: added.len() == 1 && added[0].field("type"@).str() == Some("track"@),
            already: if artist {
                duplicates.len()
            } else {
                0
            },
            failed: if artist {
                errors.len()
            } else {
                0
            },
        }
    } else if artist {
        error_or(
            if errors.len() > 0 {
                Some(errors[0])
            } else {
                None
            },
            duplicate_or(
                duplicates,
                (duplicates.len() - 1) as nat,
                QueueOutcomeView::NothingAdded,
            ),
        )
    } else {
        error_or(
            first_error_for(errors, Some(url)),
            duplicate_or(
                duplicates,
                0,
                error_or(first_error_for(errors, None), QueueOutcomeView::NothingAdded),
            ),
        )
    }
}

/// Whether the number of added tracks can be counted.
pub fn can_count_tracks(added: &Vec<Json>) -> (r: bool)
    ensures
        r == (tracks_in(added.deep_view()) <= usize::MAX),
{
    let ghost all = added.deep_view();
    let mut sum: usize = 0;
    let mut i: usize = 0;
    while i < added.len()
        invariant
            all == added.deep_view(),
            i <= added@.len(),
            sum == tracks_in(all.take(i as int)),
        decreases added@.len() - i,
    {
        proof {
            assert(all.take(i + 1).drop_last() == all.take(i as int));
            assert(all.take(i + 1).last() == added@[i as int].deep_view());
        }
        let size: usize = added[i].field("size").u64_or(1) as usize;
        i += 1;
        match sum.checked_add(size) {
            Some(s) => {
                sum = s;
            },
            None => {
                proof {
                    lemma_tracks_grow(all, i as int);
                }
                return false;
            },
        }
    }
    assert(all.take(i as int) == all);
    true
}

proof fn lemma_tracks_grow(added: Seq<crate::json::JsonView>, i: int)
    requires
        0 <= i <= added.len(),
    ensures
        tracks_in(added) >= tracks_in(added.take(i)),
    decreases added.len(),
{
    if i == added.len() {
        assert(added.take(i) == added);
    } else {
        assert(added.drop_last().take(i) == added.take(i));
        lemma_tracks_grow(added.drop_last(), i);
    }
}

fn count_tracks(added: &Vec<Json>) -> (r: usize)
    requires
        tracks_in(added.deep_view()) <= usize::MAX,
    ensures
        r == tracks_in(added.deep_view()),
{
    let ghost all = added.deep_view();
    let mut sum: usize = 0;
    let mut i: usize = 0;
    while i < added.len()
        invariant
            all == added.deep_view(),
            tracks_in(all) <= usize::MAX,
            i <= added@.len(),
            sum == tracks_in(all.take(i as int)),
        decreases added@.len() - i,
    {
        proof {
            assert(all.take(i + 1).drop_last() == all.take(i as int));
            assert(all.take(i + 1).last() == added@[i as int].deep_view());
            lemma_tracks_grow(all, i + 1);
        }
        sum += added[i].field("size").u64_or(1) as usize;
        i += 1;
    }
    assert(all.take(i as int) == all);
    sum
}

/// An error as it is drained from the event buffer.
type DrainedError = (Option<String>, String, Option<String>);

fn has_link(link: &Option<String>, wanted: Option<&str>) -> (r: bool)
    ensures
        r == (link.deep_view() == wanted.deep_view()),
{
    match link {
        Some(l) => match wanted {
            Some(w) => same(l.as_str(), w),
            None => false,
        },
        None => wanted.is_none(),
    }
}

fn find_error(errors: &Vec<DrainedError>, link: Option<&str>) -> (r: Option<QueueOutcome>)
    ensures
        match first_error_for(errors.deep_view(), link.deep_view()) {
            Some(e) => r is Some && r->0.deep_view() == (QueueOutcomeView::Failed {
                error: e.1,
                errid: e.2,
            }),
            None => r is None,
        },
{
    let ghost all = errors.deep_view();
    let ghost wanted = link.deep_view();
    let mut i: usize = 0;
    proof {
        assert(all.skip(0) == all);
    }
    while i < errors.len()
        invariant
            all == errors.deep_view(),
            wanted == link.deep_view(),
            i <= errors@.len(),
            first_error_for(all, wanted) == first_error_for(all.skip(i as int), wanted),
        decreases errors@.len() - i,
    {
        proof {
            assert(all.skip(i as int)[0] == errors@[i as int].deep_view());
            assert(all.skip(i as int).drop_first() == all.skip(i + 1));
        }
        if has_link(&errors[i].0, link) {
            return Some(failed_with(&errors[i]));
        }
        i += 1;
    }
    None
}

fn failed_with(e: &DrainedError) -> (r: QueueOutcome)
    ensures
        r.deep_view() == (QueueOutcomeView::Failed {
            error: e.deep_view().1,
            errid: e.deep_view().2,
        }),
{
    QueueOutcome::Failed {
        error: e.1.clone(),
        errid: match &e.2 {
            Some(s) => Some(s.clone()),
            None => None,
        },
    }
}

/// The outcome of a queue request that began at `started`. A request that
/// failed leaves the buffered events alone; any other consumes them all.
pub fn add_to_queue_confirmed(
    added: Result<Vec<Json>, String>,
    events: &mut VecDeque<WsEvent>,
    started: u64,
    url: &str,
    artist: bool,
) -> (r: Result<QueueOutcome, String>)
    requires
        added matches Ok(objects) ==> tracks_in(objects.deep_view()) <= usize::MAX,
    ensures
        match added {
            Err(e) => crate::flow::result_view(r) == Err::<QueueOutcomeView, Seq<char>>(e@)
                && final(events)@ == old(events)@,
            Ok(objects) => crate::flow::result_view(r) == Ok::<QueueOutcomeView, Seq<char>>(
                confirmed_outcome(
                    objects.deep_view(),
                    errors_since(old(events)@, started),
                    duplicates_since(old(events)@, started),
                    url@,
                    artist,
                ),
            ) && final(events)@.len() == 0,
        },
{
    let added = match added {
        Ok(objects) => objects,
        Err(e) => {
            return Err(e);
        },
    };
    let ghost all = events@;
    let mut errors: Vec<DrainedError> = Vec::new();
    let mut dupes: Vec<(String, String, u64)> = Vec::new();
    let ghost mut done: int = 0;
    proof {
        assert(all.take(0) == Seq::<WsEvent>::empty());
        assert(all.skip(0) == all);
        assert(errors.deep_view() =~= errors_since(all.take(0), started));
        assert(dupes.deep_view() =~= duplicates_since(all.take(0), started));
    }
    while events.len() > 0
        invariant
            0 <= done <= all.len(),
            events@ == all.skip(done),
            errors.deep_view() == errors_since(all.take(done), started),
            dupes.deep_view() == duplicates_since(all.take(done), started),
        decreases events@.len(),
    {
        proof {
            assert(all.take(done + 1).drop_last() == all.take(done));
            assert(all.take(done + 1).last() == all[done]);
            assert(events@[0] == all[done]);
        }
        let ghost errors_before = errors.deep_view();
        let ghost dupes_before = dupes.deep_view();
        match events.pop_front() {
            Some(ev) => {
                if ev.ts >= started {
                    match ev.kind {
                        WsEventKind::QueueError { link, error, errid } => {
                            let ghost item = (link.deep_view(), error@, errid.deep_view());
                            errors.push((link, error, errid));
                            assert(errors.deep_view() =~= errors_before.push(item));
                        },
                        WsEventKind::AlreadyInQueue { title, artist: artist_name, size } => {
                            let ghost item = (title@, artist_name@, size);
                            dupes.push((title, artist_name, size));
                            assert(dupes.deep_view() =~= dupes_before.push(item));
                        },
                    }
                }
            },
            None => {},
        }
        proof {
            done = done + 1;
            assert(events@ =~= all.skip(done));
        }
    }
    proof {
        assert(done == all.len());
        assert(all.take(done) == all);
    }
    if added.len() > 0 {
        let tracks: usize = count_tracks(&added);
        let is_track = added.len() == 1 && added[0].field("type").is_text("track");
        return Ok(
            if artist {
                QueueOutcome::Added { tracks, is_track, already: dupes.len(), failed: errors.len() }
            } else {
                QueueOutcome::Added { tracks, is_track, already: 0, failed: 0 }
            },
        );
    }
    if artist {
        if errors.len() > 0 {
            return Ok(failed_with(&errors[0]));
        }
        if dupes.len() > 0 {
            return Ok(
                QueueOutcome::AlreadyInQueue {
                    title: dupes[0].0.clone(),
                    artist: dupes[0].1.clone(),
                    size: dupes[0].2,
                    more: dupes.len() - 1,
                },
            );
        }
    } else {
        match find_error(&errors, Some(url)) {
            Some(outcome) => {
                return Ok(outcome);
            },
            None => {},
        }
        if dupes.len() > 0 {
            return Ok(
                QueueOutcome::AlreadyInQueue {
                    title: dupes[0].0.clone(),
                    artist: dupes[0].1.clone(),
                    size: dupes[0].2,
                    more: 0,
                },
            );
        }
        match find_error(&errors, None) {
            Some(outcome) => {
                return Ok(outcome);
            },
            None => {},
        }
    }
    Ok(QueueOutcome::NothingAdded)
}

/// A single-object request that added its object reports no duplicate and no
/// error, whatever events were buffered.
pub proof fn single_requests_ignore_foreign_events(
    added: Seq<crate::json::JsonView>,
    errors: Seq<ErrorView>,
    duplicates: Seq<DuplicateView>,
    url: Seq<char>,
)
    requires
        added.len() > 0,
    ensures
        confirmed_outcome(added, errors, duplicates, url, false) == confirmed_outcome(
            added,
            Seq::empty(),
            Seq::empty(),
            url,
            false,
        ),
{
}

/// The events since `started`.
pub open spec fn fresh_events(events: Seq<WsEvent>, started: u64) -> Seq<WsEvent> {
    events.filter(|e: WsEvent| e.ts >= started)
}

proof fn lemma_fresh_events(events: Seq<WsEvent>, started: u64)
    ensures
        errors_since(fresh_events(events, started), started) == errors_since(events, started),
        duplicates_since(fresh_events(events, started), started) == duplicates_since(
            events,
            started,
        ),
    decreases events.len(),
{
    reveal(Seq::filter);
    if events.len() > 0 {
        let front = events.drop_last();
        lemma_fresh_events(front, started);
        if events.last().ts >= started {
            let fresh = fresh_events(front, started).push(events.last());
            assert(fresh_events(events, started) == fresh);
            assert(fresh.drop_last() =~= fresh_events(front, started));
        } else {
            assert(fresh_events(events, started) == fresh_events(front, started));
        }
    }
}

/// Events from before the request began do not count, wherever in the buffer
/// they stand: the outcome is what it would be without them.
pub proof fn stale_events_do_not_count(
    added: Seq<crate::json::JsonView>,
    events: Seq<WsEvent>,
    started: u64,
    url: Seq<char>,
    artist: bool,
)
    ensures
        confirmed_outcome(
            added,
            errors_since(events, started),
            duplicates_since(events, started),
            url,
            artist,
        ) == confirmed_outcome(
            added,
            errors_since(fresh_events(events, started), started),
            duplicates_since(fresh_events(events, started), started),
            url,
            artist,
        ),
{
    lemma_fresh_events(events, started);
}

/// What a whole exchange about one link comes to, given the four answers that
/// it may see: to the first request, of the login file, to the login and to
/// the second request.
pub open spec fn queue_exchange(
    config: crate::config::ConfigView,
    bitrate: u8,
    url: Seq<char>,
    first: Result<crate::json::JsonView, Seq<char>>,
    login_file: Option<Seq<char>>,
    current_arl: Seq<char>,
    login: Result<crate::json::JsonView, Seq<char>>,
    second: Result<crate::json::JsonView, Seq<char>>,
) -> Result<Seq<crate::json::JsonView>, Seq<char>> {
    match queued_objects(first) {
        Err(e) => if !is_expired(e) {
            Err(e)
        } else if renewal_arl(login_file, current_arl).len() == 0 {
            Err("Session expired and no ARL is configured"@)
        } else {
            match retry_view(login, config, bitrate, url) {
                Err(e) => Err(e),
                Ok(_) => queued_objects(second),
            }
        },
        Ok(objects) => Ok(objects),
    }
}

/// An expired session costs one login and one retry: where both succeed, the
/// objects of the retry are the outcome, and a session that is refused again
/// is reported, not retried.
pub proof fn expired_sessions_are_renewed_once(
    config: crate::config::ConfigView,
    bitrate: u8,
    url: Seq<char>,
    first: Result<crate::json::JsonView, Seq<char>>,
    login_file: Option<Seq<char>>,
    current_arl: Seq<char>,
    login: Result<crate::json::JsonView, Seq<char>>,
    second: Result<crate::json::JsonView, Seq<char>>,
)
    requires
        queued_objects(first) matches Err(e) && is_expired(e),
        renewal_arl(login_file, current_arl).len() > 0,
        login_outcome(login) is Ok,
    ensures
        queue_exchange(config, bitrate, url, first, login_file, current_arl, login, second)
            == queued_objects(second),
        retry_view(login, config, bitrate, url) == Ok::<_, Seq<char>>(
            queue_request(config, bitrate, url),
        ),
{
}

// ── The queue ────────────────────────────────────────────────────────────────

/// How many items of the queue are in each state.
#[derive(Clone, Copy, Debug, PartialEq, Eq, Structural)]
pub struct QueueStatus {
    pub pending: usize,
    pub downloading: usize,
    pub done: usize,
    pub failed: usize,
}

impl DeepView for QueueStatus {
    type V = QueueStatus;

    open spec fn deep_view(&self) -> QueueStatus {
        *self
    }
}

/// The state of one item of the queue.
#[derive(Clone, Copy, Debug, PartialEq, Eq, Structural)]
pub enum ItemState {
    Pending,
    Downloading,
    Done,
    Failed,
}

/// All of an item has been downloaded, as its counters say.
pub open spec fn counts_as_complete(item: crate::json::JsonView) -> bool {
    item.field("downloaded"@).unsigned_or(0) >= item.field("size"@).unsigned_or(1) && item.field(
        "size"@,
    ).unsigned_or(1) > 0
}

/// The state of an item: its status, or what its counters say where it has no
/// status that deemix uses.
pub open spec fn item_state(item: crate::json::JsonView) -> ItemState {
    let status = item.field("status"@).str();
    if status == Some("completed"@) || status == Some("withErrors"@) {
        ItemState::Done
    } else if status == Some("failed"@) {
        ItemState::Failed
    } else if status == Some("downloading"@) {
        ItemState::Downloading
    } else if status == Some("inQueue"@) {
        ItemState::Pending
    } else if counts_as_complete(item) {
        ItemState::Done
    } else if item.field("progress"@).unsigned_or(0) > 0 {
        ItemState::Downloading
    } else {
        ItemState::Pending
    }
}

/// The number of items in state `s`.
pub open spec fn items_in_state(
    entries: Seq<(Seq<char>, crate::json::JsonView)>,
    s: ItemState,
) -> nat
    decreases entries.len(),
{
    if entries.len() == 0 {
        0
    } else {
        items_in_state(entries.drop_last(), s) + if item_state(entries.last().1) == s {
            1nat
        } else {
            0
        }
    }
}

/// The entries of the queue that a reply shows; none where it shows no queue.
pub open spec fn queue_entries(reply: crate::json::JsonView) -> Seq<
    (Seq<char>, crate::json::JsonView),
> {
    match reply.field("queue"@).object() {
        Some(o) => o,
        None => Seq::empty(),
    }
}

fn is_complete(item: &Json) -> (r: bool)
    ensures
        r == counts_as_complete(item.deep_view()),
{
    let downloaded: u64 = item.field("downloaded").u64_or(0);
    let size: u64 = item.field("size").u64_or(1);
    downloaded >= size && size > 0
}

/// The state of one item.
pub fn state_of(item: &Json) -> (r: ItemState)
    ensures
        r == item_state(item.deep_view()),
{
    let status = item.field("status");
    if status.is_text("completed") || status.is_text("withErrors") {
        ItemState::Done
    } else if status.is_text("failed") {
        ItemState::Failed
    } else if status.is_text("downloading") {
        ItemState::Downloading
    } else if status.is_text("inQueue") {
        ItemState::Pending
    } else if is_complete(item) {
        ItemState::Done
    } else if item.field("progress").u64_or(0) > 0 {
        ItemState::Downloading
    } else {
        ItemState::Pending
    }
}

/// The four states cover every item, and each item has one of them.
pub proof fn every_item_is_counted_once(entries: Seq<(Seq<char>, crate::json::JsonView)>)
    ensures
        items_in_state(entries, ItemState::Pending) + items_in_state(entries, ItemState::Downloading)
            + items_in_state(entries, ItemState::Done) + items_in_state(entries, ItemState::Failed)
            == entries.len(),
    decreases entries.len(),
{
    if entries.len() > 0 {
        every_item_is_counted_once(entries.drop_last());
    }
}

pub open spec fn list_request(config: crate::config::ConfigView) -> crate::http::HttpRequestView {
    crate::http::bare(Method::Get, endpoint(config, "/api/getQueue"@))
}

/// The request that reads the queue.
pub fn get_queue_request(config: &Config) -> (r: HttpRequest)
    ensures
        r.deep_view() == list_request(config.deep_view()),
{
    request(Method::Get, endpoint_url(config, "/api/getQueue"))
}

/// The counts `s` are those of the entries.
pub open spec fn counts_items(
    s: QueueStatus,
    entries: Seq<(Seq<char>, crate::json::JsonView)>,
) -> bool {
    &&& s.pending == items_in_state(entries, ItemState::Pending)
    &&& s.downloading == items_in_state(entries, ItemState::Downloading)
    &&& s.done == items_in_state(entries, ItemState::Done)
    &&& s.failed == items_in_state(entries, ItemState::Failed)
}

/// Counts the items of the queue that a reply shows.
pub fn get_queue(reply: Result<Json, String>) -> (r: Result<QueueStatus, String>)
    ensures
        match reply {
            Err(e) => r is Err && r->Err_0@ == e@,
            Ok(data) => r is Ok && counts_items(r->Ok_0, queue_entries(data.deep_view())),
        },
{
    let data = match reply {
        Ok(data) => data,
        Err(e) => {
            return Err(e);
        },
    };
    let mut s = QueueStatus { pending: 0, downloading: 0, done: 0, failed: 0 };
    match data.field("queue").as_object() {
        Some(queue) => {
            let ghost all = queue.deep_view();
            let mut i: usize = 0;
            while i < queue.len()
                invariant
                    all == queue.deep_view(),
                    i <= queue@.len(),
                    counts_items(s, all.take(i as int)),
                decreases queue@.len() - i,
            {
                proof {
                    assert(all.take(i + 1).drop_last() == all.take(i as int));
                    assert(all.take(i + 1).last() == queue@[i as int].deep_view());
                    every_item_is_counted_once(all.take(i as int));
                }
                match state_of(&queue[i].1) {
                    ItemState::Pending => {
                        s.pending += 1;
                    },
                    ItemState::Downloading => {
                        s.downloading += 1;
                    },
                    ItemState::Done => {
                        s.done += 1;
                    },
                    ItemState::Failed => {
                        s.failed += 1;
                    },
                }
                i += 1;
            }
            assert(all.take(i as int) == all);
        },
        None => {},
    }
    Ok(s)
}

// ── Clearing ─────────────────────────────────────────────────────────────────

/// An item that deemix itself removes with its finished downloads.
pub open spec fn is_finished(item: crate::json::JsonView) -> bool {
    item.field("status"@).str() == Some("completed"@)
}

/// An item that has ended and has to be removed by name: one that failed, and
/// one without a status whose counters say that it is complete.
pub open spec fn is_removed_by_name(item: crate::json::JsonView) -> bool {
    match item.field("status"@).str() {
        Some(status) => status != "completed"@ && (status == "failed"@ || status == "withErrors"@),
        None => counts_as_complete(item),
    }
}

/// The number of items that deemix itself removes.
pub open spec fn finished_count(entries: Seq<(Seq<char>, crate::json::JsonView)>) -> nat
    decreases entries.len(),
{
    if entries.len() == 0 {
        0
    } else {
        finished_count(entries.drop_last()) + if is_finished(entries.last().1) {
            1nat
        } else {
            0
        }
    }
}

/// The names of the items that have to be removed one by one, in order.
pub open spec fn names_to_remove(entries: Seq<(Seq<char>, crate::json::JsonView)>) -> Seq<Seq<char>>
    decreases entries.len(),
{
    if entries.len() == 0 {
        Seq::empty()
    } else {
        let rest = names_to_remove(entries.drop_last());
        if is_removed_by_name(entries.last().1) {
            rest.push(entries.last().0)
        } else {
            rest
        }
    }
}

/// No item is removed twice, so no more are removed than the queue holds.
pub proof fn clearing_stays_within_the_queue(entries: Seq<(Seq<char>, crate::json::JsonView)>)
    ensures
        finished_count(entries) + names_to_remove(entries).len() <= entries.len(),
    decreases entries.len(),
{
    if entries.len() > 0 {
        clearing_stays_within_the_queue(entries.drop_last());
    }
}

/// Clearing never touches an item that waits or downloads, as `item_state`
/// tells it.
pub proof fn clearing_spares_unfinished_items(item: crate::json::JsonView)
    requires
        item_state(item) == ItemState::Pending || item_state(item) == ItemState::Downloading,
    ensures
        !is_finished(item),
        !is_removed_by_name(item),
{
}

/// A clearing in progress.
pub struct Clearing {
    individual: Vec<String>,
    next: usize,
    finished: usize,
    cleared: usize,
}

pub ghost struct ClearingView {
    /// The names to remove one by one.
    pub individual: Seq<Seq<char>>,
    /// How many of them have been answered.
    pub next: nat,
    /// How many items deemix removes itself.
    pub finished: nat,
    /// How many items are gone.
    pub cleared: nat,
}

impl DeepView for Clearing {
    type V = ClearingView;

    closed spec fn deep_view(&self) -> ClearingView {
        ClearingView {
            individual: self.individual.deep_view(),
            next: self.next as nat,
            finished: self.finished as nat,
            cleared: self.cleared as nat,
        }
    }
}

/// What to do next about a clearing.
pub enum ClearStep {
    /// Nothing: this is the outcome, the number of items that are gone.
    Return(Result<usize, String>),
    /// Have deemix remove its finished downloads, then go on with
    /// [`Clearing::finished_removed`].
    RemoveFinished(Clearing, HttpRequest),
    /// Remove one item, then go on with [`Clearing::one_removed`].
    RemoveOne(Clearing, HttpRequest),
}

#[verifier::ext_equal]
pub ghost enum ClearStepView {
    Return(Result<nat, Seq<char>>),
    RemoveFinished(ClearingView, crate::http::HttpRequestView),
    RemoveOne(ClearingView, crate::http::HttpRequestView),
}

impl DeepView for ClearStep {
    type V = ClearStepView;

    open spec fn deep_view(&self) -> ClearStepView {
        match self {
            ClearStep::Return(Ok(n)) => ClearStepView::Return(Ok(*n as nat)),
            ClearStep::Return(Err(e)) => ClearStepView::Return(Err(e@)),
            ClearStep::RemoveFinished(c, q) => ClearStepView::RemoveFinished(
                c.deep_view(),
                q.deep_view(),
            ),
            ClearStep::RemoveOne(c, q) => ClearStepView::RemoveOne(c.deep_view(), q.deep_view()),
        }
    }
}

pub open spec fn remove_finished_request(
    config: crate::config::ConfigView,
) -> crate::http::HttpRequestView {
    crate::http::bare(Method::Post, endpoint(config, "/api/removeFinishedDownloads"@))
}

/// The name goes into the query, not into a body.
pub open spec fn remove_one_request(
    config: crate::config::ConfigView,
    name: Seq<char>,
) -> crate::http::HttpRequestView {
    crate::http::bare(Method::Post, endpoint(config, "/api/removeFromQueue"@)).with_query(
        "uuid"@,
        name,
    )
}

/// Removes the next item by name, if there is one left.
pub open spec fn remove_next(config: crate::config::ConfigView, c: ClearingView) -> ClearStepView {
    if c.next < c.individual.len() {
        ClearStepView::RemoveOne(c, remove_one_request(config, c.individual[c.next as int]))
    } else {
        ClearStepView::Return(Ok(c.cleared))
    }
}

/// The first step of a clearing, from the reply that shows the queue.
pub open spec fn clear_first(
    config: crate::config::ConfigView,
    reply: Result<crate::json::JsonView, Seq<char>>,
) -> ClearStepView {
    match reply {
        Err(e) => ClearStepView::Return(Err(e)),
        Ok(data) => {
            let c = ClearingView {
                individual: names_to_remove(queue_entries(data)),
                next: 0,
                finished: finished_count(queue_entries(data)),
                cleared: 0,
            };
            if c.finished > 0 {
                ClearStepView::RemoveFinished(c, remove_finished_request(config))
            } else {
                remove_next(config, c)
            }
        },
    }
}

/// The step after deemix was asked to remove its finished downloads: an error,
/// or a refusal, ends the clearing.
pub open spec fn clear_after_finished(
    config: crate::config::ConfigView,
    c: ClearingView,
    answer: Result<Answer, String>,
) -> ClearStepView {
    match answer {
        Err(e) => ClearStepView::Return(Err(e@)),
        Ok(a) => if a.success {
            remove_next(config, ClearingView { cleared: c.finished, ..c })
        } else {
            ClearStepView::Return(Err("removeFinishedDownloads failed: "@ + a.status@))
        },
    }
}

/// The clearing after one removal was answered: only a success counts.
pub open spec fn after_removal(c: ClearingView, answer: Result<Answer, String>) -> ClearingView {
    if c.next < c.individual.len() {
        ClearingView {
            next: c.next + 1,
            cleared: c.cleared + if answer is Ok && answer->Ok_0.success {
                1nat
            } else {
                0
            },
            ..c
        }
    } else {
        c
    }
}

/// The step after one item was to be removed: nothing but the end of the list
/// ends the clearing.
pub open spec fn clear_after_one(
    config: crate::config::ConfigView,
    c: ClearingView,
    answer: Result<Answer, String>,
) -> ClearStepView {
    remove_next(config, after_removal(c, answer))
}

/// The clearing after a sequence of removals was answered.
pub open spec fn after_removals(
    c: ClearingView,
    answers: Seq<Result<Answer, String>>,
) -> ClearingView
    decreases answers.len(),
{
    if answers.len() == 0 {
        c
    } else {
        after_removal(after_removals(c, answers.drop_last()), answers.last())
    }
}

/// The number of answers that report success.
pub open spec fn successes(answers: Seq<Result<Answer, String>>) -> nat
    decreases answers.len(),
{
    if answers.len() == 0 {
        0
    } else {
        successes(answers.drop_last()) + if answers.last() is Ok && answers.last()->Ok_0.success {
            1nat
        } else {
            0
        }
    }
}

proof fn lemma_after_removals(c: ClearingView, answers: Seq<Result<Answer, String>>)
    requires
        c.next + answers.len() <= c.individual.len(),
    ensures
        after_removals(c, answers) == (ClearingView {
            next: c.next + answers.len(),
            cleared: c.cleared + successes(answers),
            ..c
        }),
    decreases answers.len(),
{
    if answers.len() > 0 {
        lemma_after_removals(c, answers.drop_last());
    }
}

/// A clearing asks about each name once, in order, and then reports the items
/// that deemix removed itself and one for each removal that succeeded.
pub proof fn clearing_counts_what_is_gone(
    config: crate::config::ConfigView,
    entries: Seq<(Seq<char>, crate::json::JsonView)>,
    answers: Seq<Result<Answer, String>>,
)
    requires
        answers.len() <= names_to_remove(entries).len(),
    ensures
        ({
            let c = ClearingView {
                individual: names_to_remove(entries),
                next: 0,
                finished: finished_count(entries),
                cleared: finished_count(entries),
            };
            remove_next(config, after_removals(c, answers)) == if answers.len()
                < names_to_remove(entries).len() {
                ClearStepView::RemoveOne(
                    after_removals(c, answers),
                    remove_one_request(config, names_to_remove(entries)[answers.len() as int]),
                )
            } else {
                ClearStepView::Return(Ok(finished_count(entries) + successes(answers)))
            }
        }),
{
    let c = ClearingView {
        individual: names_to_remove(entries),
        next: 0,
        finished: finished_count(entries),
        cleared: finished_count(entries),
    };
    lemma_after_removals(c, answers);
}

impl Clearing {
    #[verifier::type_invariant]
    spec fn wf(self) -> bool {
        &&& self.finished + self.individual@.len() <= usize::MAX
        &&& self.next <= self.individual@.len()
        &&& self.cleared <= self.finished + self.next
    }

    fn remove_next(self, config: &Config) -> (r: ClearStep)
        ensures
            r.deep_view() == remove_next(config.deep_view(), self.deep_view()),
    {
        if self.next < self.individual.len() {
            let q = request(Method::Post, endpoint_url(config, "/api/removeFromQueue")).query(
                "uuid",
                self.individual[self.next].as_str(),
            );
            ClearStep::RemoveOne(self, q)
        } else {
            ClearStep::Return(Ok(self.cleared))
        }
    }

    pub fn finished_removed(self, config: &Config, answer: Result<Answer, String>) -> (r: ClearStep)
        ensures
            r.deep_view() == clear_after_finished(config.deep_view(), self.deep_view(), answer),
    {
        match answer {
            Err(e) => ClearStep::Return(Err(e)),
            Ok(a) => if a.success {
                let ghost before = self.deep_view();
                proof {
                    use_type_invariant(&self);
                }
                let cleared: usize = self.finished;
                let c = Clearing {
                    individual: self.individual,
                    next: self.next,
                    finished: self.finished,
                    cleared,
                };
                assert(c.deep_view() == ClearingView { cleared: before.finished, ..before });
                c.remove_next(config)
            } else {
                ClearStep::Return(
                    Err("removeFinishedDownloads failed: ".to_owned().concat(a.status.as_str())),
                )
            },
        }
    }

    pub fn one_removed(self, config: &Config, answer: Result<Answer, String>) -> (r: ClearStep)
        ensures
            r.deep_view() == clear_after_one(config.deep_view(), self.deep_view(), answer),
    {
        let ghost before = self.deep_view();
        if self.next >= self.individual.len() {
            return self.remove_next(config);
        }
        proof {
            use_type_invariant(&self);
        }
        let removed = match &answer {
            Ok(a) => a.success,
            Err(_) => false,
        };
        let cleared: usize = if removed {
            self.cleared + 1
        } else {
            self.cleared
        };
        let c = Clearing {
            individual: self.individual,
            next: self.next + 1,
            finished: self.finished,
            cleared,
        };
        assert(c.deep_view() == ClearingView {
            next: before.next + 1,
            cleared: cleared as nat,
            ..before
        });
        c.remove_next(config)
    }
}

/// Begins to clear the queue of all that has ended, from the reply that shows
/// the queue.
pub fn clear_completed(config: &Config, reply: Result<Json, String>) -> (r: ClearStep)
    ensures
        r.deep_view() == clear_first(config.deep_view(), crate::flow::result_view(reply)),
{
    let data = match reply {
        Ok(data) => data,
        Err(e) => {
            return ClearStep::Return(Err(e));
        },
    };
    let mut finished: usize = 0;
    let mut individual: Vec<String> = Vec::new();
    let ghost entries = queue_entries(data.deep_view());
    match data.field("queue").as_object() {
        Some(queue) => {
            let mut i: usize = 0;
            while i < queue.len()
                invariant
                    entries == queue.deep_view(),
                    i <= queue@.len(),
                    finished == finished_count(entries.take(i as int)),
                    individual.deep_view() == names_to_remove(entries.take(i as int)),
                decreases queue@.len() - i,
            {
                proof {
                    assert(entries.take(i + 1).drop_last() == entries.take(i as int));
                    assert(entries.take(i + 1).last() == queue@[i as int].deep_view());
                    clearing_stays_within_the_queue(entries.take(i as int));
                }
                let ghost before = individual.deep_view();
                let item = &queue[i].1;
                let status = item.field("status");
                if status.is_text("completed") {
                    finished += 1;
                } else {
                    let by_name = match status.as_str() {
                        Some(_) => status.is_text("failed") || status.is_text("withErrors"),
                        None => is_complete(item),
                    };
                    if by_name {
                        individual.push(queue[i].0.clone());
                        assert(individual.deep_view() =~= before.push(queue@[i as int].0@));
                    }
                }
                i += 1;
            }
            proof {
                assert(entries.take(i as int) == entries);
                clearing_stays_within_the_queue(entries);
            }
        },
        None => {
            assert(individual.deep_view() =~= names_to_remove(entries));
        },
    }
    let c = Clearing { individual, next: 0, finished, cleared: 0 };
    if finished > 0 {
        let q = request(Method::Post, endpoint_url(config, "/api/removeFinishedDownloads"));
        ClearStep::RemoveFinished(c, q)
    } else {
        c.remove_next(config)
    }
}

// ── Searching ────────────────────────────────────────────────────────────────

pub open spec fn search_view(
    config: crate::config::ConfigView,
    query: Seq<char>,
    search_type: Seq<char>,
) -> crate::http::HttpRequestView {
    crate::http::bare(Method::Get, endpoint(config, "/api/search"@)).with_query(
        "term"@,
        query,
    ).with_query("type"@, search_type)
}

/// The request that searches Deezer.
pub fn search_request(config: &Config, query: &str, search_type: &str) -> (r: HttpRequest)
    ensures
        r.deep_view() == search_view(config.deep_view(), query@, search_type@),
{
    request(Method::Get, endpoint_url(config, "/api/search")).query("term", query).query(
        "type",
        search_type,
    )
}

/// The most results that are offered.
pub const MAX_RESULTS: usize = 8;

/// The results in a reply: its `data`, or else the `data` of its `results`.
pub open spec fn results_in(data: crate::json::JsonView) -> Seq<crate::json::JsonView> {
    if data.field("data"@).array() is Some {
        data.field("data"@).items()
    } else {
        data.field("results"@).field("data"@).items()
    }
}

/// The first results in a reply.
pub open spec fn search_outcome(reply: Result<crate::json::JsonView, Seq<char>>) -> Result<
    Seq<crate::json::JsonView>,
    Seq<char>,
> {
    match reply {
        Err(e) => Err(e),
        Ok(data) => Ok(
            if results_in(data).len() > MAX_RESULTS {
                results_in(data).take(MAX_RESULTS as int)
            } else {
                results_in(data)
            },
        ),
    }
}

/// Reads the reply to a search.
pub fn search(reply: Result<Json, String>) -> (r: Result<Vec<Json>, String>)
    ensures
        crate::flow::result_view(r) == search_outcome(crate::flow::result_view(reply)),
        r is Ok ==> r->Ok_0@.len() <= MAX_RESULTS,
{
    match reply {
        Err(e) => Err(e),
        Ok(data) => {
            let direct = data.field("data");
            let r = match direct.as_array() {
                Some(_) => direct.first_items(MAX_RESULTS),
                None => data.field("results").field("data").first_items(MAX_RESULTS),
            };
            assert(r.deep_view().len() == r@.len());
            Ok(r)
        },
    }
}

// ── What holds of replies ────────────────────────────────────────────────────

/// The best results come first: a search gives the first eight of them, in the
/// order of the reply, or all where there are fewer. They stand in `data`, or
/// else in the `data` of `results`.
pub proof fn the_best_results_are_kept(data: crate::json::JsonView, i: int)
    requires
        0 <= i < 8,
    ensures
        data.field("data"@) matches crate::json::JsonView::Array(a) ==> (search_outcome(
            Ok(data),
        ) matches Ok(r) && r.len() == (if a.len() < 8 {
            a.len()
        } else {
            8
        }) && (i < a.len() ==> r[i] == a[i])),
        !(data.field("data"@) is Array) ==> (data.field("results"@).field(
            "data"@,
        ) matches crate::json::JsonView::Array(a) ==> (search_outcome(Ok(data)) matches Ok(r)
            && r.len() == (if a.len() < 8 {
            a.len()
        } else {
            8
        }) && (i < a.len() ==> r[i] == a[i]))),
        !(data.field("data"@) is Array) && !(data.field("results"@).field("data"@) is Array)
            ==> search_outcome(Ok(data)) == Ok::<_, Seq<char>>(
            Seq::<crate::json::JsonView>::empty(),
        ),
{
}

/// Results that stand behind the first eight make no difference.
pub proof fn later_results_do_not_count(
    data: crate::json::JsonView,
    more: crate::json::JsonView,
    a: Seq<crate::json::JsonView>,
    b: Seq<crate::json::JsonView>,
)
    requires
        a.len() >= 8,
        data.field("data"@) == crate::json::JsonView::Array(a),
        more.field("data"@) == crate::json::JsonView::Array(a + b),
    ensures
        search_outcome(Ok(more)) == search_outcome(Ok(data)),
{
    assert((a + b).take(8) =~= a.take(8));
    assert(a.take(8).len() == 8);
    if a.len() == 8 {
        assert(a.take(8) =~= a);
    }
}

/// An item of the queue has ended with something missing.
pub open spec fn has_ended_badly(item: crate::json::JsonView) -> bool {
    item.field("status"@) == crate::json::JsonView::Str("failed"@) || item.field("status"@)
        == crate::json::JsonView::Str("withErrors"@)
}

/// An item of the queue that shows by its counters alone that all of it is there.
pub open spec fn is_all_there(item: crate::json::JsonView) -> bool {
    &&& !(item.field("status"@) is Str)
    &&& item.field("size"@).unsigned_or(1) > 0
    &&& item.field("downloaded"@).unsigned_or(0) >= item.field("size"@).unsigned_or(1)
}

/// Each item that has failed or ended with errors is removed by name, whatever
/// else it shows, and so is each one without a status of which all is there.
pub proof fn what_has_ended_is_removed_by_name(
    entries: Seq<(Seq<char>, crate::json::JsonView)>,
    i: int,
)
    requires
        0 <= i < entries.len(),
        has_ended_badly(entries[i].1) || is_all_there(entries[i].1),
    ensures
        names_to_remove(entries).contains(entries[i].0),
    decreases entries.len(),
{
    reveal_strlit("completed");
    reveal_strlit("failed");
    reveal_strlit("withErrors");
    assert("completed"@.len() == 9 && "failed"@.len() == 6 && "withErrors"@.len() == 10);
    let front = entries.drop_last();
    let rest = names_to_remove(front);
    let all = names_to_remove(entries);
    if i < front.len() {
        what_has_ended_is_removed_by_name(front, i);
        let k = choose|k: int| 0 <= k < rest.len() && rest[k] == front[i].0;
        assert(all[k] == entries[i].0);
    } else {
        assert(all.last() == entries[i].0);
        assert(all[all.len() - 1] == entries[i].0);
    }
}

/// No other item is removed by name.
pub proof fn nothing_else_is_removed_by_name(
    entries: Seq<(Seq<char>, crate::json::JsonView)>,
    name: Seq<char>,
)
    requires
        names_to_remove(entries).contains(name),
    ensures
        exists|i: int|
            0 <= i < entries.len() && (#[trigger] entries[i]).0 == name && (has_ended_badly(
                entries[i].1,
            ) || is_all_there(entries[i].1)),
    decreases entries.len(),
{
    if entries.len() > 0 {
        let front = entries.drop_last();
        let rest = names_to_remove(front);
        let all = names_to_remove(entries);
        let k = choose|k: int| 0 <= k < all.len() && all[k] == name;
        if k < rest.len() {
            assert(rest[k] == name);
            nothing_else_is_removed_by_name(front, name);
            let i = choose|i: int|
                0 <= i < front.len() && (#[trigger] front[i]).0 == name && (has_ended_badly(
                    front[i].1,
                ) || is_all_there(front[i].1));
            assert(entries[i] == front[i]);
        } else {
            assert(entries[entries.len() - 1].0 == name);
        }
    }
}

/// The items of a queue are gone through one after another.
pub proof fn a_queue_is_cleared_in_order(
    a: Seq<(Seq<char>, crate::json::JsonView)>,
    b: Seq<(Seq<char>, crate::json::JsonView)>,
)
    ensures
        names_to_remove(a + b) == names_to_remove(a) + names_to_remove(b),
        finished_count(a + b) == finished_count(a) + finished_count(b),
    decreases b.len(),
{
    if b.len() == 0 {
        assert(a + b =~= a);
        assert(names_to_remove(a) + names_to_remove(b) =~= names_to_remove(a));
    } else {
        a_queue_is_cleared_in_order(a, b.drop_last());
        assert((a + b).drop_last() =~= a + b.drop_last());
        assert((a + b).last() == b.last());
        assert(names_to_remove(a + b) =~= names_to_remove(a) + names_to_remove(b));
    }
}

/// deemix itself removes the completed items and no others.
pub proof fn completed_items_are_left_to_deemix(
    entries: Seq<(Seq<char>, crate::json::JsonView)>,
)
    ensures
        finished_count(entries) > 0 <==> exists|i: int|
            0 <= i < entries.len() && (#[trigger] entries[i]).1.field("status"@)
                == crate::json::JsonView::Str("completed"@),
        (forall|i: int|
            0 <= i < entries.len() ==> (#[trigger] entries[i]).1.field("status"@)
                == crate::json::JsonView::Str("completed"@)) ==> finished_count(entries)
            == entries.len() && names_to_remove(entries).len() == 0,
    decreases entries.len(),
{
    if entries.len() > 0 {
        let front = entries.drop_last();
        completed_items_are_left_to_deemix(front);
        assert(entries.last() == entries[entries.len() - 1]);
        if finished_count(front) > 0 {
            let i = choose|i: int|
                0 <= i < front.len() && (#[trigger] front[i]).1.field("status"@)
                    == crate::json::JsonView::Str("completed"@);
            assert(entries[i] == front[i]);
        }
        assert forall|i: int|
            0 <= i < front.len() && (#[trigger] entries[i]).1.field("status"@)
                == crate::json::JsonView::Str("completed"@) implies front[i].1.field("status"@)
            == crate::json::JsonView::Str("completed"@) by {
            assert(front[i] == entries[i]);
        }
        assert(forall|i: int| 0 <= i < front.len() ==> #[trigger] front[i] == entries[i]);
    }
}

/// Clearing a queue begins with the completed items, where there are any. What
/// else has ended is then removed one by one, each by its own name, and nothing
/// is reported as gone before it was asked for.
pub proof fn clearing_asks_for_what_has_ended(
    config: crate::config::ConfigView,
    data: crate::json::JsonView,
    entries: Seq<(Seq<char>, crate::json::JsonView)>,
)
    requires
        data.field("queue"@) == crate::json::JsonView::Object(entries),
    ensures
        match clear_first(config, Ok(data)) {
            ClearStepView::RemoveFinished(c, request) => {
                &&& finished_count(entries) > 0
                &&& c.individual == names_to_remove(entries)
                &&& c.next == 0
                &&& c.finished == finished_count(entries)
                &&& c.cleared == 0
                &&& request == (crate::http::HttpRequestView {
                    method: Method::Post,
                    url: config.deemix_url + "/api/removeFinishedDownloads"@,
                    query: Seq::empty(),
                    headers: Seq::empty(),
                    body: None,
                })
            },
            ClearStepView::RemoveOne(c, request) => {
                &&& finished_count(entries) == 0
                &&& names_to_remove(entries).len() > 0
                &&& c.individual == names_to_remove(entries)
                &&& c.next == 0
                &&& c.cleared == 0
                &&& request == (crate::http::HttpRequestView {
                    method: Method::Post,
                    url: config.deemix_url + "/api/removeFromQueue"@,
                    query: seq![("uuid"@, names_to_remove(entries)[0])],
                    headers: Seq::empty(),
                    body: None,
                })
            },
            ClearStepView::Return(outcome) => {
                &&& finished_count(entries) == 0
                &&& names_to_remove(entries).len() == 0
                &&& outcome == Ok::<nat, Seq<char>>(0)
            },
        },
{
    if names_to_remove(entries).len() > 0 {
        assert(remove_one_request(config, names_to_remove(entries)[0]).query =~= seq![
            ("uuid"@, names_to_remove(entries)[0]),
        ]);
    }
}

/// A clearing that deemix refuses to begin ends with the error. One that goes on
/// counts an item only where its removal succeeded, and asks for the next name
/// whatever the answer was.
pub proof fn only_answered_removals_count(
    config: crate::config::ConfigView,
    c: ClearingView,
    answer: Answer,
    e: String,
)
    requires
        c.next < c.individual.len(),
    ensures
        clear_after_finished(config, c, Err(e)) == ClearStepView::Return(Err(e@)),
        !answer.success ==> clear_after_finished(config, c, Ok(answer)) is Return,
        answer.success ==> (clear_after_finished(
            config,
            c,
            Ok(answer),
        ) matches ClearStepView::RemoveOne(after, request) && after.cleared == c.finished
            && after.next == c.next && after.individual == c.individual && request.query == seq![
            ("uuid"@, c.individual[c.next as int]),
        ]),
        after_removal(c, Err(e)).cleared == c.cleared,
        after_removal(c, Err(e)).next == c.next + 1,
        after_removal(c, Ok(answer)).cleared == c.cleared + (if answer.success {
            1nat
        } else {
            0
        }),
        after_removal(c, Ok(answer)).next == c.next + 1,
        after_removal(c, Ok(answer)).individual == c.individual,
        c.next + 1 < c.individual.len() ==> (clear_after_one(
            config,
            c,
            Ok(answer),
        ) matches ClearStepView::RemoveOne(after, request) && request.query == seq![
            ("uuid"@, c.individual[c.next as int + 1]),
        ]),
        c.next + 1 == c.individual.len() ==> clear_after_one(config, c, Ok(answer))
            == ClearStepView::Return(Ok(after_removal(c, Ok(answer)).cleared)),
{
}

// ── What holds of logging in and queueing ────────────────────────────────────

/// A login has succeeded exactly where deemix answers with status 1 or 2, and
/// then the user's name comes back as deemix gives it.
pub proof fn a_login_needs_status_one_or_two(data: crate::json::JsonView)
    ensures
        login_outcome(Ok(data)) is Ok <==> data.field("status"@).signed() == Some(1i64)
            || data.field("status"@).signed() == Some(2i64),
        login_outcome(Ok(data)) is Ok ==> (data.field("user"@).field(
            "name"@,
        ) matches crate::json::JsonView::Str(name) ==> login_outcome(Ok(data)) == Ok::<
            _,
            Seq<char>,
        >(name)),
        forall|e: Seq<char>| #[trigger]
            login_outcome(Err(e)) == Err::<Seq<char>, Seq<char>>(e),
{
}

/// Each request goes to the configured server and carries what it is about,
/// unchanged.
pub proof fn requests_carry_what_they_are_about(
    config: crate::config::ConfigView,
    arl: Seq<char>,
    bitrate: u8,
    link: Seq<char>,
    query: Seq<char>,
    kind: Seq<char>,
)
    ensures
        ({
            let r = login_request(config, arl);
            &&& r.method == Method::Post
            &&& r.url == config.deemix_url + "/api/loginArl"@
            &&& r.query.len() == 0
            &&& r.body matches Some(body) && body.field("arl"@) == crate::json::JsonView::Str(arl)
        }),
        ({
            let r = queue_request(config, bitrate, link);
            &&& r.method == Method::Post
            &&& r.url == config.deemix_url + "/api/addToQueue"@
            &&& r.query.len() == 0
            &&& r.body matches Some(body) && body.field("url"@) == crate::json::JsonView::Str(link)
                && body.field("bitrate"@).unsigned() == Some(bitrate as u64)
        }),
        ({
            let r = list_request(config);
            &&& r.method == Method::Get
            &&& r.url == config.deemix_url + "/api/getQueue"@
            &&& r.query.len() == 0
            &&& r.body is None
        }),
        ({
            let r = search_view(config, query, kind);
            &&& r.method == Method::Get
            &&& r.url == config.deemix_url + "/api/search"@
            &&& r.query == seq![("term"@, query), ("type"@, kind)]
            &&& r.body is None
        }),
{
    reveal_strlit("url");
    reveal_strlit("bitrate");
    assert("url"@.len() == 3 && "bitrate"@.len() == 7);
    reveal_with_fuel(crate::json::entry_value, 3);
    assert(search_view(config, query, kind).query =~= seq![("term"@, query), ("type"@, kind)]);
}

/// The ARL in the login file is used for logging in again, where there is one,
/// and else the one in use.
pub proof fn the_stored_arl_is_preferred(
    text: Seq<char>,
    document: crate::json::JsonView,
    stored: Seq<char>,
    current: Seq<char>,
)
    requires
        crate::json::json_document(text) == Some(document),
        document.field("arl"@) == crate::json::JsonView::Str(stored),
    ensures
        stored.len() > 0 ==> renewal_arl(Some(text), current) == stored,
        stored.len() == 0 ==> renewal_arl(Some(text), current) == current,
        renewal_arl(None, current) == current,
{
}

/// A queue request has succeeded exactly where deemix says so, and then all the
/// objects that it added come back in order.
pub proof fn added_objects_come_back(data: crate::json::JsonView)
    ensures
        queued_objects(Ok(data)) is Ok <==> data.field("result"@)
            == crate::json::JsonView::Bool(true),
        data.field("result"@) == crate::json::JsonView::Bool(true) ==> (data.field("data"@).field(
            "obj"@,
        ) matches crate::json::JsonView::Array(a) ==> queued_objects(Ok(data)) == Ok::<
            _,
            Seq<char>,
        >(a)),
        data.field("result"@) != crate::json::JsonView::Bool(true) ==> (data.field(
            "errid"@,
        ) matches crate::json::JsonView::Str(id) ==> queued_objects(Ok(data)) == Err::<
            Seq<crate::json::JsonView>,
            _,
        >(id)),
        forall|e: Seq<char>| #[trigger]
            queued_objects(Err(e)) == Err::<Seq<crate::json::JsonView>, _>(e),
{
}

/// A session has expired where the error is "notloggedin", in whatever case.
pub proof fn expiry_is_told_in_any_case(error: Seq<char>)
    ensures
        is_expired(error) <==> crate::text::ascii_lowered(error) == "notloggedin"@,
{
    reveal_strlit("notloggedin");
    let name = "notloggedin"@;
    assert forall|i: int| 0 <= i < name.len() implies crate::text::ascii_lower(#[trigger] name[i])
        == name[i] by {}
    if is_expired(error) {
        assert(crate::text::ascii_lowered(error) =~= name);
    }
    if crate::text::ascii_lowered(error) == name {
        assert(error.len() == name.len());
        assert forall|i: int| 0 <= i < error.len() implies crate::text::ascii_lower(
            #[trigger] error[i],
        ) == crate::text::ascii_lower(name[i]) by {
            assert(crate::text::ascii_lowered(error)[i] == name[i]);
        }
    }
}

// ── What holds of confirmations ──────────────────────────────────────────────

/// The tracks of all the objects are counted: those of an object that gives its
/// size, and one for any other.
pub proof fn every_added_track_is_counted(
    a: Seq<crate::json::JsonView>,
    b: Seq<crate::json::JsonView>,
    object: crate::json::JsonView,
)
    ensures
        tracks_in(a + b) == tracks_in(a) + tracks_in(b),
        object.field("size"@).unsigned() matches Some(n) ==> (n <= u32::MAX ==> tracks_in(
            seq![object],
        ) == n),
        object.field("size"@).unsigned() is None ==> tracks_in(seq![object]) == 1,
    decreases b.len(),
{
    assert(seq![object].drop_last() =~= Seq::<crate::json::JsonView>::empty());
    assert(tracks_in(seq![object].drop_last()) == 0);
    if b.len() == 0 {
        assert(a + b =~= a);
    } else {
        every_added_track_is_counted(a, b.drop_last(), object);
        assert((a + b).drop_last() =~= a + b.drop_last());
        assert((a + b).last() == b.last());
    }
}

/// A request that added something has succeeded, with the tracks of what it
/// added; it is a single track where that is all.
pub proof fn added_objects_are_a_success(
    added: Seq<crate::json::JsonView>,
    errors: Seq<ErrorView>,
    duplicates: Seq<DuplicateView>,
    url: Seq<char>,
    artist: bool,
)
    requires
        added.len() > 0,
    ensures
        confirmed_outcome(added, errors, duplicates, url, artist) matches QueueOutcomeView::Added {
            tracks,
            is_track,
            already,
            failed,
        } && tracks == tracks_in(added) && (is_track <==> added.len() == 1 && added[0].field(
            "type"@,
        ) == crate::json::JsonView::Str("track"@)) && already == (if artist {
            duplicates.len()
        } else {
            0
        }) && failed == (if artist {
            errors.len()
        } else {
            0
        }),
{
}

/// The first of the errors for a link is the one that is reported.
pub proof fn the_first_error_counts(errors: Seq<ErrorView>, link: Option<Seq<char>>, i: int)
    requires
        0 <= i < errors.len(),
        errors[i].0 == link,
        forall|j: int| 0 <= j < i ==> (#[trigger] errors[j]).0 != link,
    ensures
        first_error_for(errors, link) == Some(errors[i]),
    decreases i,
{
    if i > 0 {
        assert(errors[0].0 != link);
        let rest = errors.drop_first();
        assert forall|j: int| 0 <= j < i - 1 implies (#[trigger] rest[j]).0 != link by {
            assert(rest[j] == errors[j + 1]);
        }
        the_first_error_counts(rest, link, i - 1);
    }
}

proof fn lemma_no_error(errors: Seq<ErrorView>, link: Option<Seq<char>>)
    requires
        forall|j: int| 0 <= j < errors.len() ==> (#[trigger] errors[j]).0 != link,
    ensures
        first_error_for(errors, link) is None,
    decreases errors.len(),
{
    if errors.len() > 0 {
        assert(errors[0].0 != link);
        let rest = errors.drop_first();
        assert forall|j: int| 0 <= j < rest.len() implies (#[trigger] rest[j]).0 != link by {
            assert(rest[j] == errors[j + 1]);
        }
        lemma_no_error(rest, link);
    }
}

/// A single-object request that added nothing and whose link was rejected has
/// failed with the first error for that link, whatever else was reported.
pub proof fn a_rejected_link_has_failed(
    errors: Seq<ErrorView>,
    duplicates: Seq<DuplicateView>,
    url: Seq<char>,
    i: int,
)
    requires
        0 <= i < errors.len(),
        errors[i].0 == Some(url),
        forall|j: int| 0 <= j < i ==> (#[trigger] errors[j]).0 != Some(url),
    ensures
        confirmed_outcome(Seq::empty(), errors, duplicates, url, false) == (
        QueueOutcomeView::Failed { error: errors[i].1, errid: errors[i].2 }),
{
    the_first_error_counts(errors, Some(url), i);
}

/// A single-object request that added nothing and was not rejected by its link
/// was a duplicate where one was reported, and else was rejected where an error
/// named no link. Errors for other links do not count.
pub proof fn other_links_do_not_count(
    errors: Seq<ErrorView>,
    duplicates: Seq<DuplicateView>,
    url: Seq<char>,
)
    requires
        forall|j: int| 0 <= j < errors.len() ==> (#[trigger] errors[j]).0 != Some(url),
    ensures
        duplicates.len() > 0 ==> confirmed_outcome(Seq::empty(), errors, duplicates, url, false)
            == (QueueOutcomeView::AlreadyInQueue {
            title: duplicates[0].0,
            artist: duplicates[0].1,
            size: duplicates[0].2,
            more: 0,
        }),
        duplicates.len() == 0 && (forall|j: int|
            0 <= j < errors.len() ==> (#[trigger] errors[j]).0 is Some) ==> confirmed_outcome(
            Seq::empty(),
            errors,
            duplicates,
            url,
            false,
        ) == QueueOutcomeView::NothingAdded,
        forall|i: int|
            duplicates.len() == 0 && 0 <= i < errors.len() && (#[trigger] errors[i]).0 is None && (
            forall|j: int| 0 <= j < i ==> (#[trigger] errors[j]).0 is Some) ==> confirmed_outcome(
                Seq::empty(),
                errors,
                duplicates,
                url,
                false,
            ) == (QueueOutcomeView::Failed { error: errors[i].1, errid: errors[i].2 }),
{
    lemma_no_error(errors, Some(url));
    if forall|j: int| 0 <= j < errors.len() ==> (#[trigger] errors[j]).0 is Some {
        lemma_no_error(errors, None);
    }
    assert forall|i: int|
        duplicates.len() == 0 && 0 <= i < errors.len() && (#[trigger] errors[i]).0 is None && (
        forall|j: int|
            0 <= j < i ==> (#[trigger] errors[j]).0 is Some) implies confirmed_outcome(
        Seq::empty(),
        errors,
        duplicates,
        url,
        false,
    ) == (QueueOutcomeView::Failed { error: errors[i].1, errid: errors[i].2 }) by {
        the_first_error_counts(errors, None, i);
    }
}

/// An artist request that added nothing has failed with the first error, or was
/// the first duplicate, of which the others are counted.
pub proof fn an_artist_request_reports_the_first(
    errors: Seq<ErrorView>,
    duplicates: Seq<DuplicateView>,
    url: Seq<char>,
)
    ensures
        errors.len() > 0 ==> confirmed_outcome(Seq::empty(), errors, duplicates, url, true) == (
        QueueOutcomeView::Failed { error: errors[0].1, errid: errors[0].2 }),
        errors.len() == 0 && duplicates.len() > 0 ==> (confirmed_outcome(
            Seq::empty(),
            errors,
            duplicates,
            url,
            true,
        ) matches QueueOutcomeView::AlreadyInQueue { title, artist, size, more } && title
            == duplicates[0].0 && artist == duplicates[0].1 && size == duplicates[0].2 && more + 1
            == duplicates.len()),
        errors.len() == 0 && duplicates.len() == 0 ==> confirmed_outcome(
            Seq::empty(),
            errors,
            duplicates,
            url,
            true,
        ) == QueueOutcomeView::NothingAdded,
{
}

/// The events of a request's time are taken in their order, those before it are
/// passed over, and each is an error or a duplicate as its kind says.
pub proof fn events_are_taken_in_order(
    a: Seq<WsEvent>,
    b: Seq<WsEvent>,
    e: WsEvent,
    started: u64,
)
    ensures
        errors_since(a + b, started) == errors_since(a, started) + errors_since(b, started),
        duplicates_since(a + b, started) == duplicates_since(a, started) + duplicates_since(
            b,
            started,
        ),
        e.ts < started ==> errors_since(seq![e], started).len() == 0 && duplicates_since(
            seq![e],
            started,
        ).len() == 0,
        e.ts >= started ==> match e.kind {
            WsEventKind::QueueError { link, error, errid } => errors_since(seq![e], started)
                == seq![(link.deep_view(), error@, errid.deep_view())] && duplicates_since(
                seq![e],
                started,
            ).len() == 0,
            WsEventKind::AlreadyInQueue { title, artist, size } => duplicates_since(
                seq![e],
                started,
            ) == seq![(title@, artist@, size)] && errors_since(seq![e], started).len() == 0,
        },
    decreases b.len(),
{
    let one = seq![e];
    assert(one.drop_last() =~= Seq::<WsEvent>::empty());
    assert(one.last() == e);
    assert(errors_since(one.drop_last(), started) =~= Seq::<ErrorView>::empty());
    assert(duplicates_since(one.drop_last(), started) =~= Seq::<DuplicateView>::empty());
    if b.len() == 0 {
        assert(a + b =~= a);
        assert(errors_since(a, started) + errors_since(b, started) =~= errors_since(a, started));
        assert(duplicates_since(a, started) + duplicates_since(b, started) =~= duplicates_since(
            a,
            started,
        ));
    } else {
        events_are_taken_in_order(a, b.drop_last(), e, started);
        assert((a + b).drop_last() =~= a + b.drop_last());
        assert((a + b).last() == b.last());
        assert(errors_since(a + b, started) =~= errors_since(a, started) + errors_since(
            b,
            started,
        ));
        assert(duplicates_since(a + b, started) =~= duplicates_since(a, started)
            + duplicates_since(b, started));
    }
}

// ── What holds of the queue's counts ─────────────────────────────────────────

/// What each status of deemix means. An item without one of these is done where
/// all of it was downloaded, downloads where it has made progress, and else
/// waits.
pub proof fn each_status_has_its_state(item: crate::json::JsonView)
    ensures
        item.field("status"@) == crate::json::JsonView::Str("completed"@) ==> item_state(item)
            == ItemState::Done,
        item.field("status"@) == crate::json::JsonView::Str("withErrors"@) ==> item_state(item)
            == ItemState::Done,
        item.field("status"@) == crate::json::JsonView::Str("failed"@) ==> item_state(item)
            == ItemState::Failed,
        item.field("status"@) == crate::json::JsonView::Str("downloading"@) ==> item_state(item)
            == ItemState::Downloading,
        item.field("status"@) == crate::json::JsonView::Str("inQueue"@) ==> item_state(item)
            == ItemState::Pending,
        !(item.field("status"@) is Str) ==> ({
            let size = item.field("size"@).unsigned_or(1);
            let downloaded = item.field("downloaded"@).unsigned_or(0);
            let progress = item.field("progress"@).unsigned_or(0);
            &&& item_state(item) == ItemState::Done <==> size > 0 && downloaded >= size
            &&& item_state(item) == ItemState::Downloading <==> !(size > 0 && downloaded >= size)
                && progress > 0
            &&& item_state(item) == ItemState::Pending <==> !(size > 0 && downloaded >= size)
                && progress == 0
        }),
{
    reveal_strlit("completed");
    reveal_strlit("withErrors");
    reveal_strlit("failed");
    reveal_strlit("downloading");
    reveal_strlit("inQueue");
    assert("completed"@.len() == 9 && "withErrors"@.len() == 10 && "failed"@.len() == 6
        && "downloading"@.len() == 11 && "inQueue"@.len() == 7);
}

proof fn lemma_items_in_state(entries: Seq<(Seq<char>, crate::json::JsonView)>, s: ItemState)
    ensures
        items_in_state(entries, s) == entries.filter(
            |e: (Seq<char>, crate::json::JsonView)| item_state(e.1) == s,
        ).len(),
    decreases entries.len(),
{
    reveal(Seq::filter);
    if entries.len() > 0 {
        lemma_items_in_state(entries.drop_last(), s);
    }
}

/// Each count of the queue is the number of items in its state.
pub proof fn each_count_is_of_its_state(
    status: QueueStatus,
    entries: Seq<(Seq<char>, crate::json::JsonView)>,
)
    requires
        counts_items(status, entries),
    ensures
        status.pending == entries.filter(
            |e: (Seq<char>, crate::json::JsonView)| item_state(e.1) == ItemState::Pending,
        ).len(),
        status.downloading == entries.filter(
            |e: (Seq<char>, crate::json::JsonView)| item_state(e.1) == ItemState::Downloading,
        ).len(),
        status.done == entries.filter(
            |e: (Seq<char>, crate::json::JsonView)| item_state(e.1) == ItemState::Done,
        ).len(),
        status.failed == entries.filter(
            |e: (Seq<char>, crate::json::JsonView)| item_state(e.1) == ItemState::Failed,
        ).len(),
{
    lemma_items_in_state(entries, ItemState::Pending);
    lemma_items_in_state(entries, ItemState::Downloading);
    lemma_items_in_state(entries, ItemState::Done);
    lemma_items_in_state(entries, ItemState::Failed);
}

/// The queue is what a reply has under `queue`.
pub proof fn the_queue_is_read_whole(
    data: crate::json::JsonView,
    entries: Seq<(Seq<char>, crate::json::JsonView)>,
)
    ensures
        data.field("queue"@) == crate::json::JsonView::Object(entries) ==> queue_entries(data)
            == entries,
        !(data.field("queue"@) is Object) ==> queue_entries(data).len() == 0,
{
}

// ── What is said of failures ─────────────────────────────────────────────────

/// A failure says what went wrong: a login its status, a clearing the status of
/// the answer, and a retry after a failed login the login's error.
pub proof fn failures_say_what_went_wrong(
    config: crate::config::ConfigView,
    data: crate::json::JsonView,
    c: ClearingView,
    answer: Answer,
    bitrate: u8,
    url: Seq<char>,
    e: Seq<char>,
)
    ensures
        data.field("status"@).signed() matches Some(s) ==> (s != 1 && s != 2 ==> login_outcome(
            Ok(data),
        ) == Err::<Seq<char>, _>(
            "Login failed (status "@ + crate::text::signed_decimal(s as int) + ")"@,
        )),
        data.field("status"@).signed() is None ==> login_outcome(Ok(data)) == Err::<Seq<char>, _>(
            "Login failed (status "@ + crate::text::signed_decimal(0) + ")"@,
        ),
        !answer.success ==> clear_after_finished(config, c, Ok(answer)) == ClearStepView::Return(
            Err("removeFinishedDownloads failed: "@ + answer.status@),
        ),
        retry_view(Err(e), config, bitrate, url) == Err::<crate::http::HttpRequestView, _>(e),
        clear_first(config, Err(e)) == ClearStepView::Return(Err(e)),
        search_outcome(Err(e)) == Err::<Seq<crate::json::JsonView>, _>(e),
{
}

/// Once the session is renewed, the same link is asked for again.
pub proof fn a_renewed_session_asks_again(
    config: crate::config::ConfigView,
    login: crate::json::JsonView,
    bitrate: u8,
    url: Seq<char>,
)
    requires
        login.field("status"@).signed() == Some(1i64) || login.field("status"@).signed() == Some(
            2i64,
        ),
    ensures
        retry_view(Ok(login), config, bitrate, url) matches Ok(r) && r.url == config.deemix_url
            + "/api/addToQueue"@ && (r.body matches Some(body) && body.field("url"@)
            == crate::json::JsonView::Str(url) && body.field("bitrate"@).unsigned() == Some(
            bitrate as u64,
        )),
{
    requests_carry_what_they_are_about(config, url, bitrate, url, url, url);
}

/// What deemix leaves out has a name of its own in what is said.
pub proof fn what_is_left_out_is_unknown(data: crate::json::JsonView)
    ensures
        !(data.field("user"@).field("name"@) is Str) ==> (login_outcome(Ok(data)) matches Ok(name)
            ==> name == "unknown"@),
        !(data.field("errid"@) is Str) ==> (queued_objects(Ok(data)) matches Err(e) ==> e
            == "Unknown error"@),
        !(data.field("data"@).field("obj"@) is Array) ==> (queued_objects(Ok(data)) matches Ok(objects)
            ==> objects.len() == 0),
{
}

} // verus!
