//! What calls come to: how the results of the library's functions relate to
//! what they were given, and how two calls relate to each other.

use vstd::prelude::*;

use std::collections::VecDeque;

use crate::bot::Incoming;
use crate::config::{BotState, Config, WsEvent, WsEventKind};
use crate::deemix::{ClearStep, QueueOutcome, QueueStatus};
use crate::flow::Step;
use crate::http::{HttpRequest, Page, Response, TextResponse};
use crate::json::Json;
use crate::spotify::{Playlist, SpotifyMeta};
use crate::streaming::PlaylistRun;
use crate::users::{UserSettings, UsersDb};
use crate::voice::RecognitionResult;

verus! {

// ── Playlists ────────────────────────────────────────────────────────────────

/// The link of a search's best match, which stands first, is the one that is
/// picked, and for a track of a playlist the one that is queued.
pub proof fn the_best_match_is_picked(
    run: PlaylistRun,
    by_title: bool,
    found: Vec<Json>,
    link: Seq<char>,
    picked: Option<String>,
    step: Step,
)
    requires
        call_ensures(crate::streaming::first_link, (&found,), picked),
        call_ensures(PlaylistRun::track_searched, (run, by_title, Ok(found)), step),
        found@.len() > 0,
        found@[0].deep_view().field("link"@) == crate::json::JsonView::Str(link),
    ensures
        picked.deep_view() == Some(link),
        step.deep_view().next == (crate::flow::PendingView::Queue {
            url: link,
            after: crate::flow::AfterQueueView::Playlist { run: run.deep_view() },
        }),
{
    assert(found.deep_view()[0] == found@[0].deep_view());
    crate::streaming::the_first_match_is_queued(
        run.deep_view(),
        by_title,
        found.deep_view(),
        link,
    );
}

/// Two searches with the same best match lead to the same step, whatever else
/// they have found.
pub proof fn only_the_best_match_counts(
    run: PlaylistRun,
    by_title: bool,
    some: Vec<Json>,
    others: Vec<Json>,
    a: Step,
    b: Step,
)
    requires
        call_ensures(PlaylistRun::track_searched, (run, by_title, Ok(some)), a),
        call_ensures(PlaylistRun::track_searched, (run, by_title, Ok(others)), b),
        some@.len() > 0,
        others@.len() > 0,
        some@[0].deep_view() == others@[0].deep_view(),
    ensures
        a.deep_view() == b.deep_view(),
{
    let x = some.deep_view();
    let y = others.deep_view();
    assert(x[0] == some@[0].deep_view());
    assert(y[0] == others@[0].deep_view());
    crate::streaming::later_matches_do_not_count(run.deep_view(), by_title, x);
    crate::streaming::later_matches_do_not_count(run.deep_view(), by_title, y);
    assert(x.take(1) =~= y.take(1));
}

/// A track that was queued is counted, and one that was refused is named.
pub proof fn a_track_is_counted_or_named(
    run: PlaylistRun,
    outcome: Result<Vec<Json>, String>,
    step: Step,
)
    requires
        call_ensures(PlaylistRun::track_queued, (run, outcome), step),
        run.deep_view().position + 1 < run.deep_view().tracks.len(),
    ensures
        step.deep_view().next matches crate::flow::PendingView::Search { query, kind, after } && (
        after matches crate::flow::AfterSearchView::Playlist { run: next, by_title } && !by_title
            && next.position == run.deep_view().position + 1 && next.tracks
            == run.deep_view().tracks && next.queued == run.deep_view().queued + (if outcome is Ok {
            1nat
        } else {
            0
        }) && next.not_found.len() == run.deep_view().not_found.len() + (if outcome is Ok {
            0nat
        } else {
            1
        })),
{
    crate::streaming::a_queued_track_is_counted(run.deep_view());
}

/// A playlist is gone through from its first track.
pub proof fn a_playlist_begins_at_its_beginning(playlist: Playlist, step: Step)
    requires
        call_ensures(crate::streaming::queue_playlist, (playlist,), step),
    ensures
        playlist.tracks@.len() > 0 ==> (
        step.deep_view().next matches crate::flow::PendingView::Search { query, kind, after }
            && crate::text::has_prefix(query, playlist.tracks@[0].title@) && kind
            == crate::flow::SearchKind::Track),
        playlist.tracks@.len() == 0 ==> step.deep_view().next == crate::flow::PendingView::Done,
{
    let p = playlist.deep_view();
    assert(p.tracks.len() == playlist.tracks@.len());
    if p.tracks.len() > 0 {
        assert(p.tracks[0] == playlist.tracks@[0].deep_view());
        crate::streaming::a_playlist_starts_with_its_first_track(p);
        crate::streaming::tracks_are_searched_by_title_and_artist(crate::streaming::first_run(p));
    }
}

/// Odesli is asked about the link itself, and the Deezer link of its answer is
/// what is taken.
pub proof fn odesli_is_asked_about_the_link(
    url: &str,
    request: HttpRequest,
    reply: Option<Json>,
    data: crate::json::JsonView,
    link: Option<String>,
)
    requires
        call_ensures(crate::streaming::odesli_request, (url,), request),
        call_ensures(crate::streaming::odesli_link, (&reply,), link),
        reply.deep_view() == Some(data),
    ensures
        request.deep_view().query == seq![("url"@, url@)],
        data.field("linksByPlatform"@).field("deezer"@).field(
            "url"@,
        ) matches crate::json::JsonView::Str(found) ==> link.deep_view() == Some(found),
        !(data.field("linksByPlatform"@).field("deezer"@).field("url"@) is Str) ==> link is None,
{
    assert(request.deep_view().query =~= seq![("url"@, url@)]);
}

// ── Voice notes ──────────────────────────────────────────────────────────────

/// The song that is recognised is the first candidate of the answer.
pub proof fn the_first_candidate_is_recognised(
    response: Response,
    data: Json,
    songs: Seq<crate::json::JsonView>,
    title: Seq<char>,
    r: Result<RecognitionResult, String>,
)
    requires
        call_ensures(crate::voice::recognize, (Ok(response),), r),
        response.answer.success,
        response.body == Ok::<Json, String>(data),
        data.deep_view().field("status"@).field("code"@).signed() == Some(0i64),
        data.deep_view().field("metadata"@).field("music"@) == crate::json::JsonView::Array(songs),
        songs.len() > 0,
        songs[0].field("title"@) == crate::json::JsonView::Str(title),
        title.len() > 0,
    ensures
        r matches Ok(song) && song.title@ == title && (songs[0].field("external_metadata"@).field(
            "deezer"@,
        ).field("track"@).field("id"@) matches crate::json::JsonView::Str(id)
            ==> song.deezer_url.deep_view() == Some("https://www.deezer.com/track/"@ + id)) && (
        songs[0].field("external_metadata"@).field("spotify"@).field("track"@).field(
            "id"@,
        ) matches crate::json::JsonView::Str(id) ==> song.spotify_url.deep_view() == Some(
            "https://open.spotify.com/track/"@ + id,
        )) && (songs[0].field("artists"@) matches crate::json::JsonView::Array(artists)
            ==> song.artist@ == crate::text::joined(crate::json::names_of(artists), ", "@)),
{
    crate::voice::the_best_candidate_is_recognised(data.deep_view(), songs, title);
}

/// An answer without success is an error that gives its status, and an error that
/// kept an answer from arriving is passed on.
pub proof fn failed_recognitions_say_why(
    response: Response,
    e: String,
    a: Result<RecognitionResult, String>,
    b: Result<RecognitionResult, String>,
)
    requires
        call_ensures(crate::voice::recognize, (Ok(response),), a),
        call_ensures(crate::voice::recognize, (Err(e),), b),
        !response.answer.success,
    ensures
        a is Err && a->Err_0@ == "ACRCloud API error: HTTP "@ + response.answer.status@,
        b is Err && b->Err_0@ == e@,
{
}

/// What Spotify calls a song is searched for; where it does not know it, the
/// song's own names are.
pub proof fn a_song_is_searched_for_by_its_best_name(
    song: RecognitionResult,
    meta: Option<SpotifyMeta>,
    step: Step,
)
    requires
        call_ensures(crate::voice::song_resolved, (song, meta), step),
    ensures
        step.deep_view().next matches crate::flow::PendingView::Search { query, kind, after } && kind
            == crate::flow::SearchKind::Track && after == (
        crate::flow::AfterSearchView::Recognized { song: song.deep_view(), query }) && (
        meta matches Some(m) ==> query == m.query@) && (meta is None ==> crate::text::words(query)
            == crate::text::words(crate::text::with_char(song.title@, '&', ' '))
            + crate::text::words(crate::text::with_char(song.artist@, '&', ' '))),
{
    crate::voice::a_song_is_searched_for_by_its_words(song.deep_view());
}

/// What was written of a recording is its transcript, without the space around
/// it.
pub proof fn a_recording_is_what_was_written(
    response: TextResponse,
    written: String,
    before: Seq<char>,
    said: Seq<char>,
    behind: Seq<char>,
    r: Result<String, String>,
)
    requires
        call_ensures(crate::voice::transcribe, (Ok(response),), r),
        response.answer.success,
        response.body == Ok::<String, String>(written),
        written@ == before + said + behind,
        crate::text::is_all_white(before),
        crate::text::is_all_white(behind),
        crate::text::has_no_outer_space(said),
    ensures
        r matches Ok(text) && text@ == said,
{
    crate::voice::a_transcript_is_what_was_written(response, before, said, behind);
}

// ── YouTube ──────────────────────────────────────────────────────────────────

/// An artist's channel gives the artist's name, all of it.
pub proof fn a_channel_gives_its_artist(
    channel: &str,
    before: Seq<char>,
    name: Seq<char>,
    behind: Seq<char>,
    r: String,
)
    requires
        call_ensures(crate::youtube::clean_channel, (channel,), r),
        crate::text::is_all_white(before),
        crate::text::is_all_white(behind),
        name.len() > 0,
        crate::text::has_no_outer_space(name),
        !crate::text::has_suffix(name, " - Topic"@),
        !crate::text::has_suffix(name, "VEVO"@),
        channel@ == before + name + behind || channel@ == before + (name + " - Topic"@) + behind
            || channel@ == before + (name + "VEVO"@) + behind,
    ensures
        r@ == name,
{
    crate::youtube::a_channel_keeps_its_name(before, name, behind);
}

/// A title without blanks and without noise comes back as it was, and so does any
/// title that was cleaned before.
pub proof fn clean_titles_come_back(title: &str, raw: &str, again: String, first: String)
    requires
        call_ensures(crate::youtube::clean_video_title, (raw,), first),
        call_ensures(crate::youtube::clean_video_title, (title,), again),
        title@ == first@ || (crate::titles::is_quiet(title@) && forall|i: int|
            0 <= i < title@.len() ==> !crate::titles::is_blank(#[trigger] title@[i])),
    ensures
        again@ == title@,
{
    if title@ == first@ {
        crate::titles::cleaning_once_is_enough(raw@);
    } else {
        crate::titles::quiet_titles_are_tidied(title@);
        crate::titles::tidying_keeps_a_word(title@);
    }
}

/// A page is a playlist only where the server reports success.
pub proof fn only_a_page_is_read(page: Page, r: Option<Playlist>, none: Option<Playlist>)
    requires
        call_ensures(crate::youtube::resolve_playlist, (&Some(page),), r),
        call_ensures(crate::youtube::resolve_playlist, (&None::<Page>,), none),
    ensures
        !page.success ==> r is None,
        none is None,
        r matches Some(p) ==> p.tracks@.len() > 0,
{
    if r is Some {
        let text = crate::pattern::group_of(
            crate::pattern::regex_captures(crate::youtube::YT_INITIAL_DATA_RE@, page.text@),
            1,
        )->0;
        let data = crate::json::json_document(text)->0;
        crate::youtube::playlists_have_titled_tracks(data);
        assert(r->0.deep_view().tracks.len() == r->0.tracks@.len());
    }
}

// ── deemix ───────────────────────────────────────────────────────────────────

/// The best results of a search come back, the first eight of them in their
/// order.
pub proof fn the_best_results_come_back(
    data: Json,
    a: Seq<crate::json::JsonView>,
    r: Result<Vec<Json>, String>,
    i: int,
)
    requires
        call_ensures(crate::deemix::search, (Ok(data),), r),
        data.deep_view().field("data"@) == crate::json::JsonView::Array(a) || (!(
        data.deep_view().field("data"@) is Array) && data.deep_view().field("results"@).field(
            "data"@,
        ) == crate::json::JsonView::Array(a)),
    ensures
        r matches Ok(found) && found@.len() == (if a.len() < 8 {
            a.len()
        } else {
            8
        }) && (0 <= i < found@.len() ==> found@[i].deep_view() == a[i]),
{
    assert(r is Ok);
    let found = r->Ok_0;
    assert(found.deep_view().len() == found@.len());
    crate::deemix::the_best_results_are_kept(data.deep_view(), 0);
    if 0 <= i < found@.len() {
        crate::deemix::the_best_results_are_kept(data.deep_view(), i);
        assert(found.deep_view()[i] == found@[i].deep_view());
    }
}

/// A queue with an item that has ended is not left alone: the first thing to do is
/// a removal, and where no item is completed it is that of an item that has ended.
pub proof fn a_clearing_removes_what_has_ended(
    config: Config,
    data: Json,
    entries: Seq<(Seq<char>, crate::json::JsonView)>,
    i: int,
    step: ClearStep,
)
    requires
        call_ensures(crate::deemix::clear_completed, (&config, Ok(data)), step),
        data.deep_view().field("queue"@) == crate::json::JsonView::Object(entries),
        0 <= i < entries.len(),
        crate::deemix::has_ended_badly(entries[i].1) || crate::deemix::is_all_there(entries[i].1)
            || entries[i].1.field("status"@) == crate::json::JsonView::Str("completed"@),
    ensures
        match step {
            ClearStep::Return(_) => false,
            ClearStep::RemoveFinished(c, request) => {
                &&& c.deep_view().individual == crate::deemix::names_to_remove(entries)
                &&& request.deep_view().url == config.deemix_url@
                    + "/api/removeFinishedDownloads"@
            },
            ClearStep::RemoveOne(c, request) => {
                &&& c.deep_view().individual == crate::deemix::names_to_remove(entries)
                &&& request.deep_view().url == config.deemix_url@ + "/api/removeFromQueue"@
                &&& exists|k: int|
                    0 <= k < entries.len() && request.deep_view().query == seq![
                        ("uuid"@, (#[trigger] entries[k]).0),
                    ] && (crate::deemix::has_ended_badly(entries[k].1)
                        || crate::deemix::is_all_there(entries[k].1))
            },
        },
{
    let names = crate::deemix::names_to_remove(entries);
    crate::deemix::clearing_asks_for_what_has_ended(
        config.deep_view(),
        data.deep_view(),
        entries,
    );
    crate::deemix::completed_items_are_left_to_deemix(entries);
    if entries[i].1.field("status"@) != crate::json::JsonView::Str("completed"@) {
        crate::deemix::what_has_ended_is_removed_by_name(entries, i);
    }
    if step is RemoveOne {
        assert(names.contains(names[0]));
        crate::deemix::nothing_else_is_removed_by_name(entries, names[0]);
    }
}

/// The counts of a queue are those of its items, by their states.
pub proof fn the_queue_is_counted_by_states(
    data: Json,
    entries: Seq<(Seq<char>, crate::json::JsonView)>,
    r: Result<QueueStatus, String>,
)
    requires
        call_ensures(crate::deemix::get_queue, (Ok(data),), r),
        data.deep_view().field("queue"@) == crate::json::JsonView::Object(entries),
    ensures
        r matches Ok(s) && s.downloading == entries.filter(
            |e: (Seq<char>, crate::json::JsonView)|
                crate::deemix::item_state(e.1) == crate::deemix::ItemState::Downloading,
        ).len() && s.failed == entries.filter(
            |e: (Seq<char>, crate::json::JsonView)|
                crate::deemix::item_state(e.1) == crate::deemix::ItemState::Failed,
        ).len() && s.done == entries.filter(
            |e: (Seq<char>, crate::json::JsonView)|
                crate::deemix::item_state(e.1) == crate::deemix::ItemState::Done,
        ).len() && s.pending == entries.filter(
            |e: (Seq<char>, crate::json::JsonView)|
                crate::deemix::item_state(e.1) == crate::deemix::ItemState::Pending,
        ).len(),
{
    crate::deemix::each_count_is_of_its_state(r->Ok_0, entries);
}

/// The bot logs in at its start with the ARL that is configured, and only where
/// there is one.
pub proof fn the_configured_arl_logs_in(config: Config, r: Option<HttpRequest>)
    requires
        call_ensures(crate::deemix::login, (&config,), r),
    ensures
        config.deemix_arl@.len() == 0 ==> r is None,
        config.deemix_arl@.len() > 0 ==> (r.deep_view() matches Some(request) && request.url
            == config.deemix_url@ + "/api/loginArl"@ && (request.body matches Some(body)
            && body.field("arl"@) == crate::json::JsonView::Str(config.deemix_arl@))),
{
    crate::deemix::requests_carry_what_they_are_about(
        config.deep_view(),
        config.deemix_arl@,
        0,
        Seq::empty(),
        Seq::empty(),
        Seq::empty(),
    );
}

// ── Other services ───────────────────────────────────────────────────────────

/// The title that Spotify gives on being asked is searched for with the artist
/// that was known.
pub proof fn the_title_that_was_asked_for_is_used(
    artist: &str,
    reply: Option<Json>,
    data: crate::json::JsonView,
    title: Seq<char>,
    r: Option<SpotifyMeta>,
)
    requires
        call_ensures(crate::spotify::resolve_title, (artist, &reply), r),
        reply.deep_view() == Some(data),
        data.field("title"@) == crate::json::JsonView::Str(title),
        title.len() > 0,
        artist@.len() > 0,
        crate::text::has_no_outer_space(title),
        crate::text::has_no_outer_space(artist@),
    ensures
        r matches Some(m) && m.query@ == title + " "@ + artist@ && m.label@ == title + " — "@
            + artist@,
{
    crate::spotify::titles_and_artists_stand_together(title, artist@);
}

/// The add-on is restarted by the name that the Supervisor gives it.
pub proof fn the_add_on_is_restarted_by_its_name(
    info: Json,
    token: Option<String>,
    slug: Seq<char>,
    r: Result<HttpRequest, String>,
)
    requires
        call_ensures(crate::supervisor::restart_addon, (Ok(info), &token), r),
        info.deep_view().field("data"@).field("slug"@) == crate::json::JsonView::Str(slug),
        token is Some,
    ensures
        r matches Ok(request) && request.deep_view().method == crate::http::Method::Post
            && request.deep_view().url == "http://supervisor"@ + ("/addons/"@ + slug
            + "/restart"@) && request.deep_view().headers == seq![
            ("Authorization"@, "Bearer "@ + token->0@),
        ],
{
    crate::supervisor::requests_carry_the_token(
        crate::http::Method::Post,
        "/addons/"@ + slug + "/restart"@,
        None,
        token->0@,
    );
}

// ── Changes ──────────────────────────────────────────────────────────────────

/// Looking a user up gives the settings that were kept, or the defaults, and
/// changes no other user's.
pub proof fn looking_up_gives_what_was_kept(user: i64, other: i64)
    requires
        user != other,
    ensures
        forall|db: &mut UsersDb, r: UserSettings| #[trigger]
            call_ensures(crate::users::get_or_create, (db, user), r) ==> {
                let key = crate::text::signed_decimal(user as int);
                let another = crate::text::signed_decimal(other as int);
                &&& (*db)@.contains_key(key) ==> r == (*db)@[key]
                &&& (*final(db))@.contains_key(key) && (*final(db))@[key] == r
                &&& (*final(db))@.contains_key(another) <==> (*db)@.contains_key(another)
                &&& (*db)@.contains_key(another) ==> (*final(db))@[another] == (*db)@[another]
            },
{
    crate::users::users_have_their_own_entries(user, other);
}

/// Changing a user's settings changes that user's as the change says, and no
/// other's; the change starts from what was kept, or from the defaults.
pub proof fn a_change_is_kept<F: FnOnce(&mut UserSettings)>(user: i64, other: i64, f: F)
    requires
        user != other,
    ensures
        forall|db: &mut UsersDb| #[trigger]
            call_ensures(crate::users::update::<F>, (db, user, f), ()) ==> {
                let key = crate::text::signed_decimal(user as int);
                let another = crate::text::signed_decimal(other as int);
                &&& (*final(db))@.contains_key(key)
                &&& exists|s: &mut UserSettings|
                    #[trigger] call_ensures(f, (s,), ()) && (*final(db))@[key] == *final(s) && (
                    (*db)@.contains_key(key) ==> *s == (*db)@[key])
                &&& (*final(db))@.contains_key(another) <==> (*db)@.contains_key(another)
                &&& (*db)@.contains_key(another) ==> (*final(db))@[another] == (*db)@[another]
            },
{
    crate::users::users_have_their_own_entries(user, other);
    assert forall|db: &mut UsersDb| #[trigger]
        call_ensures(crate::users::update::<F>, (db, user, f), ()) implies {
        let key = crate::text::signed_decimal(user as int);
        let another = crate::text::signed_decimal(other as int);
        &&& (*final(db))@.contains_key(key)
        &&& exists|s: &mut UserSettings|
            #[trigger] call_ensures(f, (s,), ()) && (*final(db))@[key] == *final(s) && (
            (*db)@.contains_key(key) ==> *s == (*db)@[key])
        &&& (*final(db))@.contains_key(another) <==> (*db)@.contains_key(another)
        &&& (*db)@.contains_key(another) ==> (*final(db))@[another] == (*db)@[another]
    } by {
        let s = choose|s: &mut UserSettings|
            *s == crate::users::settings_of((*db)@, user) && #[trigger] f.ensures((s,), ())
                && (*final(db))@ == (*db)@.insert(crate::users::user_key(user), *final(s));
        assert(call_ensures(f, (s,), ()));
    }
}

/// The ARL in the login file is what the bot logs in with again, and keeps; where
/// there is none, the one in use.
pub proof fn a_new_session_uses_the_stored_arl(
    login_file: Option<String>,
    document: crate::json::JsonView,
    stored: Seq<char>,
)
    requires
        login_file is Some,
        crate::json::json_document(login_file->0@) == Some(document),
        document.field("arl"@) == crate::json::JsonView::Str(stored),
        stored.len() > 0,
    ensures
        forall|state: &mut BotState, r: Result<HttpRequest, String>| #[trigger]
            call_ensures(crate::deemix::relogin, (state, &login_file), r) ==> {
                &&& r is Ok
                &&& r->Ok_0.deep_view().url == (*state).config.deemix_url@ + "/api/loginArl"@
                &&& r->Ok_0.deep_view().body matches Some(body) && body.field("arl"@)
                    == crate::json::JsonView::Str(stored)
                &&& (*final(state)).current_arl@ == stored
                &&& (*final(state)).config == (*state).config
                &&& (*final(state)).current_bitrate == (*state).current_bitrate
            },
{
    assert forall|state: &mut BotState, r: Result<HttpRequest, String>| #[trigger]
        call_ensures(crate::deemix::relogin, (state, &login_file), r) implies {
        &&& r is Ok
        &&& r->Ok_0.deep_view().url == (*state).config.deemix_url@ + "/api/loginArl"@
        &&& r->Ok_0.deep_view().body matches Some(body) && body.field("arl"@)
            == crate::json::JsonView::Str(stored)
        &&& (*final(state)).current_arl@ == stored
        &&& (*final(state)).config == (*state).config
        &&& (*final(state)).current_bitrate == (*state).current_bitrate
    } by {
        crate::deemix::the_stored_arl_is_preferred(
            login_file->0@,
            document,
            stored,
            (*state).current_arl@,
        );
        crate::deemix::requests_carry_what_they_are_about(
            (*state).config.deep_view(),
            stored,
            0,
            Seq::empty(),
            Seq::empty(),
            Seq::empty(),
        );
    }
}

/// An ARL is kept exactly where deemix has taken it.
pub proof fn only_a_good_arl_is_kept(arl: String, outcome: Result<String, String>)
    ensures
        forall|state: &mut BotState, r: Step| #[trigger]
            call_ensures(crate::bot::arl_checked, (state, arl, outcome), r) ==> {
                &&& outcome is Ok ==> (*final(state)).current_arl == arl
                &&& outcome is Err ==> (*final(state)).current_arl == (*state).current_arl
                &&& (*final(state)).users == (*state).users
                &&& r.deep_view().next == crate::flow::PendingView::Done
            },
{
}

/// A confirmation takes all events from the buffer, and its outcome is that of the
/// events since the request began; a request that failed takes none.
pub proof fn a_confirmation_takes_the_events(
    objects: Vec<Json>,
    e: String,
    started: u64,
    url: &str,
    artist: bool,
)
    ensures
        forall|events: &mut VecDeque<WsEvent>, r: Result<QueueOutcome, String>| #[trigger]
            call_ensures(
                crate::deemix::add_to_queue_confirmed,
                (Ok(objects), events, started, url, artist),
                r,
            ) ==> {
                &&& (*final(events))@.len() == 0
                &&& r is Ok
                &&& r->Ok_0.deep_view() == crate::deemix::confirmed_outcome(
                    objects.deep_view(),
                    crate::deemix::errors_since(
                        crate::deemix::fresh_events((*events)@, started),
                        started,
                    ),
                    crate::deemix::duplicates_since(
                        crate::deemix::fresh_events((*events)@, started),
                        started,
                    ),
                    url@,
                    artist,
                )
            },
        forall|events: &mut VecDeque<WsEvent>, r: Result<QueueOutcome, String>| #[trigger]
            call_ensures(
                crate::deemix::add_to_queue_confirmed,
                (Err(e), events, started, url, artist),
                r,
            ) ==> (*final(events))@ == (*events)@ && r is Err && r->Err_0@ == e@,
{
    assert forall|events: &mut VecDeque<WsEvent>, r: Result<QueueOutcome, String>| #[trigger]
        call_ensures(
            crate::deemix::add_to_queue_confirmed,
            (Ok(objects), events, started, url, artist),
            r,
        ) implies {
        &&& (*final(events))@.len() == 0
        &&& r is Ok
        &&& r->Ok_0.deep_view() == crate::deemix::confirmed_outcome(
            objects.deep_view(),
            crate::deemix::errors_since(
                crate::deemix::fresh_events((*events)@, started),
                started,
            ),
            crate::deemix::duplicates_since(
                crate::deemix::fresh_events((*events)@, started),
                started,
            ),
            url@,
            artist,
        )
    } by {
        crate::deemix::stale_events_do_not_count(
            objects.deep_view(),
            (*events)@,
            started,
            url@,
            artist,
        );
    }
}

/// A tap on a button queues its link, and says what kind of thing it queues.
pub proof fn a_tap_says_what_it_queues(url: &str, kind: String, step: Step, other: Step)
    requires
        call_ensures(crate::bot::queue_tapped, (url, &Some(kind)), step),
        call_ensures(crate::bot::queue_tapped, (url, &None::<String>), other),
        crate::bot::is_in_small_letters(kind@),
        kind@.len() > 0,
    ensures
        step.deep_view().actions == seq![
            crate::flow::ActionView::Edit {
                text: "⏳ Queuing "@ + kind@ + "..."@,
                markup: crate::flow::MarkupView::Plain,
            },
        ],
        step.deep_view().next matches crate::flow::PendingView::Queue { url: queued, after }
            && queued == url@ && (after matches crate::flow::AfterQueueView::Tapped { kind: named }
            && named.len() == kind@.len() && named.drop_first() == kind@.drop_first()
            && crate::text::ascii_lower(named[0]) == kind@[0] && 'A' <= named[0] <= 'Z'),
        other.deep_view().actions == seq![
            crate::flow::ActionView::Edit {
                text: "⏳ Queuing "@ + "item"@ + "..."@,
                markup: crate::flow::MarkupView::Plain,
            },
        ],
{
    assert('a' <= kind@[0] <= 'z');
    crate::text::letters_have_one_other_case(kind@[0]);
    assert(crate::text::ascii_capitalized(kind@).drop_first() =~= kind@.drop_first());
    assert(step.deep_view().actions =~= seq![
        crate::flow::ActionView::Edit {
            text: "⏳ Queuing "@ + kind@ + "..."@,
            markup: crate::flow::MarkupView::Plain,
        },
    ]);
}

// ── Who is let in, and what they ask for ─────────────────────────────────────

/// A stranger's tap does nothing, whatever the button carries; a user's tap does
/// what the button is for.
pub proof fn strangers_cannot_tap(
    state: BotState,
    user: i64,
    link: Seq<char>,
    data: Option<String>,
    has_message: bool,
    step: Step,
)
    requires
        call_ensures(crate::bot::on_callback, (&state, user, &data, has_message), step),
    ensures
        state.config.whitelist_enabled && !state.config.whitelist_ids@.contains(user)
            ==> step.deep_view().next == crate::flow::PendingView::Done
            && step.deep_view().actions.len() <= 1 && (state.config.whitelist_ids@.len() > 0
            ==> step.deep_view().actions.len() == 0),
        (!state.config.whitelist_enabled || state.config.whitelist_ids@.contains(user))
            && has_message && data.deep_view() == Some("dl:"@ + link) ==> (
        step.deep_view().next matches crate::flow::PendingView::Queue { url, after } && url == link),
{
    crate::bot::a_tap_queues_what_its_button_carries(
        state.pending_voices.deep_view(),
        link,
        link,
        has_message,
    );
}

/// A message is its sender's; one without a sender is nobody's.
pub proof fn a_message_is_its_senders(id: u64, a: i64, b: i64)
    requires
        call_ensures(crate::bot::user_id_from_msg, (Some(id),), a),
        call_ensures(crate::bot::user_id_from_msg, (None::<u64>,), b),
        id <= i64::MAX as u64,
    ensures
        a == id,
        b == 0,
{
}

/// What a stranger writes changes nothing, and leads to nothing.
pub proof fn strangers_cannot_write(msg: Incoming)
    ensures
        forall|state: &mut BotState, r: Step| #[trigger]
            call_ensures(crate::bot::on_message, (state, &msg), r) ==> (
            (*state).config.whitelist_enabled && !(*state).config.whitelist_ids@.contains(
                msg.user_id,
            ) ==> *final(state) == *state && r.deep_view().next
                == crate::flow::PendingView::Done && r.deep_view().actions.len() <= 1),
{
}

/// A query that the dialogue has asked for is searched for, as a track or as an
/// album, without the space around it.
pub proof fn an_asked_query_is_searched_for(
    text: String,
    before: Seq<char>,
    query: Seq<char>,
    behind: Seq<char>,
    a: Step,
    b: Step,
)
    requires
        call_ensures(crate::bot::receive_search, (&Some(text),), a),
        call_ensures(crate::bot::receive_album, (&Some(text),), b),
        text@ == before + query + behind,
        crate::text::is_all_white(before),
        crate::text::is_all_white(behind),
        crate::text::has_no_outer_space(query),
    ensures
        a.deep_view().next matches crate::flow::PendingView::Search { query: q, kind, after } && q
            == query && kind == crate::flow::SearchKind::Track,
        b.deep_view().next matches crate::flow::PendingView::Search { query: q, kind, after } && q
            == query && kind == crate::flow::SearchKind::Album,
{
    crate::bot::what_was_asked_for_is_searched_for(
        before,
        query,
        behind,
        crate::flow::SearchKind::Track,
    );
    crate::bot::what_was_asked_for_is_searched_for(
        before,
        query,
        behind,
        crate::flow::SearchKind::Album,
    );
}

/// A tap under a voice note fetches that note for what the button is for.
pub proof fn a_voice_button_fetches_its_note(
    state: BotState,
    key: Seq<char>,
    a: &str,
    b: &str,
    to_transcribe: Step,
    to_recognize: Step,
    alone: Step,
)
    requires
        call_ensures(crate::voice::handle_voice_callback, (&state, a, true), to_transcribe),
        call_ensures(crate::voice::handle_voice_callback, (&state, b, true), to_recognize),
        call_ensures(crate::voice::handle_voice_callback, (&state, a, false), alone),
        a@ == "vt:"@ + key,
        b@ == "vr:"@ + key,
        state.pending_voices.deep_view().contains_key(key),
    ensures
        to_transcribe.deep_view().next == (crate::flow::PendingView::FetchVoice {
            file_id: state.pending_voices.deep_view()[key],
            task: crate::flow::VoiceTask::Transcribe,
            origin: crate::flow::VoiceOrigin::Button,
        }),
        to_recognize.deep_view().next == (crate::flow::PendingView::FetchVoice {
            file_id: state.pending_voices.deep_view()[key],
            task: crate::flow::VoiceTask::Recognize,
            origin: crate::flow::VoiceOrigin::Button,
        }),
        alone.deep_view().next == crate::flow::PendingView::Done,
        alone.deep_view().actions.len() == 0,
{
    reveal_strlit("vt:");
    reveal_strlit("vr:");
    assert(a@.subrange(0, 3) =~= "vt:"@);
    assert(b@.subrange(0, 3) =~= "vr:"@);
    assert(a@.skip(3) =~= key);
    assert(b@.skip(3) =~= key);
    assert(b@.subrange(0, 3)[1] == 'r');
}

/// Where the search for a song's title failed, that is as if nothing was found.
pub proof fn a_failed_title_search_finds_nothing(
    song: RecognitionResult,
    query: &str,
    e: String,
    none: Vec<Json>,
    a: Step,
    b: Step,
)
    requires
        call_ensures(crate::voice::title_searched, (&song, query, Err(e)), a),
        call_ensures(crate::voice::title_searched, (&song, query, Ok(none)), b),
        none@.len() == 0,
    ensures
        a.deep_view() == b.deep_view(),
        a.deep_view().next == crate::flow::PendingView::Done,
{
    assert(none.deep_view() =~= Seq::<crate::json::JsonView>::empty());
}

/// An expired session is renewed, and any other reply to the first request is the
/// outcome.
pub proof fn only_an_expired_session_is_renewed(
    data: Json,
    e: Seq<char>,
    r: crate::deemix::AddToQueue,
)
    requires
        call_ensures(crate::deemix::add_to_queue, (Ok(data),), r),
        data.deep_view().field("errid"@) == crate::json::JsonView::Str(e),
    ensures
        data.deep_view().field("result"@) == crate::json::JsonView::Bool(true) ==> r is Return,
        data.deep_view().field("result"@) != crate::json::JsonView::Bool(true) ==> (
        r is LogInAgain <==> crate::text::ascii_lowered(e) == "notloggedin"@),
        r matches crate::deemix::AddToQueue::Return(Err(why)) ==> why@ == e,
{
    crate::deemix::expiry_is_told_in_any_case(e);
}

/// The add-on's own options are read before they are changed.
pub proof fn the_options_are_read_first(
    token: Option<String>,
    r: Result<HttpRequest, String>,
)
    requires
        call_ensures(crate::supervisor::info_request, (&token,), r),
    ensures
        token is Some <==> r is Ok,
        r matches Ok(request) ==> request.deep_view().method == crate::http::Method::Get
            && request.deep_view().url == "http://supervisor"@ + "/addons/self/info"@
            && request.deep_view().headers == seq![("Authorization"@, "Bearer "@ + token->0@)],
{
    if token is Some {
        crate::supervisor::requests_carry_the_token(
            crate::http::Method::Get,
            "/addons/self/info"@,
            None,
            token->0@,
        );
    }
}

/// A link that names a playlist is read by the playlist's id; one that names none
/// is not.
pub proof fn a_playlist_is_read_by_its_id(url: &str, r: Option<HttpRequest>, id: Option<String>)
    requires
        call_ensures(crate::youtube::playlist_request, (url,), r),
        call_ensures(crate::youtube::playlist_id, (url,), id),
    ensures
        id is None ==> r is None,
        id matches Some(i) ==> (!crate::text::has_prefix(i@, "RD"@) ==> (r matches Some(request)
            && request.deep_view().url == "https://www.youtube.com/playlist?list="@ + i@)),
        id matches Some(i) ==> (crate::text::has_prefix(i@, "RD"@) ==> r is None),
{
    if id is Some {
        crate::youtube::a_page_is_asked_for_by_its_id(id->0@);
    }
}

/// The listener starts with an attempt at the server's own address.
pub proof fn the_listener_starts_at_the_server(
    config: Config,
    rest: Seq<char>,
    r: (crate::ws::Listener, crate::ws::WsAction),
    url: String,
)
    requires
        call_ensures(crate::ws::Listener::start, (&config,), r),
        call_ensures(crate::ws::ws_url, (&config,), url),
        config.deemix_url@ == "http"@ + rest,
    ensures
        r.1.deep_view() == (crate::ws::WsActionView::Connect { url: "ws"@ + rest + "/"@ }),
        r.0@.wait == 1,
        url@ == "ws"@ + rest + "/"@,
{
    crate::ws::the_listener_goes_to_the_server(rest);
}

/// After a connection the next wait is a second, and each wait makes the next one
/// twice as long, up to a minute.
pub proof fn a_connection_makes_waits_short(reply: crate::ws::WsReply)
    ensures
        forall|l: &mut crate::ws::Listener, r: crate::ws::WsAction| #[trigger]
            call_ensures(crate::ws::Listener::next, (l, reply), r) ==> {
                &&& (*final(l))@.url == (*l)@.url
                &&& reply == crate::ws::WsReply::Connected ==> (*final(l))@.wait == 1
                    && r.deep_view() is Read
                &&& reply == crate::ws::WsReply::Refused || reply == crate::ws::WsReply::Closed ==> (
                r.deep_view() matches crate::ws::WsActionView::Sleep { seconds } && seconds
                    == (*l)@.wait && (*final(l))@.wait == (if 2 * (*l)@.wait <= 60 {
                    2 * (*l)@.wait
                } else {
                    60
                }))
                &&& reply == crate::ws::WsReply::Slept ==> r.deep_view() == (
                crate::ws::WsActionView::Connect { url: (*l)@.url })
                &&& reply == crate::ws::WsReply::Frame ==> r.deep_view() is Read
                    && (*final(l))@.wait == (*l)@.wait
            },
{
}

/// An event is kept as the newest, behind those that are still of use.
pub proof fn an_event_is_kept_as_the_newest(kind: WsEventKind, now: u64)
    ensures
        forall|events: &mut VecDeque<WsEvent>| #[trigger]
            call_ensures(crate::ws::remember, (events, kind, now), ()) ==> {
                &&& (*final(events))@.len() > 0
                &&& (*final(events))@.last() == (WsEvent { ts: now, kind })
                &&& (forall|i: int|
                    0 <= i < (*events)@.len() ==> now - (#[trigger] (*events)@[i]).ts
                        < 60_000_000_000) && (*events)@.len() < 128
                    ==> (*final(events))@.drop_last() == (*events)@
            },
{
    assert forall|events: &mut VecDeque<WsEvent>| #[trigger]
        call_ensures(crate::ws::remember, (events, kind, now), ()) implies {
        &&& (*final(events))@.len() > 0
        &&& (*final(events))@.last() == (WsEvent { ts: now, kind })
        &&& (forall|i: int|
            0 <= i < (*events)@.len() ==> now - (#[trigger] (*events)@[i]).ts < 60_000_000_000)
            && (*events)@.len() < 128 ==> (*final(events))@.drop_last() == (*events)@
    } by {
        let all = (*events)@;
        if (forall|i: int| 0 <= i < all.len() ==> now - (#[trigger] all[i]).ts < 60_000_000_000)
            && all.len() < 128 {
            assert forall|i: int| 0 <= i < all.len() implies crate::ws::is_recent(
                #[trigger] all[i],
                now,
            ) by {
                crate::ws::events_stay_for_a_minute(all[i], now);
            }
            crate::ws::the_oldest_event_goes_first(all, now);
            assert((*final(events))@.drop_last() =~= all);
        }
    }
}

} // verus!
