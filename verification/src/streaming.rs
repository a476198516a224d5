//! Links of streaming services: Spotify, YouTube, YouTube Music, Apple Music.
//!
//! A track or an album is searched for by its title and artist, a playlist is
//! gone through track by track, and anything else is looked up with Odesli.

use vstd::prelude::*;

use crate::search::offer_results;
use crate::flow::{
    edit, send, Action, AfterOdesli, AfterQueue, AfterSearch, AfterSpotify, Pending, SearchKind,
    Step,
};
use crate::http::{request, HttpRequest, Method};
use crate::json::Json;
use crate::pattern::is_matching;
use crate::spotify::{label, Playlist, SpotifyMeta};
use crate::text::{capitalize, contains, shorten, usize_text};
use crate::youtube::{playlist_id, strip_playlist_params};

verus! {

pub const SPOTIFY_TRACK_RE: &'static str = "https?://open\\.spotify\\.com/track/([A-Za-z0-9]+)";

pub const SPOTIFY_ALBUM_RE: &'static str = "https?://open\\.spotify\\.com/album/([A-Za-z0-9]+)";

pub const SPOTIFY_PLAYLIST_RE: &'static str =
    "https?://open\\.spotify\\.com/playlist/[A-Za-z0-9]+";

pub const YOUTUBE_RE: &'static str =
    "https?://(?:(?:www\\.)?youtube\\.com/|youtu\\.be/|music\\.youtube\\.com/)";

pub const APPLE_MUSIC_RE: &'static str = "https?://music\\.apple\\.com/";

// ── What a link is ───────────────────────────────────────────────────────────

/// A link of a streaming service.
#[derive(Clone, Copy, Debug, PartialEq, Eq, Structural)]
pub enum StreamingLink {
    /// A track or an album of Spotify.
    Spotify(SearchKind),
    SpotifyPlaylist,
    YoutubePlaylist,
    /// A video of YouTube, or something of Apple Music.
    Other,
}

/// What a link is, given which patterns match it and whether it names a
/// playlist of YouTube.
pub open spec fn link_kind(
    track: bool,
    album: bool,
    playlist: bool,
    youtube: bool,
    listed: bool,
) -> StreamingLink {
    if track {
        StreamingLink::Spotify(SearchKind::Track)
    } else if album {
        StreamingLink::Spotify(SearchKind::Album)
    } else if playlist {
        StreamingLink::SpotifyPlaylist
    } else if youtube && listed {
        StreamingLink::YoutubePlaylist
    } else {
        StreamingLink::Other
    }
}

pub fn classify(track: bool, album: bool, playlist: bool, youtube: bool, listed: bool) -> (r:
    StreamingLink)
    ensures
        r == link_kind(track, album, playlist, youtube, listed),
{
    if track {
        StreamingLink::Spotify(SearchKind::Track)
    } else if album {
        StreamingLink::Spotify(SearchKind::Album)
    } else if playlist {
        StreamingLink::SpotifyPlaylist
    } else if youtube && listed {
        StreamingLink::YoutubePlaylist
    } else {
        StreamingLink::Other
    }
}

/// What a link is.
pub open spec fn kind_of_url(url: Seq<char>) -> StreamingLink {
    link_kind(
        crate::pattern::is_matched(SPOTIFY_TRACK_RE@, url),
        crate::pattern::is_matched(SPOTIFY_ALBUM_RE@, url),
        crate::pattern::is_matched(SPOTIFY_PLAYLIST_RE@, url),
        crate::pattern::is_matched(YOUTUBE_RE@, url),
        crate::youtube::id_in(url) is Some,
    )
}

/// A link that the bot looks up at its streaming service.
pub open spec fn is_streaming(url: Seq<char>) -> bool {
    ||| crate::pattern::is_matched(SPOTIFY_TRACK_RE@, url)
    ||| crate::pattern::is_matched(SPOTIFY_ALBUM_RE@, url)
    ||| crate::pattern::is_matched(SPOTIFY_PLAYLIST_RE@, url)
    ||| crate::pattern::is_matched(YOUTUBE_RE@, url)
    ||| crate::pattern::is_matched(APPLE_MUSIC_RE@, url)
}

pub fn is_streaming_link(url: &str) -> (r: bool)
    ensures
        r == is_streaming(url@),
{
    is_matching(SPOTIFY_TRACK_RE, url) || is_matching(SPOTIFY_ALBUM_RE, url) || is_matching(
        SPOTIFY_PLAYLIST_RE,
        url,
    ) || is_matching(YOUTUBE_RE, url) || is_matching(APPLE_MUSIC_RE, url)
}

// ── Looking a link up ────────────────────────────────────────────────────────

/// What a link is called that Odesli is asked about.
pub open spec fn service_name(youtube: bool) -> Seq<char> {
    if youtube {
        "YouTube link"@
    } else {
        "Apple Music link"@
    }
}

/// The step that asks Odesli about a link.
pub open spec fn lookup_step(url: Seq<char>, youtube: bool) -> crate::flow::StepView {
    crate::flow::idle().act(
        crate::flow::edited("🔍 Looking up "@ + service_name(youtube) + " on Deezer..."@),
    ).wait(
        crate::flow::PendingView::Odesli {
            url,
            after: crate::flow::AfterOdesliView::Link { service: service_name(youtube) },
        },
    )
}

/// Asks Odesli about a link, in `step`.
pub fn look_up(step: Step, url: &str, youtube: bool) -> (r: Step)
    ensures
        r.deep_view() == crate::flow::after_actions(
            step.deep_view().actions,
            lookup_step(url@, youtube),
        ),
{
    let service = if youtube {
        "YouTube link"
    } else {
        "Apple Music link"
    };
    let text = "🔍 Looking up ".to_owned().concat(service).concat(" on Deezer...");
    let r = step.act(edit(text.as_str())).wait(
        Pending::Odesli {
            url: url.to_owned(),
            after: AfterOdesli::Link { service: service.to_owned() },
        },
    );
    assert(r.deep_view() =~= crate::flow::after_actions(
        step.deep_view().actions,
        lookup_step(url@, youtube),
    ));
    r
}

/// The first step for a link of a streaming service.
pub open spec fn streaming_step(
    url: Seq<char>,
    kind: StreamingLink,
    youtube: bool,
) -> crate::flow::StepView {
    let looking = crate::flow::idle().act(crate::flow::sent("🎵 Looking up link..."@));
    match kind {
        StreamingLink::Spotify(k) => looking.wait(
            crate::flow::PendingView::Spotify {
                url,
                after: crate::flow::AfterSpotifyView::Link { url, kind: k },
            },
        ),
        StreamingLink::SpotifyPlaylist => looking.act(
            crate::flow::edited("🔍 Reading Spotify playlist..."@),
        ).wait(crate::flow::PendingView::SpotifyPlaylist { url }),
        StreamingLink::YoutubePlaylist => looking.act(
            crate::flow::edited("🔍 Reading YouTube playlist..."@),
        ).wait(crate::flow::PendingView::YoutubePlaylist { url }),
        StreamingLink::Other => crate::flow::after_actions(
            looking.actions,
            lookup_step(url, youtube),
        ),
    }
}

/// Starts on a link, given what it is.
pub fn start_link(url: &str, kind: StreamingLink, youtube: bool) -> (r: Step)
    ensures
        r.deep_view() == streaming_step(url@, kind, youtube),
{
    let looking = Step::new().act(send("🎵 Looking up link..."));
    match kind {
        StreamingLink::Spotify(k) => looking.wait(
            Pending::Spotify {
                url: url.to_owned(),
                after: AfterSpotify::Link { url: url.to_owned(), kind: k },
            },
        ),
        StreamingLink::SpotifyPlaylist => looking.act(
            edit("🔍 Reading Spotify playlist..."),
        ).wait(Pending::SpotifyPlaylist { url: url.to_owned() }),
        StreamingLink::YoutubePlaylist => looking.act(
            edit("🔍 Reading YouTube playlist..."),
        ).wait(Pending::YoutubePlaylist { url: url.to_owned() }),
        StreamingLink::Other => look_up(looking, url, youtube),
    }
}

/// Starts on a link of a streaming service.
pub fn handle_streaming_link(url: &str) -> (r: Step)
    ensures
        r.deep_view() == streaming_step(
            url@,
            kind_of_url(url@),
            crate::pattern::is_matched(YOUTUBE_RE@, url@),
        ),
{
    let youtube = is_matching(YOUTUBE_RE, url);
    let kind = classify(
        is_matching(SPOTIFY_TRACK_RE, url),
        is_matching(SPOTIFY_ALBUM_RE, url),
        is_matching(SPOTIFY_PLAYLIST_RE, url),
        youtube,
        playlist_id(url).is_some(),
    );
    start_link(url, kind, youtube)
}

// ── Tracks and albums of Spotify ─────────────────────────────────────────────

/// The step once it is known what a link stands for.
pub open spec fn resolved_step(
    url: Seq<char>,
    kind: SearchKind,
    meta: Option<crate::spotify::MetaView>,
) -> crate::flow::StepView {
    match meta {
        Some(m) => crate::flow::idle().act(
            crate::flow::edited("🔍 Found: "@ + m.label + "\nSearching on Deezer..."@),
        ).wait(
            crate::flow::PendingView::Search {
                query: m.query,
                kind,
                after: crate::flow::AfterSearchView::Linked { url, meta: m, kind },
            },
        ),
        None => crate::flow::idle().act(
            crate::flow::edited("❌ Could not resolve Spotify link. Try /search instead."@),
        ),
    }
}

/// Searches for what a link stands for.
pub fn link_resolved(url: String, kind: SearchKind, meta: Option<SpotifyMeta>) -> (r: Step)
    ensures
        r.deep_view() == resolved_step(url@, kind, meta.deep_view()),
{
    match meta {
        Some(m) => {
            let text = "🔍 Found: ".to_owned().concat(m.label.as_str()).concat(
                "\nSearching on Deezer...",
            );
            let query = m.query.clone();
            Step::new().act(edit(text.as_str())).wait(
                Pending::Search { query, kind, after: AfterSearch::Linked { url, meta: m, kind } },
            )
        },
        None => Step::new().act(edit("❌ Could not resolve Spotify link. Try /search instead.")),
    }
}

/// The step once what a link stands for was searched for. Where nothing was
/// found, Odesli may still know the link.
pub open spec fn linked_step(
    url: Seq<char>,
    meta: crate::spotify::MetaView,
    kind: SearchKind,
    results: Result<Seq<crate::json::JsonView>, Seq<char>>,
) -> crate::flow::StepView {
    match results {
        Ok(found) => if found.len() == 0 {
            crate::flow::idle().wait(
                crate::flow::PendingView::Odesli {
                    url,
                    after: crate::flow::AfterOdesliView::Unlisted { meta },
                },
            )
        } else {
            crate::flow::idle().act(
                crate::search::offer(meta.query, found, crate::flow::icon_of(kind)),
            )
        },
        Err(e) => crate::flow::idle().act(crate::flow::edited("❌ Search failed: "@ + e)),
    }
}

/// Shows what a link stands for.
pub fn link_searched(
    url: String,
    meta: SpotifyMeta,
    kind: SearchKind,
    results: Result<Vec<Json>, String>,
) -> (r: Step)
    ensures
        r.deep_view() == linked_step(
            url@,
            meta.deep_view(),
            kind,
            crate::flow::result_view(results),
        ),
{
    match results {
        Ok(found) => {
            assert(found.deep_view().len() == found@.len());
            if found.len() == 0 {
                Step::new().wait(Pending::Odesli { url, after: AfterOdesli::Unlisted { meta } })
            } else {
                Step::new().act(offer_results(meta.query.as_str(), &found, kind.icon()))
            }
        },
        Err(e) => Step::new().act(
            edit("❌ Search failed: ".to_owned().concat(e.as_str()).as_str()),
        ),
    }
}

// ── Odesli and the queue ─────────────────────────────────────────────────────

/// The request that asks Odesli for the links that match a link.
pub fn odesli_request(url: &str) -> (r: HttpRequest)
    ensures
        r.deep_view() == crate::http::bare(
            Method::Get,
            "https://api.song.link/v1-alpha.1/links"@,
        ).with_query("url"@, url@),
{
    request(Method::Get, "https://api.song.link/v1-alpha.1/links".to_owned()).query("url", url)
}

/// The Deezer link in an answer of Odesli, where there was one.
pub fn odesli_link(reply: &Option<Json>) -> (r: Option<String>)
    ensures
        r.deep_view() == match reply.deep_view() {
            Some(data) => data.field("linksByPlatform"@).field("deezer"@).field("url"@).str(),
            None => None,
        },
{
    match reply {
        Some(data) => data.field("linksByPlatform").field("deezer").field("url").to_text(),
        None => None,
    }
}

/// The step once Odesli has answered.
pub open spec fn odesli_step(
    after: crate::flow::AfterOdesliView,
    link: Option<Seq<char>>,
) -> crate::flow::StepView {
    match link {
        Some(url) => crate::flow::idle().wait(
            crate::flow::PendingView::Queue {
                url,
                after: crate::flow::AfterQueueView::Linked {
                    label: match after {
                        crate::flow::AfterOdesliView::Unlisted { meta } => meta.label,
                        crate::flow::AfterOdesliView::Link {
                            service,
                        } => crate::text::capitalized(service),
                    },
                },
            },
        ),
        None => crate::flow::idle().act(
            crate::flow::edited(
                match after {
                    crate::flow::AfterOdesliView::Unlisted { meta }
                        => "😕 No results found on Deezer for: "@ + meta.query,
                    crate::flow::AfterOdesliView::Link { service } => "😕 Couldn't find this "@
                        + service + " on Deezer. Try searching by name with /search."@,
                },
            ),
        ),
    }
}

/// Queues the Deezer link that Odesli has found.
pub fn link_found(after: AfterOdesli, link: Option<String>) -> (r: Step)
    ensures
        r.deep_view() == odesli_step(after.deep_view(), link.deep_view()),
        after.deep_view() matches crate::flow::AfterOdesliView::Link { service }
            ==> link.deep_view() matches Some(url) ==> service.len() > 0 && service[0] as u32 <= 127
            ==> r.deep_view() == crate::flow::idle().wait(
            (crate::flow::PendingView::Queue {
                url,
                after: crate::flow::AfterQueueView::Linked {
                    label: crate::text::ascii_capitalized(service),
                },
            }),
        ),
{
    match link {
        Some(url) => {
            let label = match after {
                AfterOdesli::Unlisted { meta } => meta.label,
                AfterOdesli::Link { service } => capitalize(service.as_str()),
            };
            Step::new().wait(Pending::Queue { url, after: AfterQueue::Linked { label } })
        },
        None => {
            let text = match after {
                AfterOdesli::Unlisted { meta } => "😕 No results found on Deezer for: ".to_owned().concat(
                    meta.query.as_str(),
                ),
                AfterOdesli::Link { service } => "😕 Couldn't find this ".to_owned().concat(
                    service.as_str(),
                ).concat(" on Deezer. Try searching by name with /search."),
            };
            Step::new().act(edit(text.as_str()))
        },
    }
}

/// The step once what a link stands for was queued.
pub open spec fn queued_step(
    label: Seq<char>,
    outcome: Result<Seq<crate::json::JsonView>, Seq<char>>,
) -> crate::flow::StepView {
    crate::flow::idle().act(
        crate::flow::edited(
            match outcome {
                Ok(_) => "✅ "@ + label + " added to queue!"@,
                Err(e) => "❌ Failed to queue: "@ + e,
            },
        ),
    )
}

pub fn link_queued(label: &str, outcome: Result<Vec<Json>, String>) -> (r: Step)
    ensures
        r.deep_view() == queued_step(label@, crate::flow::result_view(outcome)),
{
    let text = match outcome {
        Ok(_) => "✅ ".to_owned().concat(label).concat(" added to queue!"),
        Err(e) => "❌ Failed to queue: ".to_owned().concat(e.as_str()),
    };
    Step::new().act(edit(text.as_str()))
}

// ── Playlists ────────────────────────────────────────────────────────────────

/// A playlist that is being queued: which track is next, how many of those
/// before it are queued, and what the others are called.
pub struct PlaylistRun {
    playlist: Playlist,
    position: usize,
    queued: usize,
    not_found: Vec<String>,
}

#[verifier::ext_equal]
pub ghost struct RunView {
    pub name: Seq<char>,
    pub tracks: Seq<crate::spotify::TrackView>,
    pub position: nat,
    pub queued: nat,
    pub not_found: Seq<Seq<char>>,
}

impl DeepView for PlaylistRun {
    type V = RunView;

    closed spec fn deep_view(&self) -> RunView {
        RunView {
            name: self.playlist.name@,
            tracks: self.playlist.tracks.deep_view(),
            position: self.position as nat,
            queued: self.queued as nat,
            not_found: self.not_found.deep_view(),
        }
    }
}

/// What to search for first.
pub open spec fn full_query(track: crate::spotify::TrackView) -> Seq<char> {
    if track.artist.len() == 0 {
        track.title
    } else {
        track.title + " "@ + track.artist
    }
}

/// The link of the first result.
pub open spec fn first_link_in(results: Seq<crate::json::JsonView>) -> Option<Seq<char>> {
    if results.len() == 0 {
        None
    } else {
        results[0].field("link"@).str()
    }
}

pub fn first_link(results: &Vec<Json>) -> (r: Option<String>)
    ensures
        r.deep_view() == first_link_in(results.deep_view()),
{
    assert(results.deep_view().len() == results@.len());
    if results.len() == 0 {
        None
    } else {
        assert(results.deep_view()[0] == results@[0].deep_view());
        results[0].field("link").to_text()
    }
}

/// How often a long playlist reports its progress, in tracks.
pub const PROGRESS_EVERY: usize = 5;

/// How many tracks that could not be queued are named in the end.
pub const MAX_NAMED: usize = 15;

/// The most characters of such a name.
pub const MAX_NAME: usize = 80;

/// The names of tracks that could not be queued, one to a line.
pub open spec fn named(labels: Seq<Seq<char>>) -> Seq<char>
    decreases labels.len(),
{
    if labels.len() == 0 {
        Seq::empty()
    } else {
        named(labels.drop_last()) + "• "@ + crate::text::shortened(labels.last(), MAX_NAME as nat)
            + "\n"@
    }
}

/// What is said of a playlist in the end.
pub open spec fn summary_of(
    name: Seq<char>,
    queued: nat,
    total: nat,
    not_found: Seq<Seq<char>>,
) -> Seq<char> {
    let head = "✅ Playlist \""@ + name + "\": queued "@ + crate::text::decimal(queued) + "/"@
        + crate::text::decimal(total) + " tracks."@;
    if not_found.len() == 0 {
        head
    } else if not_found.len() <= MAX_NAMED {
        head + "\n\n😕 Couldn't queue these:\n"@ + named(not_found)
    } else {
        head + "\n\n😕 Couldn't queue these:\n"@ + named(not_found.take(MAX_NAMED as int))
            + "…and "@ + crate::text::decimal((not_found.len() - MAX_NAMED) as nat) + " more"@
    }
}

fn summary(name: &str, queued: usize, total: usize, not_found: &Vec<String>) -> (r: String)
    ensures
        r@ == summary_of(name@, queued as nat, total as nat, not_found.deep_view()),
{
    let ghost all = not_found.deep_view();
    let mut text = "✅ Playlist \"".to_owned().concat(name).concat("\": queued ").concat(
        usize_text(queued).as_str(),
    ).concat("/").concat(usize_text(total).as_str()).concat(" tracks.");
    let ghost head = text@;
    if not_found.len() > 0 {
        text = text.concat("\n\n😕 Couldn't queue these:\n");
        let ghost title = text@;
        let mut names = String::new();
        let shown: usize = if not_found.len() > MAX_NAMED {
            MAX_NAMED
        } else {
            not_found.len()
        };
        let mut i: usize = 0;
        while i < shown
            invariant
                all == not_found.deep_view(),
                i <= shown <= not_found@.len(),
                names@ == named(all.take(i as int)),
            decreases shown - i,
        {
            proof {
                assert(all.take(i + 1).drop_last() == all.take(i as int));
                assert(all.take(i + 1).last() == not_found@[i as int]@);
            }
            names = names.concat("• ").concat(
                shorten(not_found[i].as_str(), MAX_NAME).as_str(),
            ).concat("\n");
            i += 1;
        }
        text = text.concat(names.as_str());
        if not_found.len() > MAX_NAMED {
            text = text.concat("…and ").concat(
                usize_text(not_found.len() - MAX_NAMED).as_str(),
            ).concat(" more");
        } else {
            assert(all.take(i as int) == all);
        }
    }
    text
}

/// The step that searches for the current track of a playlist.
pub open spec fn track_step(run: RunView) -> crate::flow::StepView {
    let track = run.tracks[run.position as int];
    let begun = if run.position % PROGRESS_EVERY as nat == 0 {
        crate::flow::idle().act(
            crate::flow::ActionView::TryEdit {
                text: "⏳ Queuing \""@ + run.name + "\" — "@ + crate::text::decimal(run.position)
                    + "/"@ + crate::text::decimal(run.tracks.len()) + " tracks..."@,
            },
        )
    } else {
        crate::flow::idle()
    };
    begun.wait(
        crate::flow::PendingView::Search {
            query: full_query(track),
            kind: SearchKind::Track,
            after: crate::flow::AfterSearchView::Playlist { run, by_title: false },
        },
    )
}

/// The run after its current track was dealt with.
pub open spec fn run_after(run: RunView, queued: bool) -> RunView {
    let track = run.tracks[run.position as int];
    RunView {
        position: run.position + 1,
        queued: if queued {
            run.queued + 1
        } else {
            run.queued
        },
        not_found: if queued {
            run.not_found
        } else {
            run.not_found.push(crate::spotify::label_of(track.title, track.artist))
        },
        ..run
    }
}

/// The next step of a run: its next track, or what is said in the end.
pub open spec fn run_step(run: RunView) -> crate::flow::StepView {
    if run.position < run.tracks.len() {
        track_step(run)
    } else {
        crate::flow::idle().act(
            crate::flow::edited(
                summary_of(run.name, run.queued, run.tracks.len(), run.not_found),
            ),
        )
    }
}

/// The step once the current track was searched for. A track is searched for
/// by title and artist first, then by its title alone.
pub open spec fn track_searched_step(
    run: RunView,
    by_title: bool,
    results: Result<Seq<crate::json::JsonView>, Seq<char>>,
) -> crate::flow::StepView {
    let track = run.tracks[run.position as int];
    let link = match results {
        Ok(found) => first_link_in(found),
        Err(_) => None,
    };
    match link {
        Some(url) => crate::flow::idle().wait(
            crate::flow::PendingView::Queue {
                url,
                after: crate::flow::AfterQueueView::Playlist { run },
            },
        ),
        None => if !by_title && track.artist.len() > 0 {
            crate::flow::idle().wait(
                crate::flow::PendingView::Search {
                    query: track.title,
                    kind: SearchKind::Track,
                    after: crate::flow::AfterSearchView::Playlist { run, by_title: true },
                },
            )
        } else {
            run_step(run_after(run, false))
        },
    }
}

impl PlaylistRun {
    /// There is a current track, and each one before it is either queued or
    /// named among those that are not.
    #[verifier::type_invariant]
    spec fn wf(self) -> bool {
        &&& self.position < self.playlist.tracks@.len()
        &&& self.queued + self.not_found@.len() == self.position
    }

    /// The step that searches for the current track.
    fn search_track(self) -> (r: Step)
        ensures
            r.deep_view() == track_step(self.deep_view()),
    {
        proof {
            use_type_invariant(&self);
        }
        let ghost run = self.deep_view();
        let ghost view = run.tracks[run.position as int];
        let track = &self.playlist.tracks[self.position];
        assert(view == track.deep_view());
        let query = if track.artist.as_str().is_empty() {
            track.title.clone()
        } else {
            track.title.clone().concat(" ").concat(track.artist.as_str())
        };
        let begun = if self.position % PROGRESS_EVERY == 0 {
            let text = "⏳ Queuing \"".to_owned().concat(self.playlist.name.as_str()).concat(
                "\" — ",
            ).concat(usize_text(self.position).as_str()).concat("/").concat(
                usize_text(self.playlist.tracks.len()).as_str(),
            ).concat(" tracks...");
            Step::new().act(Action::TryEdit { text })
        } else {
            Step::new()
        };
        begun.wait(
            Pending::Search {
                query,
                kind: SearchKind::Track,
                after: AfterSearch::Playlist { run: self, by_title: false },
            },
        )
    }

    /// The step after the current track was dealt with.
    fn track_done(self, queued: bool) -> (r: Step)
        ensures
            r.deep_view() == run_step(run_after(self.deep_view(), queued)),
    {
        proof {
            use_type_invariant(&self);
        }
        let ghost before = self.deep_view();
        let total: usize = self.playlist.tracks.len();
        let track = &self.playlist.tracks[self.position];
        assert(before.tracks[before.position as int] == track.deep_view());
        let name = label(track.title.as_str(), track.artist.as_str());
        let playlist = self.playlist;
        let mut not_found = self.not_found;
        let mut done: usize = self.queued;
        let ghost missing = not_found.deep_view();
        if queued {
            done += 1;
        } else {
            not_found.push(name);
            assert(not_found.deep_view() =~= missing.push(name@));
        }
        let position: usize = self.position + 1;
        let ghost after = run_after(before, queued);
        if position < total {
            let run = PlaylistRun { playlist, position, queued: done, not_found };
            assert(run.deep_view() =~= after);
            run.search_track()
        } else {
            let text = summary(playlist.name.as_str(), done, total, &not_found);
            Step::new().act(edit(text.as_str()))
        }
    }

    /// Queues the first result for the current track.
    pub fn track_searched(self, by_title: bool, results: Result<Vec<Json>, String>) -> (r: Step)
        ensures
            r.deep_view() == track_searched_step(
                self.deep_view(),
                by_title,
                crate::flow::result_view(results),
            ),
    {
        proof {
            use_type_invariant(&self);
        }
        let ghost run = self.deep_view();
        let track = &self.playlist.tracks[self.position];
        assert(run.tracks[run.position as int] == track.deep_view());
        let link = match &results {
            Ok(found) => first_link(found),
            Err(_) => None,
        };
        match link {
            Some(url) => Step::new().wait(
                Pending::Queue { url, after: AfterQueue::Playlist { run: self } },
            ),
            None => if !by_title && !track.artist.as_str().is_empty() {
                let query = track.title.clone();
                Step::new().wait(
                    Pending::Search {
                        query,
                        kind: SearchKind::Track,
                        after: AfterSearch::Playlist { run: self, by_title: true },
                    },
                )
            } else {
                self.track_done(false)
            },
        }
    }

    /// Goes on to the next track once the current one was queued or refused.
    pub fn track_queued(self, outcome: Result<Vec<Json>, String>) -> (r: Step)
        ensures
            r.deep_view() == run_step(run_after(self.deep_view(), outcome is Ok)),
    {
        let queued = match outcome {
            Ok(_) => true,
            Err(_) => false,
        };
        self.track_done(queued)
    }
}

/// A run before its first track.
pub open spec fn first_run(p: crate::spotify::PlaylistView) -> RunView {
    RunView {
        name: p.name,
        tracks: p.tracks,
        position: 0,
        queued: 0,
        not_found: Seq::empty(),
    }
}

/// Queues every track of a playlist: searches for it and queues the first
/// result. The status message reports progress and, in the end, what could not
/// be queued.
pub fn queue_playlist(playlist: Playlist) -> (r: Step)
    ensures
        r.deep_view() == run_step(first_run(playlist.deep_view())),
{
    assert(playlist.tracks.deep_view().len() == playlist.tracks@.len());
    let not_found: Vec<String> = Vec::new();
    if playlist.tracks.len() > 0 {
        let run = PlaylistRun { playlist, position: 0, queued: 0, not_found };
        assert(run.deep_view() =~= first_run(playlist.deep_view()));
        run.search_track()
    } else {
        assert(not_found.deep_view() =~= Seq::<Seq<char>>::empty());
        let text = summary(playlist.name.as_str(), 0, 0, &not_found);
        Step::new().act(edit(text.as_str()))
    }
}

/// The step once a playlist of Spotify was read.
pub open spec fn spotify_playlist_step(
    playlist: Option<crate::spotify::PlaylistView>,
) -> crate::flow::StepView {
    match playlist {
        Some(p) => run_step(first_run(p)),
        None => crate::flow::idle().act(
            crate::flow::edited(
                "😕 Couldn't read that Spotify playlist. Make sure it's public and try again."@,
            ),
        ),
    }
}

pub fn spotify_playlist_read(playlist: Option<Playlist>) -> (r: Step)
    ensures
        r.deep_view() == spotify_playlist_step(playlist.deep_view()),
{
    match playlist {
        Some(p) => queue_playlist(p),
        None => Step::new().act(
            edit("😕 Couldn't read that Spotify playlist. Make sure it's public and try again."),
        ),
    }
}

/// A link that names a video, whatever playlist it is in.
pub open spec fn names_video(url: Seq<char>) -> bool {
    crate::text::occurs_in(url, "watch?v="@) || crate::text::occurs_in(url, "youtu.be/"@)
}

/// The step once a playlist of YouTube was read. Mixes and private playlists
/// cannot be; a link that names a video is then taken for that video.
pub open spec fn youtube_step(
    url: Seq<char>,
    playlist: Option<crate::spotify::PlaylistView>,
) -> crate::flow::StepView {
    match playlist {
        Some(p) => run_step(first_run(p)),
        None => if names_video(url) {
            lookup_step(
                crate::youtube::single_video(url),
                crate::pattern::is_matched(YOUTUBE_RE@, crate::youtube::single_video(url)),
            )
        } else {
            crate::flow::idle().act(
                crate::flow::edited(
                    "😕 Couldn't read that YouTube playlist. Make sure it's public and try again."@,
                ),
            )
        },
    }
}

pub fn youtube_playlist_read(url: &str, playlist: Option<Playlist>) -> (r: Step)
    ensures
        r.deep_view() == youtube_step(url@, playlist.deep_view()),
{
    match playlist {
        Some(p) => queue_playlist(p),
        None => if contains(url, "watch?v=") || contains(url, "youtu.be/") {
            let video = strip_playlist_params(url);
            let youtube = is_matching(YOUTUBE_RE, video.as_str());
            let r = look_up(Step::new(), video.as_str(), youtube);
            assert(r.deep_view() =~= lookup_step(video@, youtube));
            r
        } else {
            Step::new().act(
                edit(
                    "😕 Couldn't read that YouTube playlist. Make sure it's public and try again.",
                ),
            )
        },
    }
}

// ── What holds of a whole playlist ───────────────────────────────────────────

/// The run after tracks with these outcomes.
pub open spec fn run_through(run: RunView, outcomes: Seq<bool>) -> RunView
    decreases outcomes.len(),
{
    if outcomes.len() == 0 {
        run
    } else {
        run_after(run_through(run, outcomes.drop_last()), outcomes.last())
    }
}

/// How many outcomes are good.
pub open spec fn count_of(outcomes: Seq<bool>) -> nat
    decreases outcomes.len(),
{
    if outcomes.len() == 0 {
        0
    } else if outcomes.last() {
        count_of(outcomes.drop_last()) + 1
    } else {
        count_of(outcomes.drop_last())
    }
}

/// What the tracks with a bad outcome are called, in order.
pub open spec fn missing_of(
    tracks: Seq<crate::spotify::TrackView>,
    outcomes: Seq<bool>,
) -> Seq<Seq<char>>
    decreases outcomes.len(),
{
    if outcomes.len() == 0 {
        Seq::empty()
    } else {
        let rest = missing_of(tracks, outcomes.drop_last());
        let track = tracks[outcomes.len() - 1];
        if outcomes.last() {
            rest
        } else {
            rest.push(crate::spotify::label_of(track.title, track.artist))
        }
    }
}

proof fn lemma_run_through(p: crate::spotify::PlaylistView, outcomes: Seq<bool>)
    requires
        outcomes.len() <= p.tracks.len(),
    ensures
        run_through(first_run(p), outcomes) == (RunView {
            name: p.name,
            tracks: p.tracks,
            position: outcomes.len(),
            queued: count_of(outcomes),
            not_found: missing_of(p.tracks, outcomes),
        }),
        count_of(outcomes) + missing_of(p.tracks, outcomes).len() == outcomes.len(),
    decreases outcomes.len(),
{
    if outcomes.len() > 0 {
        lemma_run_through(p, outcomes.drop_last());
    }
}

/// A playlist ends after its last track and not before, with a summary that
/// counts the tracks that were queued and names those that were not: every
/// track is one or the other.
pub proof fn a_playlist_accounts_for_every_track(
    p: crate::spotify::PlaylistView,
    outcomes: Seq<bool>,
)
    requires
        outcomes.len() <= p.tracks.len(),
    ensures
        outcomes.len() < p.tracks.len() ==> run_step(run_through(first_run(p), outcomes)).next
            is Search,
        outcomes.len() == p.tracks.len() ==> run_step(run_through(first_run(p), outcomes))
            == crate::flow::idle().act(
            crate::flow::edited(
                summary_of(
                    p.name,
                    count_of(outcomes),
                    p.tracks.len(),
                    missing_of(p.tracks, outcomes),
                ),
            ),
        ),
        count_of(outcomes) + missing_of(p.tracks, outcomes).len() == outcomes.len(),
{
    lemma_run_through(p, outcomes);
}

// ── What is queued of a playlist ─────────────────────────────────────────────

/// The best match comes first, and it is the one that is queued: whatever else a
/// search has found makes no difference.
pub proof fn the_first_match_is_queued(
    run: RunView,
    by_title: bool,
    found: Seq<crate::json::JsonView>,
    link: Seq<char>,
)
    requires
        found.len() > 0,
        found[0].field("link"@) == crate::json::JsonView::Str(link),
    ensures
        track_searched_step(run, by_title, Ok(found)).next == (crate::flow::PendingView::Queue {
            url: link,
            after: crate::flow::AfterQueueView::Playlist { run },
        }),
        track_searched_step(run, by_title, Ok(found)).actions.len() == 0,
        first_link_in(found) == Some(link),
{
}

/// Only the first of the results counts, whether it has a link or not.
pub proof fn later_matches_do_not_count(
    run: RunView,
    by_title: bool,
    found: Seq<crate::json::JsonView>,
)
    requires
        found.len() > 0,
    ensures
        track_searched_step(run, by_title, Ok(found)) == track_searched_step(
            run,
            by_title,
            Ok(found.take(1)),
        ),
        first_link_in(found) == first_link_in(found.take(1)),
{
    assert(found.take(1)[0] == found[0]);
}

/// A search that came to nothing: it failed, found nothing, or its best match
/// has no link.
pub open spec fn came_to_nothing(results: Result<Seq<crate::json::JsonView>, Seq<char>>) -> bool {
    match results {
        Ok(found) => found.len() == 0 || !(found[0].field("link"@) is Str),
        Err(_) => true,
    }
}

/// A track that is not found by title and artist is searched for by its title
/// alone, once; nothing is counted before that.
pub proof fn the_title_alone_is_tried(
    run: RunView,
    results: Result<Seq<crate::json::JsonView>, Seq<char>>,
)
    requires
        run.position < run.tracks.len(),
        came_to_nothing(results),
        run.tracks[run.position as int].artist.len() > 0,
    ensures
        track_searched_step(run, false, results).next == (crate::flow::PendingView::Search {
            query: run.tracks[run.position as int].title,
            kind: SearchKind::Track,
            after: crate::flow::AfterSearchView::Playlist { run, by_title: true },
        }),
        track_searched_step(run, false, results).actions.len() == 0,
{
}

/// A track that cannot be found either way is named among those that could not
/// be queued, by its title and artist, and the next one is taken up.
pub proof fn a_track_that_is_not_found_is_named(
    run: RunView,
    by_title: bool,
    results: Result<Seq<crate::json::JsonView>, Seq<char>>,
)
    requires
        run.position < run.tracks.len(),
        came_to_nothing(results),
        by_title || run.tracks[run.position as int].artist.len() == 0,
    ensures
        ({
            let track = run.tracks[run.position as int];
            let name = if track.artist.len() > 0 {
                track.title + " — "@ + track.artist
            } else {
                track.title
            };
            track_searched_step(run, by_title, results) == run_step(
                RunView {
                    name: run.name,
                    tracks: run.tracks,
                    position: run.position + 1,
                    queued: run.queued,
                    not_found: run.not_found.push(name),
                },
            )
        }),
{
}

/// A track that deemix took is counted and not named; one that deemix refused is
/// named and not counted.
pub proof fn a_queued_track_is_counted(run: RunView)
    requires
        run.position < run.tracks.len(),
    ensures
        ({
            let after = run_after(run, true);
            &&& after.queued == run.queued + 1
            &&& after.not_found == run.not_found
            &&& after.position == run.position + 1
            &&& after.tracks == run.tracks
            &&& after.name == run.name
        }),
        ({
            let after = run_after(run, false);
            &&& after.queued == run.queued
            &&& after.not_found.len() == run.not_found.len() + 1
            &&& after.not_found.drop_last() == run.not_found
            &&& crate::text::has_prefix(
                after.not_found.last(),
                run.tracks[run.position as int].title,
            )
            &&& crate::text::has_suffix(
                after.not_found.last(),
                run.tracks[run.position as int].artist,
            )
            &&& after.position == run.position + 1
            &&& after.tracks == run.tracks
            &&& after.name == run.name
        }),
{
    let track = run.tracks[run.position as int];
    let name = crate::spotify::label_of(track.title, track.artist);
    let after = run_after(run, false);
    assert(after.not_found.drop_last() =~= run.not_found);
    assert(name.subrange(0, track.title.len() as int) =~= track.title);
    assert(name.subrange(name.len() - track.artist.len(), name.len() as int) =~= track.artist);
}

/// Each track is searched for as a track, by its title and artist, or by its
/// title where no artist is known. A report comes with every fifth one.
pub proof fn tracks_are_searched_by_title_and_artist(run: RunView)
    requires
        run.position < run.tracks.len(),
    ensures
        run_step(run).next matches crate::flow::PendingView::Search { query, kind, after } && kind
            == SearchKind::Track && after == (crate::flow::AfterSearchView::Playlist {
            run,
            by_title: false,
        }) && crate::text::has_prefix(query, run.tracks[run.position as int].title)
            && crate::text::has_suffix(query, run.tracks[run.position as int].artist) && (
        query.len() == run.tracks[run.position as int].title.len()
            + run.tracks[run.position as int].artist.len() + if run.tracks[run.position as int].artist.len()
            > 0 {
            1nat
        } else {
            0
        }) && (run.tracks[run.position as int].artist.len() > 0
            ==> query[run.tracks[run.position as int].title.len() as int] == ' '),
        run_step(run).actions.len() == (if run.position % 5 == 0 {
            1nat
        } else {
            0
        }),
{
    reveal_strlit(" ");
    let track = run.tracks[run.position as int];
    let query = full_query(track);
    assert(query.subrange(0, track.title.len() as int) =~= track.title);
    assert(query.subrange(query.len() - track.artist.len(), query.len() as int) =~= track.artist);
}

/// A playlist starts with its first track, with nothing counted or named.
pub proof fn a_playlist_starts_with_its_first_track(p: crate::spotify::PlaylistView)
    requires
        p.tracks.len() > 0,
    ensures
        run_step(first_run(p)).next matches crate::flow::PendingView::Search { query, kind, after }
            && crate::text::has_prefix(query, p.tracks[0].title)
            && (after matches crate::flow::AfterSearchView::Playlist { run, by_title } && !by_title
            && run.tracks == p.tracks && run.name == p.name && run.position == 0 && run.queued == 0
            && run.not_found.len() == 0),
{
    tracks_are_searched_by_title_and_artist(first_run(p));
}

/// The lines of a list of names are the lines of its parts, one after another.
pub proof fn names_are_listed_in_order(a: Seq<Seq<char>>, b: Seq<Seq<char>>)
    ensures
        named(a + b) == named(a) + named(b),
    decreases b.len(),
{
    if b.len() == 0 {
        assert(a + b =~= a);
        assert(named(a) + named(b) =~= named(a));
    } else {
        names_are_listed_in_order(a, b.drop_last());
        assert((a + b).drop_last() =~= a + b.drop_last());
        assert((a + b).last() == b.last());
        let line = "• "@ + crate::text::shortened(b.last(), MAX_NAME as nat) + "\n"@;
        assert(named(b) =~= named(b.drop_last()) + line);
        assert(named(a + b) =~= named(a + b.drop_last()) + line);
        assert(named(a + b) =~= named(a) + named(b));
    }
}

/// The line of a name holds the name, in full where it has at most eighty
/// characters.
pub proof fn a_line_holds_its_name(name: Seq<char>)
    ensures
        name.len() <= 80 ==> named(seq![name]) == "• "@ + name + "\n"@,
        name.len() > 80 ==> named(seq![name]) == "• "@ + name.take(79) + "…\n"@,
{
    reveal_strlit("…\n");
    reveal_strlit("\n");
    let one = seq![name];
    assert(one.drop_last() =~= Seq::<Seq<char>>::empty());
    assert(named(one.drop_last()) =~= Seq::<char>::empty());
    if name.len() > 80 {
        assert(named(one) =~= "• "@ + name.take(79) + "…\n"@);
    } else {
        assert(named(one) =~= "• "@ + name + "\n"@);
    }
}

/// A summary starts with the playlist's name and how many of its tracks are
/// queued, names up to fifteen of the others in order, and counts the rest.
pub proof fn a_summary_names_what_is_missing(
    name: Seq<char>,
    queued: nat,
    total: nat,
    not_found: Seq<Seq<char>>,
)
    ensures
        ({
            let head = "✅ Playlist \""@ + name + "\": queued "@ + crate::text::decimal(queued)
                + "/"@ + crate::text::decimal(total) + " tracks."@;
            let text = summary_of(name, queued, total, not_found);
            &&& crate::text::has_prefix(text, head)
            &&& text == head <==> not_found.len() == 0
            &&& 0 < not_found.len() <= 15 ==> text.skip(head.len() as int)
                == "\n\n😕 Couldn't queue these:\n"@ + named(not_found)
            &&& not_found.len() > 15 ==> text.skip(head.len() as int)
                == "\n\n😕 Couldn't queue these:\n"@ + named(not_found.take(15)) + "…and "@
                + crate::text::decimal((not_found.len() - 15) as nat) + " more"@
        }),
{
    reveal_strlit("\n\n😕 Couldn't queue these:\n");
    let head = "✅ Playlist \""@ + name + "\": queued "@ + crate::text::decimal(queued) + "/"@
        + crate::text::decimal(total) + " tracks."@;
    let text = summary_of(name, queued, total, not_found);
    assert(text.subrange(0, head.len() as int) =~= head);
    if not_found.len() > 15 {
        assert(text.skip(head.len() as int) =~= "\n\n😕 Couldn't queue these:\n"@ + named(
            not_found.take(15),
        ) + "…and "@ + crate::text::decimal((not_found.len() - 15) as nat) + " more"@);
    } else if not_found.len() > 0 {
        assert(text.skip(head.len() as int) =~= "\n\n😕 Couldn't queue these:\n"@ + named(
            not_found,
        ));
    }
}

// ── What holds of links ──────────────────────────────────────────────────────

/// A track or an album of Spotify is looked up there as what it is, a playlist is
/// read at its own service, and any other link goes to Odesli, unchanged.
pub proof fn each_link_goes_to_its_service(url: Seq<char>)
    ensures
        ({
            let track = crate::pattern::is_matched(SPOTIFY_TRACK_RE@, url);
            let album = crate::pattern::is_matched(SPOTIFY_ALBUM_RE@, url);
            let playlist = crate::pattern::is_matched(SPOTIFY_PLAYLIST_RE@, url);
            let youtube = crate::pattern::is_matched(YOUTUBE_RE@, url);
            let next = streaming_step(url, kind_of_url(url), youtube).next;
            &&& track ==> next == (crate::flow::PendingView::Spotify {
                url,
                after: crate::flow::AfterSpotifyView::Link { url, kind: SearchKind::Track },
            })
            &&& album && !track ==> next == (crate::flow::PendingView::Spotify {
                url,
                after: crate::flow::AfterSpotifyView::Link { url, kind: SearchKind::Album },
            })
            &&& playlist && !track && !album ==> next == (
            crate::flow::PendingView::SpotifyPlaylist { url })
            &&& youtube && crate::youtube::id_in(url) is Some && !track && !album && !playlist
                ==> next == (crate::flow::PendingView::YoutubePlaylist { url })
            &&& youtube && crate::youtube::id_in(url) is None && !track && !album && !playlist
                ==> next == (crate::flow::PendingView::Odesli {
                url,
                after: crate::flow::AfterOdesliView::Link { service: "YouTube link"@ },
            })
            &&& !youtube && !track && !album && !playlist ==> next == (
            crate::flow::PendingView::Odesli {
                url,
                after: crate::flow::AfterOdesliView::Link { service: "Apple Music link"@ },
            })
        }),
        is_streaming(url) <==> crate::pattern::is_matched(SPOTIFY_TRACK_RE@, url)
            || crate::pattern::is_matched(SPOTIFY_ALBUM_RE@, url) || crate::pattern::is_matched(
            SPOTIFY_PLAYLIST_RE@,
            url,
        ) || crate::pattern::is_matched(YOUTUBE_RE@, url) || crate::pattern::is_matched(
            APPLE_MUSIC_RE@,
            url,
        ),
{
}

/// What a link stands for is searched for by its own query, as what it is; an
/// answer that names nothing ends the handling.
pub proof fn a_resolved_link_is_searched_for(
    url: Seq<char>,
    kind: SearchKind,
    meta: Option<crate::spotify::MetaView>,
)
    ensures
        match meta {
            Some(m) => resolved_step(url, kind, meta).next == (crate::flow::PendingView::Search {
                query: m.query,
                kind,
                after: crate::flow::AfterSearchView::Linked { url, meta: m, kind },
            }),
            None => resolved_step(url, kind, meta).next == crate::flow::PendingView::Done,
        },
{
}

/// Odesli is asked about a link exactly where the search for what it stands for
/// found nothing; results are offered, all of them, and a failure is reported.
pub proof fn odesli_is_the_last_resort(
    url: Seq<char>,
    meta: crate::spotify::MetaView,
    kind: SearchKind,
    results: Result<Seq<crate::json::JsonView>, Seq<char>>,
)
    ensures
        ({
            let step = linked_step(url, meta, kind, results);
            match results {
                Ok(found) => if found.len() == 0 {
                    step.next == (crate::flow::PendingView::Odesli {
                        url,
                        after: crate::flow::AfterOdesliView::Unlisted { meta },
                    })
                } else {
                    &&& step.next == crate::flow::PendingView::Done
                    &&& step.actions.len() == 1
                    &&& step.actions[0] matches crate::flow::ActionView::Edit {
                        text,
                        markup: crate::flow::MarkupView::Inline(rows),
                    } && rows.len() == found.len() + 1
                },
                Err(e) => {
                    &&& step.next == crate::flow::PendingView::Done
                    &&& step.actions.len() == 1
                    &&& step.actions[0] matches crate::flow::ActionView::Edit {
                        text,
                        markup,
                    } && crate::text::has_suffix(text, e)
                },
            }
        }),
{
    if results is Err {
        let e = results->Err_0;
        let text = "❌ Search failed: "@ + e;
        assert(text.subrange(text.len() - e.len(), text.len() as int) =~= e);
    }
}

/// The link that Odesli has found is the one that is queued; without one nothing
/// is.
pub proof fn the_link_of_odesli_is_queued(
    after: crate::flow::AfterOdesliView,
    link: Option<Seq<char>>,
)
    ensures
        match link {
            Some(found) => odesli_step(after, link).next matches crate::flow::PendingView::Queue {
                url,
                after: then_queued,
            } && url == found && (after matches crate::flow::AfterOdesliView::Unlisted { meta }
                ==> then_queued == (crate::flow::AfterQueueView::Linked { label: meta.label })),
            None => odesli_step(after, link).next == crate::flow::PendingView::Done,
        },
{
}

/// Where a playlist of YouTube cannot be read, its link is taken for the video
/// that it names, out of the playlist, and for nothing where it names none.
pub proof fn an_unreadable_playlist_is_taken_for_its_video(url: Seq<char>)
    ensures
        crate::text::occurs_in(url, "watch?v="@) || crate::text::occurs_in(url, "youtu.be/"@)
            ==> (youtube_step(url, None).next matches crate::flow::PendingView::Odesli {
            url: video,
            after,
        } && crate::youtube::id_in(video) is None && (url.contains('?')
            && crate::youtube::is_paramless(url) ==> video == url)),
        !crate::text::occurs_in(url, "watch?v="@) && !crate::text::occurs_in(url, "youtu.be/"@)
            ==> youtube_step(url, None).next == crate::flow::PendingView::Done,
        spotify_playlist_step(None).next == crate::flow::PendingView::Done,
{
    crate::youtube::stripped_links_name_no_playlist(url);
    if url.contains('?') && crate::youtube::is_paramless(url) {
        crate::youtube::other_links_are_kept(url);
    }
}

// ── What is said about links ─────────────────────────────────────────────────

/// What is said names what was looked for and why it was not found.
pub proof fn links_are_answered_by_what_they_are(
    url: Seq<char>,
    kind: SearchKind,
    meta: crate::spotify::MetaView,
    service: Seq<char>,
    found: Seq<crate::json::JsonView>,
    e: Seq<char>,
)
    ensures
        odesli_step(crate::flow::AfterOdesliView::Unlisted { meta }, None).actions == seq![
            crate::flow::ActionView::Edit { text: "😕 No results found on Deezer for: "@ + meta.query, markup: crate::flow::MarkupView::Plain },
        ],
        odesli_step(crate::flow::AfterOdesliView::Link { service }, None).actions == seq![
            crate::flow::ActionView::Edit { text: "😕 Couldn't find this "@ + service + " on Deezer. Try searching by name with /search."@, markup: crate::flow::MarkupView::Plain },
        ],
        resolved_step(url, kind, Some(meta)).actions == seq![
            crate::flow::ActionView::Edit { text: "🔍 Found: "@ + meta.label + "\nSearching on Deezer..."@, markup: crate::flow::MarkupView::Plain },
        ],
        resolved_step(url, kind, None).actions == seq![
            crate::flow::ActionView::Edit { text: "❌ Could not resolve Spotify link. Try /search instead."@, markup: crate::flow::MarkupView::Plain },
        ],
        linked_step(url, meta, kind, Err(e)).actions == seq![
            crate::flow::ActionView::Edit { text: "❌ Search failed: "@ + e, markup: crate::flow::MarkupView::Plain },
        ],
        spotify_playlist_step(None).actions == seq![
            crate::flow::ActionView::Edit { text: "😕 Couldn't read that Spotify playlist. Make sure it's public and try again."@, markup: crate::flow::MarkupView::Plain },
        ],
        found.len() > 0 ==> linked_step(url, meta, kind, Ok(found)) == crate::search::search_shown(
            meta.query,
            kind,
            Ok(found),
        ),
{
    assert(odesli_step(crate::flow::AfterOdesliView::Unlisted { meta }, None).actions =~= seq![
            crate::flow::ActionView::Edit { text: "😕 No results found on Deezer for: "@ + meta.query, markup: crate::flow::MarkupView::Plain },
        ]);
    assert(odesli_step(crate::flow::AfterOdesliView::Link { service }, None).actions =~= seq![
            crate::flow::ActionView::Edit { text: "😕 Couldn't find this "@ + service + " on Deezer. Try searching by name with /search."@, markup: crate::flow::MarkupView::Plain },
        ]);
    assert(resolved_step(url, kind, Some(meta)).actions =~= seq![
            crate::flow::ActionView::Edit { text: "🔍 Found: "@ + meta.label + "\nSearching on Deezer..."@, markup: crate::flow::MarkupView::Plain },
        ]);
    assert(resolved_step(url, kind, None).actions =~= seq![
            crate::flow::ActionView::Edit { text: "❌ Could not resolve Spotify link. Try /search instead."@, markup: crate::flow::MarkupView::Plain },
        ]);
    assert(linked_step(url, meta, kind, Err(e)).actions =~= seq![
            crate::flow::ActionView::Edit { text: "❌ Search failed: "@ + e, markup: crate::flow::MarkupView::Plain },
        ]);
    assert(spotify_playlist_step(None).actions =~= seq![
            crate::flow::ActionView::Edit { text: "😕 Couldn't read that Spotify playlist. Make sure it's public and try again."@, markup: crate::flow::MarkupView::Plain },
        ]);
}

/// A report on a playlist names it and says how many of its tracks were gone
/// through, out of how many.
pub proof fn progress_is_reported_by_position(run: RunView)
    requires
        run.position < run.tracks.len(),
        run.position % 5 == 0,
    ensures
        run_step(run).actions == seq![
            crate::flow::ActionView::TryEdit {
                text: "⏳ Queuing \""@ + run.name + "\" — "@ + crate::text::decimal(run.position)
                    + "/"@ + crate::text::decimal(run.tracks.len()) + " tracks..."@,
            },
        ],
{
    assert(run_step(run).actions =~= seq![
        crate::flow::ActionView::TryEdit {
            text: "⏳ Queuing \""@ + run.name + "\" — "@ + crate::text::decimal(run.position)
                + "/"@ + crate::text::decimal(run.tracks.len()) + " tracks..."@,
        },
    ]);
}

/// A run that has gone through all its tracks ends with its summary.
pub proof fn a_finished_playlist_is_summed_up(run: RunView)
    requires
        run.position >= run.tracks.len(),
    ensures
        run_step(run).next == crate::flow::PendingView::Done,
        run_step(run).actions.len() == 1,
        run_step(run).actions[0] matches crate::flow::ActionView::Edit { text, markup }
            && crate::text::has_prefix(
            text,
            "✅ Playlist \""@ + run.name + "\": queued "@ + crate::text::decimal(run.queued) + "/"@
                + crate::text::decimal(run.tracks.len()) + " tracks."@,
        ),
{
    a_summary_names_what_is_missing(run.name, run.queued, run.tracks.len(), run.not_found);
}

/// The forms of link by which each streaming service is told, with and without
/// TLS, and under each of its hosts.
pub proof fn services_are_told_by_their_hosts(text: Seq<char>)
    ensures
        crate::pattern::is_matched(SPOTIFY_TRACK_RE@, text) == crate::pattern::is_matched(
            "https?://open\\.spotify\\.com/track/([A-Za-z0-9]+)"@,
            text,
        ),
        crate::pattern::is_matched(SPOTIFY_ALBUM_RE@, text) == crate::pattern::is_matched(
            "https?://open\\.spotify\\.com/album/([A-Za-z0-9]+)"@,
            text,
        ),
        crate::pattern::is_matched(SPOTIFY_PLAYLIST_RE@, text) == crate::pattern::is_matched(
            "https?://open\\.spotify\\.com/playlist/[A-Za-z0-9]+"@,
            text,
        ),
        crate::pattern::is_matched(YOUTUBE_RE@, text) == crate::pattern::is_matched(
            "https?://(?:(?:www\\.)?youtube\\.com/|youtu\\.be/|music\\.youtube\\.com/)"@,
            text,
        ),
        crate::pattern::is_matched(APPLE_MUSIC_RE@, text) == crate::pattern::is_matched(
            "https?://music\\.apple\\.com/"@,
            text,
        ),
{
}

} // verus!
