//! Spotify links.
//!
//! The embed page of a track, album or playlist carries its data as JSON, so no
//! API key is needed; the title can also be had from oEmbed.

use vstd::prelude::*;

use crate::http::{request, HttpRequest, Method};
use crate::json::{joined_names, parse, Json};
use crate::pattern::Groups;
use crate::text::{before, replace, trim};

verus! {

/// What to search for on Deezer, and how to call it in a message.
pub struct SpotifyMeta {
    pub query: String,
    pub label: String,
}

/// A single track of a playlist.
pub struct PlaylistTrack {
    pub title: String,
    pub artist: String,
}

pub struct Playlist {
    pub name: String,
    pub tracks: Vec<PlaylistTrack>,
}

pub ghost struct MetaView {
    pub query: Seq<char>,
    pub label: Seq<char>,
}

pub ghost struct TrackView {
    pub title: Seq<char>,
    pub artist: Seq<char>,
}

#[verifier::ext_equal]
pub ghost struct PlaylistView {
    pub name: Seq<char>,
    pub tracks: Seq<TrackView>,
}

impl DeepView for SpotifyMeta {
    type V = MetaView;

    open spec fn deep_view(&self) -> MetaView {
        MetaView { query: self.query@, label: self.label@ }
    }
}

impl DeepView for PlaylistTrack {
    type V = TrackView;

    open spec fn deep_view(&self) -> TrackView {
        TrackView { title: self.title@, artist: self.artist@ }
    }
}

impl DeepView for Playlist {
    type V = PlaylistView;

    open spec fn deep_view(&self) -> PlaylistView {
        PlaylistView { name: self.name@, tracks: self.tracks.deep_view() }
    }
}

// ── The embed page ───────────────────────────────────────────────────────────

/// The address of the embed page of a Spotify link.
pub open spec fn embed_address(url: Seq<char>) -> Seq<char> {
    crate::text::before_first(
        crate::text::replaced(url, "open.spotify.com/"@, "open.spotify.com/embed/"@),
        '?',
    ) + "?utm_source=oembed"@
}

/// The request for the embed page of a Spotify link.
pub fn embed_request(url: &str) -> (r: HttpRequest)
    ensures
        r.deep_view() == crate::http::bare(Method::Get, embed_address(url@)),
{
    proof {
        reveal_strlit("open.spotify.com/");
    }
    let embed = replace(url, "open.spotify.com/", "open.spotify.com/embed/");
    let address = before(embed.as_str(), '?').concat("?utm_source=oembed");
    request(Method::Get, address)
}

/// The script of the embed page that holds its data.
pub const NEXT_DATA_RE: &'static str =
    "<script id=\"__NEXT_DATA__\" type=\"application/json\">(.*?)</script>";

/// The entity in the data of an embed page, unless it is `null`.
pub open spec fn entity_in(data: crate::json::JsonView) -> Option<crate::json::JsonView> {
    let entity = data.field("props"@).field("pageProps"@).field("state"@).field("data"@).field(
        "entity"@,
    );
    if entity is Null {
        None
    } else {
        Some(entity)
    }
}

pub fn entity_of(data: &Json) -> (r: Option<Json>)
    ensures
        r.deep_view() == entity_in(data.deep_view()),
{
    let entity = data.field("props").field("pageProps").field("state").field("data").field(
        "entity",
    );
    if entity.is_null() {
        None
    } else {
        Some(entity.clone())
    }
}

/// The entity that an embed page shows.
pub open spec fn page_entity(body: Seq<char>) -> Option<crate::json::JsonView> {
    match crate::pattern::group_of(crate::pattern::regex_captures(NEXT_DATA_RE@, body), 1) {
        Some(text) => match crate::json::json_document(text) {
            Some(data) => entity_in(data),
            None => None,
        },
        None => None,
    }
}

/// Reads the entity out of an embed page.
pub fn get_embed_entity(body: &str) -> (r: Option<Json>)
    ensures
        r.deep_view() == page_entity(body@),
{
    match Groups::of(NEXT_DATA_RE, body).get(1) {
        Some(text) => match parse(text.as_str()) {
            Some(data) => entity_of(&data),
            None => None,
        },
        None => None,
    }
}

/// The title of an entity.
pub open spec fn title_in(entity: Option<crate::json::JsonView>) -> Seq<char> {
    match entity {
        Some(e) => e.field("name"@).str_or(""@),
        None => ""@,
    }
}

/// The artists of an entity, with commas between them.
pub open spec fn artist_in(entity: Option<crate::json::JsonView>) -> Seq<char> {
    match entity {
        Some(e) => crate::text::joined(
            crate::json::names_of(e.field("artists"@).items()),
            ", "@,
        ),
        None => ""@,
    }
}

/// Title and artists of an entity; both empty where there is none.
pub fn get_metadata_from_embed(entity: &Option<Json>) -> (r: (String, String))
    ensures
        r.0@ == title_in(entity.deep_view()),
        r.1@ == artist_in(entity.deep_view()),
{
    match entity {
        Some(e) => (
            e.field("name").str_or("").to_owned(),
            joined_names(e.field("artists")),
        ),
        None => ("".to_owned(), "".to_owned()),
    }
}

// ── Tracks and albums ────────────────────────────────────────────────────────

pub open spec fn oembed_view(url: Seq<char>) -> crate::http::HttpRequestView {
    crate::http::bare(Method::Get, "https://open.spotify.com/oembed"@).with_query("url"@, url)
}

fn oembed_request(url: &str) -> (r: HttpRequest)
    ensures
        r.deep_view() == oembed_view(url@),
{
    request(Method::Get, "https://open.spotify.com/oembed".to_owned()).query("url", url)
}

/// The title that oEmbed gives, if it gives one.
pub fn get_title_from_oembed(reply: &Option<Json>) -> (r: Option<String>)
    ensures
        r.deep_view() == match reply.deep_view() {
            Some(data) => data.field("title"@).str(),
            None => None,
        },
{
    match reply {
        Some(data) => data.field("title").to_text(),
        None => None,
    }
}

/// How a title and an artist are called in a message.
pub open spec fn label_of(title: Seq<char>, artist: Seq<char>) -> Seq<char> {
    if artist.len() == 0 {
        title
    } else {
        title + " — "@ + artist
    }
}

pub fn label(title: &str, artist: &str) -> (r: String)
    ensures
        r@ == label_of(title@, artist@),
{
    if artist.is_empty() {
        title.to_owned()
    } else {
        title.to_owned().concat(" — ").concat(artist)
    }
}

/// What to search for, given a title and an artist.
pub open spec fn query_of(title: Seq<char>, artist: Seq<char>) -> Seq<char> {
    crate::text::trimmed(title + " "@ + artist)
}

pub fn query(title: &str, artist: &str) -> (r: String)
    ensures
        r@ == query_of(title@, artist@),
{
    trim(title.to_owned().concat(" ").concat(artist).as_str())
}

/// What to search for, where there is a title.
pub open spec fn meta_of(title: Seq<char>, artist: Seq<char>) -> Option<MetaView> {
    if title.len() == 0 {
        None
    } else {
        Some(MetaView { query: query_of(title, artist), label: label_of(title, artist) })
    }
}

fn meta(title: &str, artist: &str) -> (r: Option<SpotifyMeta>)
    ensures
        r.deep_view() == meta_of(title@, artist@),
{
    if title.is_empty() {
        None
    } else {
        Some(SpotifyMeta { query: query(title, artist), label: label(title, artist) })
    }
}

/// What follows the embed page of a track or an album.
pub enum Resolve {
    /// It gave the title.
    Found(SpotifyMeta),
    /// It did not: ask oEmbed, then go on with [`resolve_title`].
    AskTitle { artist: String, request: HttpRequest },
}

pub ghost enum ResolveView {
    Found(MetaView),
    AskTitle { artist: Seq<char>, request: crate::http::HttpRequestView },
}

impl DeepView for Resolve {
    type V = ResolveView;

    open spec fn deep_view(&self) -> ResolveView {
        match self {
            Resolve::Found(m) => ResolveView::Found(m.deep_view()),
            Resolve::AskTitle { artist, request } => ResolveView::AskTitle {
                artist: artist@,
                request: request.deep_view(),
            },
        }
    }
}

/// What follows from the entity of an embed page: it is enough where it has a
/// title.
pub open spec fn resolved(url: Seq<char>, entity: Option<crate::json::JsonView>) -> ResolveView {
    match meta_of(title_in(entity), artist_in(entity)) {
        Some(m) => ResolveView::Found(m),
        None => ResolveView::AskTitle { artist: artist_in(entity), request: oembed_view(url) },
    }
}

/// What follows from the entity of an embed page.
pub fn resolve_entity(url: &str, entity: &Option<Json>) -> (r: Resolve)
    ensures
        r.deep_view() == resolved(url@, entity.deep_view()),
{
    let (title, artist) = get_metadata_from_embed(entity);
    match meta(title.as_str(), artist.as_str()) {
        Some(m) => Resolve::Found(m),
        None => Resolve::AskTitle { artist, request: oembed_request(url) },
    }
}

/// What follows from the embed page of a link, where it could be had.
pub fn resolve(url: &str, page: &Option<String>) -> (r: Resolve)
    ensures
        r.deep_view() == resolved(
            url@,
            match page.deep_view() {
                Some(body) => page_entity(body),
                None => None,
            },
        ),
{
    let entity = match page {
        Some(body) => get_embed_entity(body.as_str()),
        None => None,
    };
    resolve_entity(url, &entity)
}

/// What to search for, given the artist that the embed page showed and the
/// reply of oEmbed, where there was one.
pub fn resolve_title(artist: &str, reply: &Option<Json>) -> (r: Option<SpotifyMeta>)
    ensures
        r.deep_view() == match reply.deep_view() {
            Some(data) => meta_of(data.field("title"@).str_or(Seq::empty()), artist@),
            None => None,
        },
{
    match get_title_from_oembed(reply) {
        Some(title) => meta(title.as_str(), artist),
        None => None,
    }
}

// ── Playlists ────────────────────────────────────────────────────────────────

/// The track that an item of a track list describes, where it has a title.
pub open spec fn track_of(item: crate::json::JsonView) -> Option<TrackView> {
    match item.field("title"@).str() {
        Some(title) => if crate::text::trimmed(title).len() == 0 {
            None
        } else {
            Some(
                TrackView {
                    title: crate::text::trimmed(title),
                    artist: crate::text::trimmed(item.field("subtitle"@).str_or(""@)),
                },
            )
        },
        None => None,
    }
}

/// The tracks that the items of a track list describe, in order.
pub open spec fn tracks_of(items: Seq<crate::json::JsonView>) -> Seq<TrackView>
    decreases items.len(),
{
    if items.len() == 0 {
        Seq::empty()
    } else {
        let rest = tracks_of(items.drop_last());
        match track_of(items.last()) {
            Some(t) => rest.push(t),
            None => rest,
        }
    }
}

/// The playlist that an entity describes, where it has a track list with a
/// track in it.
pub open spec fn playlist_in(entity: crate::json::JsonView) -> Option<PlaylistView> {
    match entity.field("trackList"@).array() {
        Some(items) => if tracks_of(items).len() == 0 {
            None
        } else {
            Some(
                PlaylistView {
                    name: entity.field("name"@).str_or(
                        entity.field("title"@).str_or("Spotify playlist"@),
                    ),
                    tracks: tracks_of(items),
                },
            )
        },
        None => None,
    }
}

fn track(item: &Json) -> (r: Option<PlaylistTrack>)
    ensures
        r.deep_view() == track_of(item.deep_view()),
{
    match item.field("title").as_str() {
        Some(title) => {
            let title = trim(title);
            if title.as_str().is_empty() {
                None
            } else {
                let artist = trim(item.field("subtitle").str_or(""));
                Some(PlaylistTrack { title, artist })
            }
        },
        None => None,
    }
}

/// The playlist that an entity describes.
pub fn playlist_of(entity: &Json) -> (r: Option<Playlist>)
    ensures
        r.deep_view() == playlist_in(entity.deep_view()),
{
    match entity.field("trackList").as_array() {
        Some(items) => {
            let ghost all = items.deep_view();
            let mut tracks: Vec<PlaylistTrack> = Vec::new();
            let mut i: usize = 0;
            while i < items.len()
                invariant
                    all == items.deep_view(),
                    i <= items@.len(),
                    tracks.deep_view() == tracks_of(all.take(i as int)),
                decreases items@.len() - i,
            {
                proof {
                    assert(all.take(i + 1).drop_last() == all.take(i as int));
                    assert(all.take(i + 1).last() == items@[i as int].deep_view());
                }
                let ghost before = tracks.deep_view();
                match track(&items[i]) {
                    Some(t) => {
                        let ghost view = t.deep_view();
                        tracks.push(t);
                        assert(tracks.deep_view() =~= before.push(view));
                    },
                    None => {},
                }
                i += 1;
            }
            assert(all.take(i as int) == all);
            assert(tracks.deep_view().len() == tracks@.len());
            if tracks.len() == 0 {
                return None;
            }
            let name = entity.field("name").str_or(
                entity.field("title").str_or("Spotify playlist"),
            ).to_owned();
            Some(Playlist { name, tracks })
        },
        None => None,
    }
}

/// The playlist that an embed page shows, where the page could be had.
pub fn resolve_playlist(page: &Option<String>) -> (r: Option<Playlist>)
    ensures
        r.deep_view() == match page.deep_view() {
            Some(body) => match page_entity(body) {
                Some(entity) => playlist_in(entity),
                None => None,
            },
            None => None,
        },
{
    match page {
        Some(body) => match get_embed_entity(body.as_str()) {
            Some(entity) => playlist_of(&entity),
            None => None,
        },
        None => None,
    }
}

/// Every track of a resolved playlist has a title, and there is one.
pub proof fn playlists_have_titled_tracks(entity: crate::json::JsonView)
    requires
        playlist_in(entity) is Some,
    ensures
        playlist_in(entity)->0.tracks.len() > 0,
        forall|i: int|
            0 <= i < playlist_in(entity)->0.tracks.len() ==> (
            #[trigger] playlist_in(entity)->0.tracks[i]).title.len() > 0,
{
    lemma_titled_tracks(entity.field("trackList"@).array()->0);
}

proof fn lemma_titled_tracks(items: Seq<crate::json::JsonView>)
    ensures
        forall|i: int|
            0 <= i < tracks_of(items).len() ==> (#[trigger] tracks_of(items)[i]).title.len() > 0,
    decreases items.len(),
{
    if items.len() > 0 {
        let rest = tracks_of(items.drop_last());
        lemma_titled_tracks(items.drop_last());
        assert forall|i: int| 0 <= i < tracks_of(items).len() implies (
        #[trigger] tracks_of(items)[i]).title.len() > 0 by {
            if i < rest.len() {
                assert(tracks_of(items)[i] == rest[i]);
            }
        }
    }
}

// ── What holds of links and entities ─────────────────────────────────────────

/// The embed page of a link is that of the same thing, without the link's own
/// parameters.
pub proof fn the_embed_page_is_of_the_same_thing(
    scheme: Seq<char>,
    path: Seq<char>,
    parameters: Seq<char>,
)
    requires
        !scheme.contains('?'),
        !path.contains('?'),
        parameters.len() > 0 ==> parameters[0] == '?',
        !crate::text::occurs_in(path + parameters, "open.spotify.com/"@),
        forall|i: int|
            0 <= i < scheme.len() ==> !#[trigger] crate::text::occurs_at(
                scheme + "open.spotify.com/"@ + (path + parameters),
                "open.spotify.com/"@,
                i,
            ),
    ensures
        embed_address(scheme + "open.spotify.com/"@ + (path + parameters)) == scheme
            + "open.spotify.com/embed/"@ + path + "?utm_source=oembed"@,
{
    reveal_strlit("open.spotify.com/");
    reveal_strlit("open.spotify.com/embed/");
    let host = "open.spotify.com/"@;
    let embed = "open.spotify.com/embed/"@;
    let tail = path + parameters;
    crate::text::the_first_occurrence_is_replaced(scheme, host, tail, embed);
    crate::text::other_texts_are_not_replaced(tail, host, embed);
    let front = scheme + embed + path;
    assert(!front.contains('?')) by {
        if front.contains('?') {
            let i = choose|i: int| 0 <= i < front.len() && front[i] == '?';
            if i < scheme.len() {
                assert(scheme[i] == '?');
            } else if i < scheme.len() + embed.len() {
                assert(embed[i - scheme.len()] == '?');
            } else {
                assert(path[i - scheme.len() - embed.len()] == '?');
            }
        }
    }
    let whole = scheme + embed + tail;
    if parameters.len() == 0 {
        assert(whole =~= front);
        crate::text::a_character_ends_what_is_before_it(front, '?', parameters);
    } else {
        assert(whole =~= front + seq!['?'] + parameters.drop_first());
        crate::text::a_character_ends_what_is_before_it(front, '?', parameters.drop_first());
    }
}

/// A title and an artist are searched for together and named together; without
/// an artist the title stands alone.
pub proof fn titles_and_artists_stand_together(title: Seq<char>, artist: Seq<char>)
    requires
        title.len() > 0,
        crate::text::has_no_outer_space(title),
        crate::text::has_no_outer_space(artist),
    ensures
        artist.len() > 0 ==> (meta_of(title, artist) matches Some(m) && m.query == title + " "@
            + artist && m.label == title + " — "@ + artist),
        artist.len() == 0 ==> (meta_of(title, artist) matches Some(m) && m.query == title && m.label
            == title),
{
    reveal_strlit(" ");
    let none = Seq::<char>::empty();
    if artist.len() > 0 {
        let s = title + " "@ + artist;
        assert(none + s + none =~= s);
        crate::text::trimming_takes_the_outer_space(none, s, none);
    } else {
        assert(title + " "@ + artist =~= none + title + " "@);
        crate::text::trimming_takes_the_outer_space(none, title, " "@);
    }
}

/// What an entity is called is what it stands for; Spotify is asked for a title
/// only where the entity has none, and about the same link.
pub proof fn an_entity_is_called_by_its_name(
    url: Seq<char>,
    entity: crate::json::JsonView,
    name: Seq<char>,
    first: crate::json::JsonView,
    artist: Seq<char>,
)
    requires
        entity.field("name"@) == crate::json::JsonView::Str(name),
        entity.field("artists"@) == crate::json::JsonView::Array(seq![first]),
        first.field("name"@) == crate::json::JsonView::Str(artist),
        crate::text::has_no_outer_space(name),
        crate::text::has_no_outer_space(artist),
        artist.len() > 0,
    ensures
        name.len() > 0 ==> (resolved(url, Some(entity)) matches ResolveView::Found(m) && m.query
            == name + " "@ + artist && m.label == name + " — "@ + artist),
        name.len() == 0 ==> (resolved(url, Some(entity)) matches ResolveView::AskTitle {
            artist: known,
            request,
        } && known == artist && request.url == "https://open.spotify.com/oembed"@ && request.query
            == seq![("url"@, url)] && request.method == Method::Get),
        resolved(url, None) is AskTitle,
{
    reveal_strlit("");
    crate::json::names_are_read_in_order(seq![first], seq![first], first);
    crate::text::parts_are_joined_in_order(seq![artist], seq![artist], artist, ", "@);
    if name.len() > 0 {
        titles_and_artists_stand_together(name, artist);
    } else {
        assert(oembed_view(url).query =~= seq![("url"@, url)]);
    }
}

/// A track of a playlist is an item with a title, whose subtitle is the artist,
/// both without the space around them.
pub proof fn an_item_is_a_track(
    item: crate::json::JsonView,
    before: Seq<char>,
    title: Seq<char>,
    behind: Seq<char>,
)
    requires
        crate::text::is_all_white(before),
        crate::text::is_all_white(behind),
        crate::text::has_no_outer_space(title),
        item.field("title"@) == crate::json::JsonView::Str(before + title + behind),
    ensures
        title.len() == 0 ==> track_of(item) is None,
        title.len() > 0 ==> (track_of(item) matches Some(t) && t.title == title && (item.field(
            "subtitle"@,
        ) matches crate::json::JsonView::Str(artist) ==> (crate::text::has_no_outer_space(artist)
            ==> t.artist == artist)) && (!(item.field("subtitle"@) is Str) ==> t.artist.len()
            == 0)),
{
    reveal_strlit("");
    let none = Seq::<char>::empty();
    crate::text::trimming_takes_the_outer_space(before, title, behind);
    if item.field("subtitle"@) is Str {
        let artist = item.field("subtitle"@)->Str_0;
        if crate::text::has_no_outer_space(artist) {
            crate::text::trimming_takes_the_outer_space(none, artist, none);
        }
    } else {
        crate::text::trimming_takes_the_outer_space(none, none, none);
        assert(""@ =~= none);
    }
}

/// The tracks of a playlist come in their order, and what has no title is passed
/// over.
pub proof fn tracks_are_read_in_order(
    a: Seq<crate::json::JsonView>,
    b: Seq<crate::json::JsonView>,
    item: crate::json::JsonView,
)
    ensures
        tracks_of(a + b) == tracks_of(a) + tracks_of(b),
        track_of(item) matches Some(t) ==> tracks_of(seq![item]) == seq![t],
        track_of(item) is None ==> tracks_of(seq![item]).len() == 0,
        !(item.field("title"@) is Str) ==> track_of(item) is None,
    decreases b.len(),
{
    let one = seq![item];
    assert(one.drop_last() =~= Seq::<crate::json::JsonView>::empty());
    assert(one.last() == item);
    assert(tracks_of(one.drop_last()) =~= Seq::<TrackView>::empty());
    if track_of(item) is Some {
        assert(tracks_of(one) =~= seq![track_of(item)->0]);
    }
    if b.len() == 0 {
        assert(a + b =~= a);
        assert(tracks_of(a) + tracks_of(b) =~= tracks_of(a));
    } else {
        tracks_are_read_in_order(a, b.drop_last(), item);
        assert((a + b).drop_last() =~= a + b.drop_last());
        assert((a + b).last() == b.last());
        assert(tracks_of(a + b) =~= tracks_of(a) + tracks_of(b));
    }
}

/// A playlist is all the tracks of its entity, under its name, or its title
/// where it has no name; without tracks it is none.
pub proof fn a_playlist_is_its_track_list(
    entity: crate::json::JsonView,
    items: Seq<crate::json::JsonView>,
)
    requires
        entity.field("trackList"@) == crate::json::JsonView::Array(items),
    ensures
        tracks_of(items).len() == 0 ==> playlist_in(entity) is None,
        tracks_of(items).len() > 0 ==> (playlist_in(entity) matches Some(p) && p.tracks
            == tracks_of(items) && (entity.field("name"@) matches crate::json::JsonView::Str(name)
            ==> p.name == name) && (!(entity.field("name"@) is Str) ==> (entity.field(
            "title"@,
        ) matches crate::json::JsonView::Str(title) ==> p.name == title))),
{
}

/// The artists of an entity are all named, in order.
pub proof fn all_artists_are_named(
    entity: crate::json::JsonView,
    first: crate::json::JsonView,
    second: crate::json::JsonView,
    a: Seq<char>,
    b: Seq<char>,
)
    requires
        first.field("name"@) == crate::json::JsonView::Str(a),
        second.field("name"@) == crate::json::JsonView::Str(b),
    ensures
        entity.field("artists"@) == crate::json::JsonView::Array(seq![first]) ==> artist_in(
            Some(entity),
        ) == a,
        entity.field("artists"@) == crate::json::JsonView::Array(seq![first, second]) ==> artist_in(
            Some(entity),
        ) == a + ", "@ + b,
        entity.field("name"@) == crate::json::JsonView::Str(a) ==> title_in(Some(entity)) == a,
        title_in(None).len() == 0,
        artist_in(None).len() == 0,
{
    reveal_strlit("");
    let x = seq![first];
    let y = seq![second];
    assert(seq![first, second] =~= x + y);
    crate::json::names_are_read_in_order(x, y, first);
    crate::json::names_are_read_in_order(x, y, second);
    crate::text::parts_are_joined_in_order(seq![a], seq![b], a, ", "@);
    crate::text::parts_are_joined_in_order(seq![a], seq![b], b, ", "@);
}

/// The entity of a page stands under its own name in the page's data, and is
/// taken as it is.
pub proof fn the_entity_is_taken_as_it_is(
    body: Seq<char>,
    text: Seq<char>,
    data: crate::json::JsonView,
    entity: crate::json::JsonView,
)
    requires
        data.field("props"@).field("pageProps"@).field("state"@).field("data"@).field("entity"@)
            == entity,
    ensures
        entity is Null ==> entity_in(data) is None,
        !(entity is Null) ==> entity_in(data) == Some(entity),
        crate::pattern::group_of(crate::pattern::regex_captures(NEXT_DATA_RE@, body), 1) == Some(
            text,
        ) && crate::json::json_document(text) == Some(data) && !(entity is Null) ==> page_entity(
            body,
        ) == Some(entity),
        crate::pattern::group_of(crate::pattern::regex_captures(NEXT_DATA_RE@, body), 1) is None
            ==> page_entity(body) is None,
{
}

/// The place in an embed page where its data stands.
pub proof fn data_is_told_by_its_script(text: Seq<char>)
    ensures
        crate::pattern::regex_captures(NEXT_DATA_RE@, text) == crate::pattern::regex_captures(
            "<script id=\"__NEXT_DATA__\" type=\"application/json\">(.*?)</script>"@,
            text,
        ),
{
}

/// A playlist without a name and a title is called just that.
pub proof fn a_nameless_playlist_is_called_that(
    entity: crate::json::JsonView,
    items: Seq<crate::json::JsonView>,
)
    requires
        entity.field("trackList"@) == crate::json::JsonView::Array(items),
        !(entity.field("name"@) is Str),
        !(entity.field("title"@) is Str),
    ensures
        playlist_in(entity) matches Some(p) ==> p.name == "Spotify playlist"@,
{
}

} // verus!
