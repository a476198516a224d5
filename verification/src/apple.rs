//! Apple Music links: songs and albums.
//!
//! The iTunes lookup API, which needs no key, tells the title and the artist
//! behind a link.

use vstd::prelude::*;

use crate::http::{request, HttpRequest, Method};
use crate::json::Json;
use crate::pattern::Groups;
use crate::spotify::{label, query};
use crate::text::lowercase;

verus! {

/// A song: music.apple.com/{storefront}/song/{slug}/{id}, where storefront and
/// slug may be missing.
pub const APPLE_SONG_RE: &'static str =
    "(?i)https?://music\\.apple\\.com/(?:([a-z]{2})/)?song/(?:[^/?#]+/)?(\\d+)";

/// An album, in the same form.
pub const APPLE_ALBUM_RE: &'static str =
    "(?i)https?://music\\.apple\\.com/(?:([a-z]{2})/)?album/(?:[^/?#]+/)?(\\d+)";

/// The id of one track in the link of its album.
pub const TRACK_IN_ALBUM_RE: &'static str = "[?&]i=(\\d+)";

/// What a link stands for: what to search for, what to call it, and whether it
/// is a `track` or an `album`.
pub struct AppleMeta {
    pub query: String,
    pub label: String,
    pub search_type: &'static str,
}

pub ghost struct AppleMetaView {
    pub query: Seq<char>,
    pub label: Seq<char>,
    pub search_type: Seq<char>,
}

impl DeepView for AppleMeta {
    type V = AppleMetaView;

    open spec fn deep_view(&self) -> AppleMetaView {
        AppleMetaView { query: self.query@, label: self.label@, search_type: self.search_type@ }
    }
}

// ── The lookup ───────────────────────────────────────────────────────────────

/// The request for a catalog id, in a storefront where one is known.
pub open spec fn lookup_view(
    id: Seq<char>,
    country: Option<Seq<char>>,
) -> crate::http::HttpRequestView {
    let r = crate::http::bare(Method::Get, "https://itunes.apple.com/lookup"@).with_query(
        "id"@,
        id,
    );
    match country {
        Some(c) => r.with_query("country"@, c),
        None => r,
    }
}

pub fn lookup_request(id: &str, country: &Option<String>) -> (r: HttpRequest)
    ensures
        r.deep_view() == lookup_view(id@, country.deep_view()),
{
    let r = request(Method::Get, "https://itunes.apple.com/lookup".to_owned()).query("id", id);
    match country {
        Some(c) => r.query("country", c.as_str()),
        None => r,
    }
}

/// The catalog id that a link names, given the groups of its match as a song,
/// as an album, and as a track in an album. The track id of an album link wins
/// over the album's own.
pub open spec fn id_of(
    song: Option<Seq<Option<Seq<char>>>>,
    album: Option<Seq<Option<Seq<char>>>>,
    track: Option<Seq<Option<Seq<char>>>>,
) -> Option<Seq<char>> {
    if song is Some {
        crate::pattern::group_of(song, 2)
    } else if crate::pattern::group_of(album, 2) is Some && crate::pattern::group_of(
        track,
        1,
    ) is Some {
        crate::pattern::group_of(track, 1)
    } else {
        crate::pattern::group_of(album, 2)
    }
}

/// The storefront that a link names, as it is written there.
pub open spec fn storefront_of(
    song: Option<Seq<Option<Seq<char>>>>,
    album: Option<Seq<Option<Seq<char>>>>,
) -> Option<Seq<char>> {
    if song is Some {
        crate::pattern::group_of(song, 1)
    } else {
        crate::pattern::group_of(album, 1)
    }
}

/// The storefront that a link names, in lower case.
pub open spec fn country_of(
    song: Option<Seq<Option<Seq<char>>>>,
    album: Option<Seq<Option<Seq<char>>>>,
) -> Option<Seq<char>> {
    match storefront_of(song, album) {
        Some(c) => Some(crate::text::lowercased(c)),
        None => None,
    }
}

/// The request that a link leads to; `None` where it is neither a song nor an
/// album.
pub open spec fn resolve_view(
    song: Option<Seq<Option<Seq<char>>>>,
    album: Option<Seq<Option<Seq<char>>>>,
    track: Option<Seq<Option<Seq<char>>>>,
) -> Option<crate::http::HttpRequestView> {
    match id_of(song, album, track) {
        Some(id) => Some(lookup_view(id, country_of(song, album))),
        None => None,
    }
}

/// The request that a link leads to, given how the patterns matched it.
pub fn resolve_matched(song: &Groups, album: &Groups, track: &Groups) -> (r: Option<HttpRequest>)
    ensures
        r.deep_view() == resolve_view(song@, album@, track@),
        id_of(song@, album@, track@) matches Some(id) ==> storefront_of(song@, album@) matches Some(
            c,
        ) ==> vstd::utf8::is_ascii_chars(c) ==> r.deep_view() == Some(
            lookup_view(id, Some(crate::text::ascii_lowered(c))),
        ),
{
    let is_song = song.found();
    let (country, id) = if is_song {
        (song.get(1), song.get(2))
    } else {
        (album.get(1), album.get(2))
    };
    let country = match country {
        Some(c) => Some(lowercase(c.as_str())),
        None => None,
    };
    match id {
        Some(id) => {
            let id = if is_song {
                id
            } else {
                match track.get(1) {
                    Some(t) => t,
                    None => id,
                }
            };
            Some(lookup_request(id.as_str(), &country))
        },
        None => None,
    }
}

/// The request that tells what a link stands for. An album link with the id of
/// one of its tracks stands for that track.
pub fn resolve(url: &str) -> (r: Option<HttpRequest>)
    ensures
        r.deep_view() == resolve_view(
            crate::pattern::regex_captures(APPLE_SONG_RE@, url@),
            crate::pattern::regex_captures(APPLE_ALBUM_RE@, url@),
            crate::pattern::regex_captures(TRACK_IN_ALBUM_RE@, url@),
        ),
        storefront_of(
            crate::pattern::regex_captures(APPLE_SONG_RE@, url@),
            crate::pattern::regex_captures(APPLE_ALBUM_RE@, url@),
        ) matches Some(c) ==> vstd::utf8::is_ascii_chars(c) && r is Some ==> r.deep_view() == Some(
            lookup_view(
                id_of(
                    crate::pattern::regex_captures(APPLE_SONG_RE@, url@),
                    crate::pattern::regex_captures(APPLE_ALBUM_RE@, url@),
                    crate::pattern::regex_captures(TRACK_IN_ALBUM_RE@, url@),
                )->0,
                Some(crate::text::ascii_lowered(c)),
            ),
        ),
        r is Some ==> crate::pattern::is_matched(APPLE_SONG_RE@, url@)
            || crate::pattern::is_matched(APPLE_ALBUM_RE@, url@),
{
    resolve_matched(
        &Groups::of(APPLE_SONG_RE, url),
        &Groups::of(APPLE_ALBUM_RE, url),
        &Groups::of(TRACK_IN_ALBUM_RE, url),
    )
}

// ── The answer ───────────────────────────────────────────────────────────────

/// What the first result of an answer stands for. Its `wrapperType` tells a
/// track from a collection.
pub open spec fn meta_in(first: crate::json::JsonView) -> Option<AppleMetaView> {
    let is_track = first.field("wrapperType"@).str() == Some("track"@);
    let title = if is_track {
        first.field("trackName"@).str()
    } else {
        first.field("collectionName"@).str()
    };
    let artist = first.field("artistName"@).str_or(""@);
    match title {
        Some(t) => Some(
            AppleMetaView {
                query: crate::spotify::query_of(t, artist),
                label: crate::spotify::label_of(t, artist),
                search_type: if is_track {
                    "track"@
                } else {
                    "album"@
                },
            },
        ),
        None => None,
    }
}

/// What the answer to a lookup says; `None` where there was no answer or no
/// result with a title in it.
pub fn lookup(reply: &Option<Json>) -> (r: Option<AppleMeta>)
    ensures
        r.deep_view() == match reply.deep_view() {
            Some(data) => match data.field("results"@).array() {
                Some(items) => if items.len() > 0 {
                    meta_in(items[0])
                } else {
                    None
                },
                None => None,
            },
            None => None,
        },
{
    match reply {
        Some(data) => match data.field("results").as_array() {
            Some(items) => {
                assert(items.deep_view().len() == items@.len());
                if items.len() == 0 {
                    return None;
                }
                assert(items.deep_view()[0] == items@[0].deep_view());
                let first = &items[0];
                let is_track = first.field("wrapperType").is_text("track");
                let title = if is_track {
                    first.field("trackName").as_str()
                } else {
                    first.field("collectionName").as_str()
                };
                let artist = first.field("artistName").str_or("");
                match title {
                    Some(t) => Some(
                        AppleMeta {
                            query: query(t, artist),
                            label: label(t, artist),
                            search_type: if is_track {
                                "track"
                            } else {
                                "album"
                            },
                        },
                    ),
                    None => None,
                }
            },
            None => None,
        },
        None => None,
    }
}

// ── What holds of links and answers ──────────────────────────────────────────

/// The song of a link is looked up, or its album, or the track that an album link
/// names; in the link's own storefront.
pub proof fn a_link_is_looked_up_by_its_id(
    song: Option<Seq<Option<Seq<char>>>>,
    album: Option<Seq<Option<Seq<char>>>>,
    track: Option<Seq<Option<Seq<char>>>>,
    id: Seq<char>,
    track_id: Seq<char>,
)
    ensures
        song is Some && crate::pattern::group_of(song, 2) == Some(id) ==> (resolve_view(
            song,
            album,
            track,
        ) matches Some(r) && r.query.len() > 0 && r.query[0] == ("id"@, id)),
        song is None && crate::pattern::group_of(album, 2) == Some(id) && crate::pattern::group_of(
            track,
            1,
        ) == Some(track_id) ==> (resolve_view(song, album, track) matches Some(r) && r.query.len()
            > 0 && r.query[0] == ("id"@, track_id)),
        song is None && crate::pattern::group_of(album, 2) == Some(id) && crate::pattern::group_of(
            track,
            1,
        ) is None ==> (resolve_view(song, album, track) matches Some(r) && r.query.len() > 0
            && r.query[0] == ("id"@, id)),
        song is None && album is None ==> resolve_view(song, album, track) is None,
        resolve_view(song, album, track) matches Some(r) ==> r.method == Method::Get && r.url
            == "https://itunes.apple.com/lookup"@ && r.body is None && (storefront_of(
            song,
            album,
        ) is None ==> r.query.len() == 1) && (storefront_of(song, album) is Some ==> r.query.len()
            == 2 && r.query[1].0 == "country"@),
        storefront_of(song, album) == (if song is Some {
            crate::pattern::group_of(song, 1)
        } else {
            crate::pattern::group_of(album, 1)
        }),
{
}

/// A track is called by its own name and searched for as a track; anything else
/// by the name of its collection and as an album.
pub proof fn an_answer_is_called_by_its_name(
    first: crate::json::JsonView,
    track: Seq<char>,
    collection: Seq<char>,
    artist: Seq<char>,
)
    requires
        first.field("trackName"@) == crate::json::JsonView::Str(track),
        first.field("collectionName"@) == crate::json::JsonView::Str(collection),
        first.field("artistName"@) == crate::json::JsonView::Str(artist),
        track.len() > 0 && collection.len() > 0 && artist.len() > 0,
        crate::text::has_no_outer_space(track),
        crate::text::has_no_outer_space(collection),
        crate::text::has_no_outer_space(artist),
    ensures
        first.field("wrapperType"@) == crate::json::JsonView::Str("track"@) ==> meta_in(first)
            == Some(
            AppleMetaView {
                query: track + " "@ + artist,
                label: track + " — "@ + artist,
                search_type: "track"@,
            },
        ),
        first.field("wrapperType"@) != crate::json::JsonView::Str("track"@) ==> meta_in(first)
            == Some(
            AppleMetaView {
                query: collection + " "@ + artist,
                label: collection + " — "@ + artist,
                search_type: "album"@,
            },
        ),
{
    crate::spotify::titles_and_artists_stand_together(track, artist);
    crate::spotify::titles_and_artists_stand_together(collection, artist);
}

/// Only the first result of an answer counts.
pub proof fn the_first_result_counts(
    reply: Option<Json>,
    r: Option<AppleMeta>,
    data: crate::json::JsonView,
    items: Seq<crate::json::JsonView>,
)
    requires
        call_ensures(lookup, (&reply,), r),
        reply.deep_view() == Some(data),
        data.field("results"@) == crate::json::JsonView::Array(items),
    ensures
        items.len() > 0 ==> r.deep_view() == meta_in(items[0]),
        items.len() == 0 ==> r is None,
{
}

/// A lookup is by id, and in a storefront where one is given.
pub proof fn a_lookup_is_in_its_storefront(id: Seq<char>, country: Seq<char>)
    ensures
        lookup_view(id, Some(country)).query == seq![("id"@, id), ("country"@, country)],
        lookup_view(id, None).query == seq![("id"@, id)],
        lookup_view(id, None).url == "https://itunes.apple.com/lookup"@,
{
    assert(lookup_view(id, Some(country)).query =~= seq![("id"@, id), ("country"@, country)]);
    assert(lookup_view(id, None).query =~= seq![("id"@, id)]);
}

/// The places in a link where Apple Music gives the storefront and the id of a
/// song, of an album, and of a track in an album.
pub proof fn ids_are_told_by_their_place(text: Seq<char>)
    ensures
        crate::pattern::regex_captures(APPLE_SONG_RE@, text) == crate::pattern::regex_captures(
            "(?i)https?://music\\.apple\\.com/(?:([a-z]{2})/)?song/(?:[^/?#]+/)?(\\d+)"@,
            text,
        ),
        crate::pattern::regex_captures(APPLE_ALBUM_RE@, text) == crate::pattern::regex_captures(
            "(?i)https?://music\\.apple\\.com/(?:([a-z]{2})/)?album/(?:[^/?#]+/)?(\\d+)"@,
            text,
        ),
        crate::pattern::regex_captures(TRACK_IN_ALBUM_RE@, text) == crate::pattern::regex_captures(
            "[?&]i=(\\d+)"@,
            text,
        ),
{
}

} // verus!
