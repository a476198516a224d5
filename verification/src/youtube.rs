//! YouTube playlists.
//!
//! A playlist page carries its data as JSON, so no API key is needed. The page
//! shows the first hundred videos or so; mixes have no page.

use vstd::prelude::*;

use crate::http::{request, HttpRequest, Method, Page};
use crate::json::{parse, Json};
use crate::pattern::{replace_all, Groups};
use crate::spotify::{Playlist, PlaylistTrack};
use crate::text::{
    before, chars_of, contains, drop_suffix, index_of, replace_once, starts_with, string_of, trim,
};
use crate::titles::{tidy_title, TITLE_NOISE_RE};

verus! {

/// The id of a playlist in a link.
pub const LIST_ID_RE: &'static str = "[?&]list=([A-Za-z0-9_-]+)";

/// The parameters of a link that place a video in a playlist.
pub const PLAYLIST_PARAMS_RE: &'static str = "[?&](list|index|start_radio)=[^&]*";

/// The script of a playlist page that holds its data.
pub const YT_INITIAL_DATA_RE: &'static str =
    "(?s)var ytInitialData\\s*=\\s*(\\{.*?\\});\\s*</script>";

/// A character of a playlist's id.
pub open spec fn is_id_char(c: char) -> bool {
    ||| 'A' <= c <= 'Z'
    ||| 'a' <= c <= 'z'
    ||| '0' <= c <= '9'
    ||| c == '_'
    ||| c == '-'
}

/// How many characters of an id `s` starts with.
pub open spec fn id_len(s: Seq<char>) -> nat
    decreases s.len(),
{
    if s.len() > 0 && is_id_char(s[0]) {
        1 + id_len(s.drop_first())
    } else {
        0
    }
}

/// `s` starts with a parameter of this name: the mark before it, the name and
/// what stands behind the name.
pub open spec fn starts_named(s: Seq<char>, name: Seq<char>) -> bool {
    s.len() > 0 && (s[0] == '?' || s[0] == '&') && crate::text::has_prefix(s.drop_first(), name)
}

/// The id of the playlist that a link names: the value of its first parameter
/// `list` that starts like an id.
pub open spec fn id_in(url: Seq<char>) -> Option<Seq<char>>
    decreases url.len(),
{
    if url.len() == 0 {
        None
    } else if starts_named(url, "list="@) && id_len(url.skip(6)) > 0 {
        Some(url.skip(6).take(id_len(url.skip(6)) as int))
    } else {
        id_in(url.drop_first())
    }
}

pub fn playlist_id(url: &str) -> (r: Option<String>)
    ensures
        r.deep_view() == id_in(url@),
        r is Some ==> crate::text::occurs_in(url@, r->0@),
{
    Groups::of(LIST_ID_RE, url).get(1)
}

// ── Single videos ────────────────────────────────────────────────────────────

/// `s` starts with a parameter that places a video in a playlist.
pub open spec fn starts_param(s: Seq<char>) -> bool {
    ||| starts_named(s, "list="@)
    ||| starts_named(s, "index="@)
    ||| starts_named(s, "start_radio="@)
}

/// A link without the parameters that place its video in a playlist: each goes
/// with the mark before it, up to the next ampersand.
pub open spec fn without_params(url: Seq<char>) -> Seq<char>
    decreases url.len(),
{
    if url.len() == 0 {
        url
    } else if starts_param(url) {
        proof {
            crate::text::lemma_first_index(url.drop_first(), '&');
        }
        without_params(
            url.drop_first().skip(crate::text::first_index(url.drop_first(), '&') as int),
        )
    } else {
        seq![url[0]] + without_params(url.drop_first())
    }
}

/// A link without a question mark gets one in place of its first ampersand.
pub open spec fn mended(url: Seq<char>) -> Seq<char> {
    if crate::text::occurs_in(url, "?"@) {
        url
    } else {
        crate::text::replaced_once(url, "&"@, "?"@)
    }
}

pub fn mend_query(url: &str) -> (r: String)
    ensures
        r@ == mended(url@),
{
    if contains(url, "?") {
        url.to_owned()
    } else {
        replace_once(url, "&", "?")
    }
}

/// What is left of a link once its playlist parameters are out, with a question
/// mark before its parameters. Where the first parameter was taken out, an
/// ampersand stands in the place of the link's question mark, and becomes one.
pub open spec fn mended_from(url: Seq<char>, stripped: Seq<char>) -> Seq<char> {
    let front = crate::text::before_first(url, '?');
    let q = front.len() as int;
    if q < url.len() && crate::text::has_prefix(stripped, front) && q < stripped.len()
        && stripped[q] == '&' {
        stripped.update(q, '?')
    } else {
        mended(stripped)
    }
}

pub fn mend_from(url: &str, stripped: &str) -> (r: String)
    ensures
        r@ == mended_from(url@, stripped@),
{
    let whole = chars_of(url);
    let mut left = chars_of(stripped);
    let q: usize = index_of(&whole, '?');
    let front = before(url, '?');
    proof {
        crate::text::lemma_first_index(url@, '?');
    }
    if q < whole.len() && starts_with(stripped, front.as_str()) && q < left.len() && left[q]
        == '&' {
        left.set(q, '?');
        let r = string_of(&left, 0, left.len());
        assert(r@ =~= stripped@.update(q as int, '?'));
        r
    } else {
        mend_query(stripped)
    }
}

/// A link to the video alone, out of whatever playlist.
pub open spec fn single_video(url: Seq<char>) -> Seq<char> {
    mended_from(url, without_params(url))
}

/// Takes the playlist parameters out of a link, so that it names one video.
pub fn strip_playlist_params(url: &str) -> (r: String)
    ensures
        r@ == single_video(url@),
        id_in(r@) is None,
{
    proof {
        stripped_links_name_no_playlist(url@);
        reveal_strlit("");
    }
    match replace_all(PLAYLIST_PARAMS_RE, url, "") {
        Some(stripped) => mend_from(url, stripped.as_str()),
        None => mend_from(url, url),
    }
}

// ── Titles and channels ──────────────────────────────────────────────────────

/// A video title without bracketed noise and surplus spaces.
pub fn clean_video_title(t: &str) -> (r: String)
    ensures
        r@ == crate::titles::cleaned_title(t@),
{
    match replace_all(TITLE_NOISE_RE, t, " ") {
        Some(quiet) => tidy_title(quiet.as_str()),
        None => tidy_title(t),
    }
}

/// The artist that a channel is named after.
pub open spec fn channel_artist(c: Seq<char>) -> Seq<char> {
    crate::text::trimmed(
        crate::text::without_suffix(
            crate::text::without_suffix(crate::text::trimmed(c), " - Topic"@),
            "VEVO"@,
        ),
    )
}

pub fn clean_channel(c: &str) -> (r: String)
    ensures
        r@ == channel_artist(c@),
{
    let c = trim(c);
    let c = drop_suffix(c.as_str(), " - Topic");
    let c = drop_suffix(c.as_str(), "VEVO");
    trim(c.as_str())
}

// ── Playlists ────────────────────────────────────────────────────────────────

/// The request for the page of the playlist that a link names. A mix is made
/// up for each viewer and has no page.
pub open spec fn page_request(id: Option<Seq<char>>) -> Option<crate::http::HttpRequestView> {
    match id {
        Some(id) => if crate::text::has_prefix(id, "RD"@) {
            None
        } else {
            Some(
                crate::http::bare(
                    Method::Get,
                    "https://www.youtube.com/playlist?list="@ + id,
                ).with_header("User-Agent"@, USER_AGENT@).with_header(
                    "Accept-Language"@,
                    "en-US,en;q=0.9"@,
                ).with_header("Cookie"@, "CONSENT=YES+1; SOCS=CAI"@),
            )
        },
        None => None,
    }
}

/// What the bot calls itself towards YouTube.
pub const USER_AGENT: &'static str =
    "Mozilla/5.0 (Windows NT 10.0; Win64; x64) AppleWebKit/537.36 (KHTML, like Gecko) Chrome/124.0 Safari/537.36";

/// The request for the page of a playlist.
pub fn request_for_id(id: &Option<String>) -> (r: Option<HttpRequest>)
    ensures
        r.deep_view() == page_request(id.deep_view()),
{
    match id {
        Some(id) => if starts_with(id.as_str(), "RD") {
            None
        } else {
            let address = "https://www.youtube.com/playlist?list=".to_owned().concat(id.as_str());
            Some(
                request(Method::Get, address).header("User-Agent", USER_AGENT).header(
                    "Accept-Language",
                    "en-US,en;q=0.9",
                ).header("Cookie", "CONSENT=YES+1; SOCS=CAI"),
            )
        },
        None => None,
    }
}

/// The request for the page of the playlist that a link names.
pub fn playlist_request(url: &str) -> (r: Option<HttpRequest>)
    ensures
        r.deep_view() == page_request(id_in(url@)),
{
    request_for_id(&playlist_id(url))
}

/// The track that a video with this title and channel is. A title of the form
/// "Artist - Song" carries the artist; any other is credited to the channel.
pub open spec fn video_track(title: Seq<char>, channel: Seq<char>) -> Option<
    crate::spotify::TrackView,
> {
    if title.len() == 0 {
        None
    } else {
        Some(
            crate::spotify::TrackView {
                title,
                artist: if crate::text::occurs_in(title, " - "@) {
                    ""@
                } else {
                    channel_artist(channel)
                },
            },
        )
    }
}

/// The track that a video is, given its cleaned title.
pub fn track_from(title: String, channel: &str) -> (r: Option<PlaylistTrack>)
    ensures
        r.deep_view() == video_track(title@, channel@),
{
    if title.as_str().is_empty() {
        return None;
    }
    let artist = if contains(title.as_str(), " - ") {
        "".to_owned()
    } else {
        clean_channel(channel)
    };
    Some(PlaylistTrack { title, artist })
}

/// The track that an item of a playlist describes. An item without a title is
/// no video.
pub open spec fn item_track(item: crate::json::JsonView) -> Option<crate::spotify::TrackView> {
    let r = item.field("playlistVideoRenderer"@);
    match r.field("title"@).field("runs"@).item(0).field("text"@).str() {
        Some(raw) => video_track(
            crate::titles::cleaned_title(raw),
            r.field("shortBylineText"@).field("runs"@).item(0).field("text"@).str_or(""@),
        ),
        None => None,
    }
}

fn track(item: &Json) -> (r: Option<PlaylistTrack>)
    ensures
        r.deep_view() == item_track(item.deep_view()),
{
    let video = item.field("playlistVideoRenderer");
    match video.field("title").field("runs").item(0).field("text").as_str() {
        Some(raw) => {
            let channel = video.field("shortBylineText").field("runs").item(0).field("text").str_or(
                "",
            );
            track_from(clean_video_title(raw), channel)
        },
        None => None,
    }
}

/// The tracks that the items of a playlist describe, in order.
pub open spec fn item_tracks(items: Seq<crate::json::JsonView>) -> Seq<crate::spotify::TrackView>
    decreases items.len(),
{
    if items.len() == 0 {
        Seq::empty()
    } else {
        let rest = item_tracks(items.drop_last());
        match item_track(items.last()) {
            Some(t) => rest.push(t),
            None => rest,
        }
    }
}

/// The items of the playlist in the data of its page.
pub open spec fn items_in(data: crate::json::JsonView) -> Option<Seq<crate::json::JsonView>> {
    data.field("contents"@).field("twoColumnBrowseResultsRenderer"@).field("tabs"@).item(0).field(
        "tabRenderer"@,
    ).field("content"@).field("sectionListRenderer"@).field("contents"@).item(0).field(
        "itemSectionRenderer"@,
    ).field("contents"@).item(0).field("playlistVideoListRenderer"@).field("contents"@).array()
}

/// The playlist in the data of its page, where there is a track in it.
pub open spec fn playlist_in(data: crate::json::JsonView) -> Option<
    crate::spotify::PlaylistView,
> {
    match items_in(data) {
        Some(items) => if item_tracks(items).len() == 0 {
            None
        } else {
            Some(
                crate::spotify::PlaylistView {
                    name: data.field("metadata"@).field("playlistMetadataRenderer"@).field(
                        "title"@,
                    ).str_or("YouTube playlist"@),
                    tracks: item_tracks(items),
                },
            )
        },
        None => None,
    }
}

/// The playlist in the data of its page.
pub fn playlist_of(data: &Json) -> (r: Option<Playlist>)
    ensures
        r.deep_view() == playlist_in(data.deep_view()),
{
    let contents = data.field("contents").field("twoColumnBrowseResultsRenderer").field(
        "tabs",
    ).item(0).field("tabRenderer").field("content").field("sectionListRenderer").field(
        "contents",
    ).item(0).field("itemSectionRenderer").field("contents").item(0).field(
        "playlistVideoListRenderer",
    ).field("contents");
    match contents.as_array() {
        Some(items) => {
            let ghost all = items.deep_view();
            let mut tracks: Vec<PlaylistTrack> = Vec::new();
            let mut i: usize = 0;
            while i < items.len()
                invariant
                    all == items.deep_view(),
                    i <= items@.len(),
                    tracks.deep_view() == item_tracks(all.take(i as int)),
                decreases items@.len() - i,
            {
                proof {
                    assert(all.take(i + 1).drop_last() == all.take(i as int));
                    assert(all.take(i + 1).last() == items@[i as int].deep_view());
                }
                let ghost before = tracks.deep_view();
                match track(&items[i]) {
                    Some(t) => {
                        let ghost view = t.deep_view();
                        tracks.push(t);
                        assert(tracks.deep_view() =~= before.push(view));
                    },
                    None => {},
                }
                i += 1;
            }
            assert(all.take(i as int) == all);
            assert(tracks.deep_view().len() == tracks@.len());
            if tracks.len() == 0 {
                return None;
            }
            let name = data.field("metadata").field("playlistMetadataRenderer").field(
                "title",
            ).str_or("YouTube playlist").to_owned();
            Some(Playlist { name, tracks })
        },
        None => None,
    }
}

/// The playlist that a page shows, where the page could be had.
pub fn resolve_playlist(page: &Option<Page>) -> (r: Option<Playlist>)
    ensures
        r.deep_view() == match page {
            Some(p) => if p.success {
                match crate::pattern::group_of(
                    crate::pattern::regex_captures(YT_INITIAL_DATA_RE@, p.text@),
                    1,
                ) {
                    Some(text) => match crate::json::json_document(text) {
                        Some(data) => playlist_in(data),
                        None => None,
                    },
                    None => None,
                }
            } else {
                None
            },
            None => None,
        },
{
    match page {
        Some(p) => {
            if !p.success {
                return None;
            }
            match Groups::of(YT_INITIAL_DATA_RE, p.text.as_str()).get(1) {
                Some(text) => match parse(text.as_str()) {
                    Some(data) => playlist_of(&data),
                    None => None,
                },
                None => None,
            }
        },
        None => None,
    }
}

// ── What holds of links, titles and playlists ────────────────────────────────

proof fn lemma_param_gone(url: Seq<char>)
    requires
        starts_param(url),
    ensures
        ({
            let rest = url.drop_first().skip(
                crate::text::first_index(url.drop_first(), '&') as int,
            );
            rest.len() < url.len() && (rest.len() == 0 || rest[0] == '&')
        }),
{
    crate::text::lemma_first_index(url.drop_first(), '&');
}

/// A link that starts with an ampersand, or is empty, still does and is.
proof fn lemma_starts_with_ampersand(url: Seq<char>)
    requires
        url.len() == 0 || url[0] == '&',
    ensures
        without_params(url).len() == 0 || without_params(url)[0] == '&',
    decreases url.len(),
{
    if url.len() > 0 && starts_param(url) {
        lemma_param_gone(url);
        lemma_starts_with_ampersand(
            url.drop_first().skip(crate::text::first_index(url.drop_first(), '&') as int),
        );
    }
}

/// What a stripped link starts with, up to a mark, the link started with.
proof fn lemma_name_was_there(url: Seq<char>, name: Seq<char>)
    requires
        crate::text::has_prefix(without_params(url), name),
        forall|i: int| 0 <= i < name.len() ==> name[i] != '?' && name[i] != '&',
    ensures
        crate::text::has_prefix(url, name),
    decreases url.len(),
{
    let w = without_params(url);
    if name.len() == 0 {
        assert(url.subrange(0, 0) =~= name);
    } else {
        assert(w[0] == w.subrange(0, name.len() as int)[0]);
        assert(w[0] == name[0]);
        if starts_param(url) {
            lemma_param_gone(url);
            lemma_starts_with_ampersand(
                url.drop_first().skip(crate::text::first_index(url.drop_first(), '&') as int),
            );
        } else {
            let rest = without_params(url.drop_first());
            let tail = name.drop_first();
            assert forall|i: int| 0 <= i < tail.len() implies tail[i] != '?' && tail[i] != '&' by {
                assert(tail[i] == name[i + 1]);
            }
            assert(rest.subrange(0, tail.len() as int) =~= w.subrange(
                0,
                name.len() as int,
            ).drop_first());
            assert(crate::text::has_prefix(rest, tail));
            lemma_name_was_there(url.drop_first(), tail);
            assert(url.drop_first().subrange(0, tail.len() as int) == tail);
            assert(url.subrange(0, name.len() as int) =~= name) by {
                assert forall|i: int| 0 <= i < name.len() implies url[i] == name[i] by {
                    if i > 0 {
                        assert(url.drop_first().subrange(0, tail.len() as int)[i - 1] == url[i]);
                        assert(tail[i - 1] == name[i]);
                    }
                }
            }
        }
    }
}

/// The names of the playlist parameters hold no mark.
proof fn lemma_names()
    ensures
        "list="@.len() == 5,
        forall|i: int|
            0 <= i < "list="@.len() ==> "list="@[i] != '?' && #[trigger] "list="@[i] != '&',
        forall|i: int|
            0 <= i < "index="@.len() ==> "index="@[i] != '?' && #[trigger] "index="@[i] != '&',
        forall|i: int|
            0 <= i < "start_radio="@.len() ==> "start_radio="@[i] != '?'
                && #[trigger] "start_radio="@[i] != '&',
{
    reveal_strlit("list=");
    reveal_strlit("index=");
    reveal_strlit("start_radio=");
}

/// No parameter of `s` places a video in a playlist.
pub open spec fn is_paramless(s: Seq<char>) -> bool {
    forall|i: int| 0 <= i < s.len() ==> !starts_param(#[trigger] s.skip(i))
}

proof fn lemma_stripped(url: Seq<char>)
    ensures
        is_paramless(without_params(url)),
    decreases url.len(),
{
    let w = without_params(url);
    if url.len() > 0 {
        if starts_param(url) {
            lemma_param_gone(url);
            lemma_stripped(
                url.drop_first().skip(crate::text::first_index(url.drop_first(), '&') as int),
            );
        } else {
            let rest = without_params(url.drop_first());
            lemma_stripped(url.drop_first());
            assert forall|i: int| 0 <= i < w.len() implies !starts_param(#[trigger] w.skip(i)) by {
                if i > 0 {
                    assert(w.skip(i) =~= rest.skip(i - 1));
                } else {
                    assert(w.skip(0) =~= w);
                    assert(w.drop_first() =~= rest);
                    lemma_names();
                    if starts_named(w, "list="@) {
                        lemma_name_was_there(url.drop_first(), "list="@);
                    }
                    if starts_named(w, "index="@) {
                        lemma_name_was_there(url.drop_first(), "index="@);
                    }
                    if starts_named(w, "start_radio="@) {
                        lemma_name_was_there(url.drop_first(), "start_radio="@);
                    }
                }
            }
        }
    }
}

proof fn lemma_kept(url: Seq<char>)
    requires
        is_paramless(url),
    ensures
        without_params(url) == url,
        id_in(url) is None,
    decreases url.len(),
{
    if url.len() > 0 {
        let rest = url.drop_first();
        assert(url.skip(0) =~= url);
        assert forall|i: int| 0 <= i < rest.len() implies !starts_param(#[trigger] rest.skip(i)) by {
            assert(rest.skip(i) =~= url.skip(i + 1));
        }
        lemma_kept(rest);
        assert(without_params(url) =~= url);
    }
}

/// A parameter's name is not made of marks, so turning a mark into the other
/// one makes none.
proof fn lemma_mark_changed(s: Seq<char>, q: int, name: Seq<char>, i: int)
    requires
        0 <= q < s.len(),
        s[q] == '&',
        0 <= i < s.len(),
        forall|k: int| 0 <= k < name.len() ==> name[k] != '?' && #[trigger] name[k] != '&',
        starts_named(s.update(q, '?').skip(i), name),
    ensures
        starts_named(s.skip(i), name),
{
    let r = s.update(q, '?');
    let part = r.skip(i).drop_first();
    assert(part.subrange(0, name.len() as int) == name);
    assert forall|k: int| 0 <= k < name.len() implies s.skip(i).drop_first()[k] == name[k] by {
        assert(part.subrange(0, name.len() as int)[k] == name[k]);
        assert(part[k] == r[i + 1 + k]);
        assert(name[k] != '?');
    }
    assert(s.skip(i).drop_first().subrange(0, name.len() as int) =~= name);
}

proof fn lemma_change_keeps_paramless(s: Seq<char>, q: int)
    requires
        0 <= q < s.len(),
        s[q] == '&',
        is_paramless(s),
    ensures
        is_paramless(s.update(q, '?')),
{
    let r = s.update(q, '?');
    lemma_names();
    assert forall|i: int| 0 <= i < r.len() implies !starts_param(#[trigger] r.skip(i)) by {
        assert(!starts_param(s.skip(i)));
        if starts_named(r.skip(i), "list="@) {
            lemma_mark_changed(s, q, "list="@, i);
        }
        if starts_named(r.skip(i), "index="@) {
            lemma_mark_changed(s, q, "index="@, i);
        }
        if starts_named(r.skip(i), "start_radio="@) {
            lemma_mark_changed(s, q, "start_radio="@, i);
        }
    }
}

/// Replacing the first ampersand changes one character.
proof fn lemma_first_ampersand(s: Seq<char>)
    ensures
        ({
            let at = crate::text::first_index(s, '&') as int;
            crate::text::replaced_once(s, "&"@, "?"@) == if at < s.len() {
                s.update(at, '?')
            } else {
                s
            }
        }),
    decreases s.len(),
{
    reveal_strlit("?");
    reveal_strlit("&");
    let r = crate::text::replaced_once(s, "&"@, "?"@);
    if s.len() > 0 {
        assert(s.subrange(0, 1)[0] == s[0]);
        if s[0] == '&' {
            assert(s.subrange(0, 1) =~= "&"@);
            assert(r =~= s.update(0, '?'));
        } else {
            lemma_first_ampersand(s.drop_first());
            let at = crate::text::first_index(s, '&') as int;
            if at < s.len() {
                assert(r =~= s.update(at, '?'));
            } else {
                assert(r =~= s);
            }
        }
    } else {
        assert(r =~= s);
    }
}

proof fn lemma_question_mark(s: Seq<char>)
    ensures
        crate::text::occurs_in(s, "?"@) <==> crate::text::first_index(s, '?') < s.len(),
{
    reveal_strlit("?");
    crate::text::lemma_first_index(s, '?');
    let q = crate::text::first_index(s, '?') as int;
    if q < s.len() {
        assert(s.subrange(q, q + 1) =~= "?"@);
        assert(crate::text::occurs_at(s, "?"@, q));
    }
    if crate::text::occurs_in(s, "?"@) {
        let i = choose|i: int| crate::text::occurs_at(s, "?"@, i);
        assert(s.subrange(i, i + 1)[0] == s[i]);
    }
}

/// A mended link has a question mark, or no ampersand to become one, and is
/// not changed by mending it again.
pub proof fn mending_once_is_enough(url: Seq<char>)
    ensures
        mended(url).contains('?') || !mended(url).contains('&'),
        mended(mended(url)) == mended(url),
{
    lemma_first_ampersand(url);
    lemma_question_mark(url);
    crate::text::lemma_first_index(url, '?');
    crate::text::lemma_first_index(url, '&');
    let m = mended(url);
    let at = crate::text::first_index(url, '&') as int;
    if !crate::text::occurs_in(url, "?"@) && at < url.len() {
        assert(m[at] == '?');
        lemma_question_mark(m);
        crate::text::lemma_first_index(m, '?');
    }
    if crate::text::occurs_in(url, "?"@) {
        assert(url[crate::text::first_index(url, '?') as int] == '?');
    }
}

proof fn lemma_mended_from(url: Seq<char>, stripped: Seq<char>)
    requires
        is_paramless(stripped),
    ensures
        is_paramless(mended_from(url, stripped)),
        mended(mended_from(url, stripped)) == mended_from(url, stripped),
{
    let front = crate::text::before_first(url, '?');
    let q = front.len() as int;
    if q < url.len() && crate::text::has_prefix(stripped, front) && q < stripped.len()
        && stripped[q] == '&' {
        lemma_change_keeps_paramless(stripped, q);
        let r = stripped.update(q, '?');
        assert(r[q] == '?');
        lemma_question_mark(r);
        crate::text::lemma_first_index(r, '?');
    } else {
        mending_once_is_enough(stripped);
        lemma_first_ampersand(stripped);
        crate::text::lemma_first_index(stripped, '&');
        let at = crate::text::first_index(stripped, '&') as int;
        if !crate::text::occurs_in(stripped, "?"@) && at < stripped.len() {
            lemma_change_keeps_paramless(stripped, at);
        }
    }
}

/// A link that was stripped names no playlist any more, and none of its
/// parameters places its video in one.
pub proof fn stripped_links_name_no_playlist(url: Seq<char>)
    ensures
        id_in(single_video(url)) is None,
        is_paramless(single_video(url)),
{
    lemma_stripped(url);
    lemma_mended_from(url, without_params(url));
    lemma_kept(single_video(url));
}

/// Stripping a link twice is stripping it once.
pub proof fn stripping_once_is_enough(url: Seq<char>)
    ensures
        single_video(single_video(url)) == single_video(url),
{
    let r = single_video(url);
    lemma_stripped(url);
    lemma_mended_from(url, without_params(url));
    lemma_kept(r);
    crate::text::lemma_first_index(r, '?');
}

/// A link with a question mark and without playlist parameters stays as it is.
pub proof fn other_links_are_kept(url: Seq<char>)
    requires
        url.contains('?'),
        is_paramless(url),
    ensures
        single_video(url) == url,
{
    lemma_kept(url);
    crate::text::lemma_first_index(url, '?');
    lemma_question_mark(url);
}

proof fn lemma_front_kept(url: Seq<char>, q: int)
    requires
        0 <= q <= url.len(),
        forall|i: int| 0 <= i < q ==> url[i] != '?' && #[trigger] url[i] != '&',
    ensures
        without_params(url) == url.take(q) + without_params(url.skip(q)),
    decreases q,
{
    if q == 0 {
        assert(url.skip(0) =~= url);
        assert(without_params(url) =~= url.take(0) + without_params(url.skip(0)));
    } else {
        let rest = url.drop_first();
        assert(url[0] != '?' && url[0] != '&');
        assert forall|i: int| 0 <= i < q - 1 implies rest[i] != '?' && #[trigger] rest[i] != '&' by {
            assert(rest[i] == url[i + 1]);
        }
        lemma_front_kept(rest, q - 1);
        assert(rest.skip(q - 1) =~= url.skip(q));
        assert(without_params(url) =~= url.take(q) + without_params(url.skip(q)));
    }
}

/// In a stripped link the parameters start with a question mark: no ampersand
/// stands before the first one, unless the link had one in its path.
pub proof fn stripped_links_start_their_parameters(url: Seq<char>)
    requires
        crate::text::first_index(url, '?') <= crate::text::first_index(url, '&'),
    ensures
        single_video(url).contains('&') ==> crate::text::first_index(single_video(url), '?')
            < crate::text::first_index(single_video(url), '&'),
{
    let q = crate::text::first_index(url, '?') as int;
    let w = without_params(url);
    let r = single_video(url);
    crate::text::lemma_first_index(url, '?');
    crate::text::lemma_first_index(url, '&');
    lemma_front_kept(url, q);
    let tail = without_params(url.skip(q));
    crate::text::lemma_first_index(r, '?');
    crate::text::lemma_first_index(r, '&');
    if q == url.len() {
        assert(url.skip(q) =~= Seq::<char>::empty());
        assert(w =~= url);
        lemma_first_ampersand(url);
        lemma_question_mark(url);
    } else {
        let after = url.skip(q);
        assert(after[0] == '?');
        if starts_param(after) {
            lemma_param_gone(after);
            lemma_starts_with_ampersand(
                after.drop_first().skip(crate::text::first_index(after.drop_first(), '&') as int),
            );
        }
        assert(tail.len() == 0 || tail[0] == '&' || tail[0] == '?');
        if tail.len() == 0 {
            assert(w =~= url.take(q));
            lemma_first_ampersand(w);
            crate::text::lemma_first_index(w, '&');
            assert(!r.contains('&'));
        } else {
            assert(w[q] == tail[0]);
            assert(w.subrange(0, q) =~= crate::text::before_first(url, '?'));
            lemma_question_mark(w);
            crate::text::lemma_first_index(w, '?');
            assert(r[q] == '?');
            assert forall|i: int| 0 <= i < q implies r[i] != '?' && r[i] != '&' by {
                assert(r[i] == url[i]);
            }
        }
    }
}

/// Every track of a playlist has a title.
pub proof fn playlists_have_titled_tracks(data: crate::json::JsonView)
    ensures
        playlist_in(data) is Some ==> playlist_in(data)->0.tracks.len() > 0 && forall|i: int|
            0 <= i < playlist_in(data)->0.tracks.len() ==> (
            #[trigger] playlist_in(data)->0.tracks[i]).title.len() > 0,
{
    if items_in(data) is Some {
        lemma_titled(items_in(data)->0);
    }
}

proof fn lemma_titled(items: Seq<crate::json::JsonView>)
    ensures
        forall|i: int|
            0 <= i < item_tracks(items).len() ==> (#[trigger] item_tracks(items)[i]).title.len()
                > 0,
    decreases items.len(),
{
    if items.len() > 0 {
        let rest = item_tracks(items.drop_last());
        lemma_titled(items.drop_last());
        assert forall|i: int| 0 <= i < item_tracks(items).len() implies (
        #[trigger] item_tracks(items)[i]).title.len() > 0 by {
            if i < rest.len() {
                assert(item_tracks(items)[i] == rest[i]);
            }
        }
    }
}

// ── What holds of channels and playlists ─────────────────────────────────────

/// The artist of a channel is its name, all of it, without what YouTube or the
/// label put behind it and without the space around it.
pub proof fn a_channel_keeps_its_name(before: Seq<char>, name: Seq<char>, behind: Seq<char>)
    requires
        crate::text::is_all_white(before),
        crate::text::is_all_white(behind),
        name.len() > 0,
        crate::text::has_no_outer_space(name),
        !crate::text::has_suffix(name, " - Topic"@),
        !crate::text::has_suffix(name, "VEVO"@),
    ensures
        channel_artist(before + name + behind) == name,
        channel_artist(before + (name + " - Topic"@) + behind) == name,
        channel_artist(before + (name + "VEVO"@) + behind) == name,
        channel_artist(before + (name + "VEVO"@ + " - Topic"@) + behind) == name,
{
    reveal_strlit(" - Topic");
    reveal_strlit("VEVO");
    let topic = " - Topic"@;
    let vevo = "VEVO"@;
    let none = Seq::<char>::empty();
    crate::text::trimming_takes_the_outer_space(before, name, behind);
    crate::text::trimming_takes_the_outer_space(none, name, none);
    let a = name + topic;
    crate::text::trimming_takes_the_outer_space(before, a, behind);
    crate::text::ends_are_found(name, topic);
    let b = name + vevo;
    crate::text::trimming_takes_the_outer_space(before, b, behind);
    crate::text::ends_are_found(name, vevo);
    assert(!crate::text::has_suffix(b, topic)) by {
        if crate::text::has_suffix(b, topic) {
            assert(b.subrange(b.len() - topic.len(), b.len() as int)[topic.len() - 1] == topic[
            topic.len() - 1]);
            assert(b[b.len() - 1] == vevo[3]);
        }
    }
    let c = name + vevo + topic;
    crate::text::trimming_takes_the_outer_space(before, c, behind);
    crate::text::ends_are_found(name + vevo, topic);
}

/// Only the first piece of a video's title and of its byline count.
pub proof fn a_video_is_a_track(
    item: crate::json::JsonView,
    titles: Seq<crate::json::JsonView>,
    raw: Seq<char>,
    bylines: Seq<crate::json::JsonView>,
    channel: Seq<char>,
)
    requires
        titles.len() > 0,
        bylines.len() > 0,
        item.field("playlistVideoRenderer"@).field("title"@).field("runs"@)
            == crate::json::JsonView::Array(titles),
        titles[0].field("text"@) == crate::json::JsonView::Str(raw),
        item.field("playlistVideoRenderer"@).field("shortBylineText"@).field("runs"@)
            == crate::json::JsonView::Array(bylines),
        bylines[0].field("text"@) == crate::json::JsonView::Str(channel),
    ensures
        crate::titles::cleaned_title(raw).len() == 0 ==> item_track(item) is None,
        crate::titles::cleaned_title(raw).len() > 0 ==> (item_track(item) matches Some(t)
            && t.title == crate::titles::cleaned_title(raw) && (if crate::text::occurs_in(
            crate::titles::cleaned_title(raw),
            " - "@,
        ) {
            t.artist.len() == 0
        } else {
            t.artist == channel_artist(channel)
        })),
{
    reveal_strlit("");
}

/// The tracks of a playlist come in the order of its page, and what is no video
/// with a title is passed over.
pub proof fn videos_are_read_in_order(
    a: Seq<crate::json::JsonView>,
    b: Seq<crate::json::JsonView>,
    item: crate::json::JsonView,
)
    ensures
        item_tracks(a + b) == item_tracks(a) + item_tracks(b),
        item_track(item) matches Some(t) ==> item_tracks(seq![item]) == seq![t],
        item_track(item) is None ==> item_tracks(seq![item]).len() == 0,
        !(item.field("playlistVideoRenderer"@) is Object) ==> item_track(item) is None,
    decreases b.len(),
{
    let one = seq![item];
    assert(one.drop_last() =~= Seq::<crate::json::JsonView>::empty());
    assert(one.last() == item);
    assert(item_tracks(one.drop_last()) =~= Seq::<crate::spotify::TrackView>::empty());
    if item_track(item) is Some {
        assert(item_tracks(one) =~= seq![item_track(item)->0]);
    }
    if b.len() == 0 {
        assert(a + b =~= a);
        assert(item_tracks(a) + item_tracks(b) =~= item_tracks(a));
    } else {
        videos_are_read_in_order(a, b.drop_last(), item);
        assert((a + b).drop_last() =~= a + b.drop_last());
        assert((a + b).last() == b.last());
        assert(item_tracks(a + b) =~= item_tracks(a) + item_tracks(b));
    }
}

/// The videos of a page stand in the first block of the first section of its
/// first tab, and all of them are read.
pub proof fn a_page_shows_its_videos(
    data: crate::json::JsonView,
    tabs: Seq<crate::json::JsonView>,
    sections: Seq<crate::json::JsonView>,
    blocks: Seq<crate::json::JsonView>,
    videos: Seq<crate::json::JsonView>,
)
    requires
        tabs.len() > 0,
        sections.len() > 0,
        blocks.len() > 0,
        data.field("contents"@).field("twoColumnBrowseResultsRenderer"@).field("tabs"@)
            == crate::json::JsonView::Array(tabs),
        tabs[0].field("tabRenderer"@).field("content"@).field("sectionListRenderer"@).field(
            "contents"@,
        ) == crate::json::JsonView::Array(sections),
        sections[0].field("itemSectionRenderer"@).field("contents"@)
            == crate::json::JsonView::Array(blocks),
        blocks[0].field("playlistVideoListRenderer"@).field("contents"@)
            == crate::json::JsonView::Array(videos),
    ensures
        item_tracks(videos).len() == 0 ==> playlist_in(data) is None,
        item_tracks(videos).len() > 0 ==> (playlist_in(data) matches Some(p) && p.tracks
            == item_tracks(videos) && (data.field("metadata"@).field(
            "playlistMetadataRenderer"@,
        ).field("title"@) matches crate::json::JsonView::Str(name) ==> p.name == name)),
{
}

// ── What holds of playlist links ─────────────────────────────────────────────

proof fn lemma_id_len(s: Seq<char>, k: int)
    requires
        0 <= k <= s.len(),
        forall|i: int| 0 <= i < k ==> is_id_char(#[trigger] s[i]),
        k < s.len() ==> !is_id_char(s[k]),
    ensures
        id_len(s) == k,
    decreases k,
{
    if k > 0 {
        assert(is_id_char(s[0]));
        let rest = s.drop_first();
        assert forall|i: int| 0 <= i < k - 1 implies is_id_char(#[trigger] rest[i]) by {
            assert(rest[i] == s[i + 1]);
        }
        lemma_id_len(rest, k - 1);
    }
}

/// The id of a playlist is the whole value of its first parameter `list`, up to
/// the first character that cannot stand in an id.
pub proof fn an_id_is_read_whole(a: Seq<char>, mark: char, id: Seq<char>, b: Seq<char>)
    requires
        mark == '?' || mark == '&',
        id.len() > 0,
        forall|i: int| 0 <= i < id.len() ==> is_id_char(#[trigger] id[i]),
        b.len() > 0 ==> !is_id_char(b[0]),
        forall|i: int|
            0 <= i < a.len() ==> !starts_named(
                #[trigger] (a + seq![mark] + "list="@ + id + b).skip(i),
                "list="@,
            ),
    ensures
        id_in(a + seq![mark] + "list="@ + id + b) == Some(id),
    decreases a.len(),
{
    reveal_strlit("list=");
    let s = a + seq![mark] + "list="@ + id + b;
    if a.len() == 0 {
        assert(s.drop_first().subrange(0, 5) =~= "list="@);
        assert(starts_named(s, "list="@));
        let v = s.skip(6);
        assert(v =~= id + b);
        lemma_id_len(v, id.len() as int);
        assert(v.take(id.len() as int) =~= id);
    } else {
        let rest = a.drop_first();
        let tail = rest + seq![mark] + "list="@ + id + b;
        assert(s.skip(0) =~= s);
        assert(!starts_named(s.skip(0), "list="@));
        assert(s.drop_first() =~= tail);
        assert forall|i: int| 0 <= i < rest.len() implies !starts_named(
            #[trigger] (rest + seq![mark] + "list="@ + id + b).skip(i),
            "list="@,
        ) by {
            assert(tail.skip(i) =~= s.skip(i + 1));
        }
        an_id_is_read_whole(rest, mark, id, b);
    }
}

/// A playlist's page is asked for by its id, and a mix has none.
pub proof fn a_page_is_asked_for_by_its_id(id: Seq<char>)
    ensures
        crate::text::has_prefix(id, "RD"@) ==> page_request(Some(id)) is None,
        !crate::text::has_prefix(id, "RD"@) ==> (page_request(Some(id)) matches Some(r) && r.method
            == Method::Get && r.url == "https://www.youtube.com/playlist?list="@ + id && r.query.len()
            == 0 && r.body is None),
        page_request(None) is None,
{
}

proof fn lemma_name_in_front(a: Seq<char>, b: Seq<char>, name: Seq<char>)
    requires
        a.len() > 0,
        b.len() > 0 ==> b[0] == '&',
        forall|k: int| 0 <= k < name.len() ==> name[k] != '?' && #[trigger] name[k] != '&',
    ensures
        starts_named(a + b, name) <==> starts_named(a, name),
{
    let s = (a + b).drop_first();
    let t = a.drop_first();
    if starts_named(a, name) {
        assert(s.subrange(0, name.len() as int) =~= t.subrange(0, name.len() as int));
    }
    if starts_named(a + b, name) {
        assert(s.subrange(0, name.len() as int) == name);
        if name.len() > t.len() {
            let k = t.len() as int;
            assert(s.subrange(0, name.len() as int)[k] == name[k]);
            assert(s[k] == b[0]);
            assert(name[k] != '&');
        } else {
            assert(t.subrange(0, name.len() as int) =~= s.subrange(0, name.len() as int));
        }
    }
}

/// The parts of a link between its ampersands are taken one by one, so that a
/// playlist parameter takes no other parameter with it.
pub proof fn parameters_go_one_by_one(a: Seq<char>, b: Seq<char>)
    requires
        b.len() > 0 ==> b[0] == '&',
    ensures
        without_params(a + b) == without_params(a) + without_params(b),
    decreases a.len(),
{
    let s = a + b;
    if a.len() == 0 {
        assert(s =~= b);
        assert(without_params(a) + without_params(b) =~= without_params(b));
    } else {
        lemma_names();
        lemma_name_in_front(a, b, "list="@);
        lemma_name_in_front(a, b, "index="@);
        lemma_name_in_front(a, b, "start_radio="@);
        assert(s[0] == a[0]);
        let t = a.drop_first();
        assert(s.drop_first() =~= t + b);
        if starts_param(a) {
            crate::text::lemma_first_index(t, '&');
            crate::text::lemma_first_index(t + b, '&');
            let k = crate::text::first_index(t, '&') as int;
            let n = crate::text::first_index(t + b, '&') as int;
            if n < k {
                assert((t + b)[n] == t[n]);
            }
            if k < t.len() {
                assert((t + b)[k] == '&');
            } else if b.len() > 0 {
                assert((t + b)[k] == '&');
            }
            assert(n == k);
            assert((t + b).skip(k) =~= t.skip(k) + b);
            parameters_go_one_by_one(t.skip(k), b);
        } else {
            parameters_go_one_by_one(t, b);
            assert(without_params(s) =~= without_params(a) + without_params(b));
        }
    }
}

/// A parameter goes whole where its name places a video in a playlist, and any
/// other stays whole.
pub proof fn a_parameter_goes_or_stays(mark: char, text: Seq<char>)
    requires
        mark == '?' || mark == '&',
        forall|i: int| 0 <= i < text.len() ==> text[i] != '?' && #[trigger] text[i] != '&',
    ensures
        crate::text::has_prefix(text, "list="@) || crate::text::has_prefix(text, "index="@)
            || crate::text::has_prefix(text, "start_radio="@) ==> without_params(
            seq![mark] + text,
        ).len() == 0,
        !crate::text::has_prefix(text, "list="@) && !crate::text::has_prefix(text, "index="@)
            && !crate::text::has_prefix(text, "start_radio="@) ==> without_params(
            seq![mark] + text,
        ) == seq![mark] + text,
        without_params(text) == text,
{
    let s = seq![mark] + text;
    assert(s.drop_first() =~= text);
    crate::text::lemma_first_index(text, '&');
    lemma_front_kept(text, text.len() as int);
    assert(text.skip(text.len() as int) =~= Seq::<char>::empty());
    assert(text.take(text.len() as int) =~= text);
    assert(without_params(Seq::<char>::empty()) =~= Seq::<char>::empty());
    assert(without_params(text) =~= text);
    let k = crate::text::first_index(text, '&') as int;
    assert(k == text.len());
    assert(s.drop_first().skip(k) =~= Seq::<char>::empty());
}

/// Besides taking parameters out, stripping a link turns at most one ampersand
/// into a question mark.
pub proof fn stripping_changes_one_mark(url: Seq<char>)
    ensures
        single_video(url) == without_params(url) || exists|q: int|
            0 <= q < without_params(url).len() && without_params(url)[q] == '&' && single_video(url)
                == #[trigger] without_params(url).update(q, '?'),
{
    let w = without_params(url);
    lemma_first_ampersand(w);
    crate::text::lemma_first_index(w, '&');
    let at = crate::text::first_index(w, '&') as int;
    let q = crate::text::before_first(url, '?').len() as int;
    if single_video(url) != w {
        if q < w.len() && w[q] == '&' && single_video(url) == w.update(q, '?') {
        } else {
            assert(at < w.len());
            assert(single_video(url) == w.update(at, '?'));
        }
    }
}

/// The place in a playlist page where its data stands.
pub proof fn data_is_told_by_its_script(text: Seq<char>)
    ensures
        crate::pattern::regex_captures(YT_INITIAL_DATA_RE@, text) == crate::pattern::regex_captures(
            "(?s)var ytInitialData\\s*=\\s*(\\{.*?\\});\\s*</script>"@,
            text,
        ),
{
}

/// A playlist without a title is called just that, and a video without a byline
/// has no artist.
pub proof fn a_nameless_playlist_is_called_that(
    data: crate::json::JsonView,
    item: crate::json::JsonView,
)
    ensures
        !(data.field("metadata"@).field("playlistMetadataRenderer"@).field("title"@) is Str) ==> (
        playlist_in(data) matches Some(p) ==> p.name == "YouTube playlist"@),
        !(item.field("playlistVideoRenderer"@).field("shortBylineText"@).field("runs"@) is Array)
            ==> (item_track(item) matches Some(t) ==> t.artist.len() == 0),
        !(items_in(data) is Some) ==> playlist_in(data) is None,
{
    reveal_strlit("");
    reveal_strlit(" - Topic");
    reveal_strlit("VEVO");
    let none = Seq::<char>::empty();
    assert(""@ =~= none);
    crate::text::trimming_takes_the_outer_space(none, none, none);
    assert(none + none + none =~= none);
    assert(channel_artist(none) =~= none);
}

/// The characters of a playlist's id, and the parameters that place a video in a
/// playlist, are these.
pub proof fn ids_and_parameters_are_these(c: char, s: Seq<char>)
    ensures
        is_id_char(c) <==> ('A' <= c && c <= 'Z') || ('a' <= c && c <= 'z') || ('0' <= c && c
            <= '9') || c == '-' || c == '_',
        starts_param(s) <==> s.len() > 0 && (s[0] == '?' || s[0] == '&') && (
        crate::text::has_prefix(s.drop_first(), "list="@) || crate::text::has_prefix(
            s.drop_first(),
            "index="@,
        ) || crate::text::has_prefix(s.drop_first(), "start_radio="@)),
{
}

} // verus!
