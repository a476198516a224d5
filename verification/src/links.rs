//! Links in messages, and links to Deezer.

use vstd::prelude::*;

use crate::flow::{send, AfterQueue, Pending, SearchKind, Step};
use crate::pattern::{find, is_matching, Groups};
use crate::search::do_search;
use crate::streaming::{handle_streaming_link, is_streaming_link};
use crate::text::{capitalize, chars_of, string_of};

verus! {

// ── Finding a link ───────────────────────────────────────────────────────────────

/// A link to something on Deezer, with its kind and id.
pub const DEEZER_URL_RE: &'static str =
    "https?://(?:www\\.)?deezer\\.com/(?:[a-z]+/)?(track|album|playlist|artist)/(\\d+)";

/// A short link to something on Deezer.
pub const DEEZER_SHORT_RE: &'static str = "https?://link\\.deezer\\.com/s/\\S+";

/// A link with its scheme.
pub const ANY_URL_RE: &'static str = "(?i)\\bhttps?://\\S+";

/// A link to a supported service without its scheme, like
/// "youtube.com/watch?v=…".
pub const BARE_DOMAIN_RE: &'static str =
    "(?i)(?:^|[\\s(])((?:[\\w-]+\\.)*(?:deezer\\.com|spotify\\.com|youtube\\.com|youtu\\.be|apple\\.com)(?:/\\S*)?)";

/// Punctuation that ends a sentence round a link, not the link.
pub open spec fn is_punctuation(c: char) -> bool {
    ||| c == '.'
    ||| c == ','
    ||| c == ';'
    ||| c == ':'
    ||| c == '!'
    ||| c == '?'
    ||| c == ')'
    ||| c == ']'
    ||| c == '}'
    ||| c == '>'
    ||| c == '"'
    ||| c == '\''
    ||| c == '«'
    ||| c == '»'
}

/// `is_punctuation` as a value.
pub open spec fn punctuation() -> spec_fn(char) -> bool {
    |c: char| is_punctuation(c)
}

fn ends_sentence(c: char) -> (r: bool)
    ensures
        r == is_punctuation(c),
{
    c == '.' || c == ',' || c == ';' || c == ':' || c == '!' || c == '?' || c == ')' || c == ']'
        || c == '}' || c == '>' || c == '"' || c == '\'' || c == '«' || c == '»'
}

/// A link as it stands in a message, without the punctuation behind it.
pub fn trim_trailing_punct(url: &str) -> (r: String)
    ensures
        r@ == crate::text::trim_end_by(url@, punctuation()),
{
    let v = chars_of(url);
    let mut n: usize = v.len();
    assert(v@.take(n as int) == url@);
    while n > 0 && ends_sentence(v[n - 1])
        invariant
            n <= v@.len(),
            crate::text::trim_end_by(v@.take(n as int), punctuation())
                == crate::text::trim_end_by(url@, punctuation()),
        decreases n,
    {
        proof {
            assert(v@.take(n as int).last() == v@[n - 1]);
            assert(v@.take(n as int).drop_last() == v@.take(n - 1));
        }
        n -= 1;
    }
    proof {
        assert(v@.take(n as int) == v@.subrange(0, n as int));
        if n > 0 {
            assert(v@.take(n as int).last() == v@[n - 1]);
        }
    }
    string_of(&v, 0, n)
}

/// The link in a message, given the first link with a scheme and the first one
/// without. The one with a scheme wins, and the other gets one.
pub open spec fn link_among(url: Option<Seq<char>>, bare: Option<Seq<char>>) -> Option<Seq<char>> {
    match url {
        Some(u) => Some(crate::text::trim_end_by(u, punctuation())),
        None => match bare {
            Some(b) => Some("https://"@ + crate::text::trim_end_by(b, punctuation())),
            None => None,
        },
    }
}

pub fn clean_link(url: &Option<String>, bare: &Option<String>) -> (r: Option<String>)
    ensures
        r.deep_view() == link_among(url.deep_view(), bare.deep_view()),
{
    match url {
        Some(u) => Some(trim_trailing_punct(u.as_str())),
        None => match bare {
            Some(b) => Some(
                "https://".to_owned().concat(trim_trailing_punct(b.as_str()).as_str()),
            ),
            None => None,
        },
    }
}

/// The first link in a text.
pub open spec fn link_in(text: Seq<char>) -> Option<Seq<char>> {
    link_among(
        crate::pattern::regex_find(ANY_URL_RE@, text),
        crate::pattern::group_of(crate::pattern::regex_captures(BARE_DOMAIN_RE@, text), 1),
    )
}

/// The first link in a message: one with a scheme, to whatever host, or one to
/// a supported service without a scheme, which then gets one.
pub fn extract_link(text: &str) -> (r: Option<String>)
    ensures
        r.deep_view() == link_in(text@),
{
    clean_link(&find(ANY_URL_RE, text), &Groups::of(BARE_DOMAIN_RE, text).get(1))
}

// ── Deezer links ─────────────────────────────────────────────────────────────

/// The step for a Deezer link, given the groups of its match.
pub open spec fn deezer_step(
    url: Seq<char>,
    groups: Option<Seq<Option<Seq<char>>>>,
) -> crate::flow::StepView {
    if groups is None {
        crate::flow::idle().act(
            crate::flow::sent("❌ That doesn't look like a valid Deezer URL."@),
        )
    } else {
        let kind = match crate::pattern::group_of(groups, 1) {
            Some(k) => k,
            None => "item"@,
        };
        crate::flow::idle().act(crate::flow::sent("⏳ Queuing "@ + kind + "..."@)).wait(
            crate::flow::PendingView::Queue {
                url,
                after: crate::flow::AfterQueueView::Linked {
                    label: crate::text::capitalized(kind),
                },
            },
        )
    }
}

/// Queues a Deezer link, given how its pattern matched it.
pub fn queue_matched(url: &str, groups: &Groups) -> (r: Step)
    ensures
        r.deep_view() == deezer_step(url@, groups@),
        crate::pattern::group_of(groups@, 1) matches Some(kind) ==> kind.len() > 0 && kind[0] as u32
            <= 127 ==> r.deep_view().next == (crate::flow::PendingView::Queue {
            url: url@,
            after: crate::flow::AfterQueueView::Linked {
                label: crate::text::ascii_capitalized(kind),
            },
        }),
{
    if !groups.found() {
        return Step::new().act(send("❌ That doesn't look like a valid Deezer URL."));
    }
    let kind = match groups.get(1) {
        Some(k) => k,
        None => "item".to_owned(),
    };
    let text = "⏳ Queuing ".to_owned().concat(kind.as_str()).concat("...");
    Step::new().act(send(text.as_str())).wait(
        Pending::Queue {
            url: url.to_owned(),
            after: AfterQueue::Linked { label: capitalize(kind.as_str()) },
        },
    )
}

/// Queues a Deezer link. Only what is none is refused.
pub fn queue_url(url: &str) -> (r: Step)
    ensures
        r.deep_view() == deezer_step(url@, crate::pattern::regex_captures(DEEZER_URL_RE@, url@)),
        crate::pattern::is_matched(DEEZER_URL_RE@, url@) <==> r.next is Queue,
{
    queue_matched(url, &Groups::of(DEEZER_URL_RE, url))
}

/// The step once a short link was followed.
pub open spec fn followed_step(target: Option<Seq<char>>) -> crate::flow::StepView {
    match target {
        Some(url) => deezer_step(url, crate::pattern::regex_captures(DEEZER_URL_RE@, url)),
        None => crate::flow::idle().act(crate::flow::sent("❌ Could not resolve that link."@)),
    }
}

/// Queues what a short link leads to.
pub fn short_link_followed(target: &Option<String>) -> (r: Step)
    ensures
        r.deep_view() == followed_step(target.deep_view()),
{
    match target {
        Some(url) => queue_url(url.as_str()),
        None => Step::new().act(send("❌ Could not resolve that link.")),
    }
}

// ── Free text ────────────────────────────────────────────────────────────────

/// The step for a link, given what it is.
pub open spec fn link_step(
    link: Seq<char>,
    streaming: bool,
    short: bool,
    deezer: bool,
) -> crate::flow::StepView {
    if streaming {
        crate::streaming::streaming_step(
            link,
            crate::streaming::kind_of_url(link),
            crate::pattern::is_matched(crate::streaming::YOUTUBE_RE@, link),
        )
    } else if short {
        crate::flow::idle().wait(crate::flow::PendingView::FollowLink { url: link })
    } else if deezer {
        deezer_step(link, crate::pattern::regex_captures(DEEZER_URL_RE@, link))
    } else {
        crate::flow::idle().act(
            crate::flow::sent(
                "🤷 Unsupported link.\nSend me a link from Deezer, Spotify, Apple Music, or YouTube."@,
            ),
        )
    }
}

/// Starts on a link, given what it is.
pub fn route_link(link: &str, streaming: bool, short: bool, deezer: bool) -> (r: Step)
    ensures
        r.deep_view() == link_step(link@, streaming, short, deezer),
        !streaming && !short && deezer && crate::pattern::is_matched(DEEZER_URL_RE@, link@)
            ==> r.next is Queue,
{
    if streaming {
        handle_streaming_link(link)
    } else if short {
        Step::new().wait(Pending::FollowLink { url: link.to_owned() })
    } else if deezer {
        queue_url(link)
    } else {
        Step::new().act(
            send(
                "🤷 Unsupported link.\nSend me a link from Deezer, Spotify, Apple Music, or YouTube.",
            ),
        )
    }
}

/// A full link to something on Deezer, which is queued at once.
pub open spec fn is_deezer_link(link: Seq<char>) -> bool {
    &&& !crate::streaming::is_streaming(link)
    &&& !crate::pattern::is_matched(DEEZER_SHORT_RE@, link)
    &&& crate::pattern::is_matched(DEEZER_URL_RE@, link)
}

/// The step for a text that is no key: for its first link or, without one, a
/// search for the text.
pub open spec fn text_step(text: Seq<char>, link: Option<Seq<char>>) -> crate::flow::StepView {
    match link {
        Some(link) => link_step(
            link,
            crate::streaming::is_streaming(link),
            crate::pattern::is_matched(DEEZER_SHORT_RE@, link),
            crate::pattern::is_matched(DEEZER_URL_RE@, link),
        ),
        None => crate::search::search_step(text, SearchKind::Track),
    }
}

/// Starts on a text, given the link in it. A link to Deezer is never refused.
pub fn take_text(text: &str, link: &Option<String>) -> (r: Step)
    ensures
        r.deep_view() == text_step(text@, link.deep_view()),
        link is Some && is_deezer_link(link->0@) ==> r.next is Queue,
{
    match link {
        Some(link) => route_link(
            link.as_str(),
            is_streaming_link(link.as_str()),
            is_matching(DEEZER_SHORT_RE, link.as_str()),
            is_matching(DEEZER_URL_RE, link.as_str()),
        ),
        None => do_search(text, SearchKind::Track),
    }
}

// ── What holds of links ──────────────────────────────────────────────────────

proof fn lemma_trimmed_end(s: Seq<char>)
    ensures
        crate::text::trim_end_by(s, punctuation()).len() > 0 ==> !is_punctuation(
            crate::text::trim_end_by(s, punctuation()).last(),
        ),
        crate::text::trim_end_by(s, punctuation()).is_prefix_of(s),
    decreases s.len(),
{
    if s.len() > 0 && is_punctuation(s.last()) {
        lemma_trimmed_end(s.drop_last());
    }
}

/// The link in a message never ends in punctuation.
pub proof fn links_end_before_the_punctuation(url: Option<Seq<char>>, bare: Option<Seq<char>>)
    ensures
        link_among(url, bare) matches Some(link) ==> link.len() == 0 || !is_punctuation(
            link.last(),
        ),
{
    reveal_strlit("https://");
    if url is Some {
        lemma_trimmed_end(url->0);
    } else if bare is Some {
        lemma_trimmed_end(bare->0);
        let tail = crate::text::trim_end_by(bare->0, punctuation());
        let link = "https://"@ + tail;
        if tail.len() > 0 {
            assert(link.last() == tail.last());
        } else {
            assert(link.last() == '/');
        }
    }
}

/// A link without a scheme gets one, and is otherwise kept but for the
/// punctuation behind it. One with a scheme wins over it.
pub proof fn bare_links_get_a_scheme(url: Option<Seq<char>>, bare: Seq<char>)
    ensures
        link_among(None, Some(bare)) matches Some(link) && crate::text::has_prefix(
            link,
            "https://"@,
        ) && link.skip("https://"@.len() as int).is_prefix_of(bare),
        url is Some ==> link_among(url, Some(bare)) == link_among(url, None),
{
    reveal_strlit("https://");
    lemma_trimmed_end(bare);
    let tail = crate::text::trim_end_by(bare, punctuation());
    let link = "https://"@ + tail;
    assert(link.subrange(0, "https://"@.len() as int) =~= "https://"@);
    assert(link.skip("https://"@.len() as int) =~= tail);
}

// ── What holds of texts and their links ──────────────────────────────────────

/// Of a link only the punctuation at its end goes; all that stands before it is
/// kept.
pub proof fn only_the_punctuation_goes(link: Seq<char>, marks: Seq<char>, bare: Option<Seq<char>>)
    requires
        forall|i: int| 0 <= i < marks.len() ==> is_punctuation(#[trigger] marks[i]),
        link.len() > 0 ==> !is_punctuation(link.last()),
    ensures
        link_among(Some(link + marks), bare) == Some(link),
        link_among(None, Some(link + marks)) == Some("https://"@ + link),
        link_among(None, None) is None,
{
    let p = punctuation();
    assert(forall|i: int| 0 <= i < marks.len() ==> p(#[trigger] marks[i]));
    crate::text::lemma_trim_end_of(link, marks, p);
}

/// Letters, digits and slashes are no punctuation, nor is what parts the
/// parameters of a link.
pub proof fn links_are_not_punctuation(c: char)
    requires
        'a' <= c <= 'z' || 'A' <= c <= 'Z' || '0' <= c <= '9' || c == '/' || c == '-' || c == '_'
            || c == '=' || c == '&' || c == '%' || c == '#',
    ensures
        !is_punctuation(c),
        forall|d: char| #[trigger]
            is_punctuation(d) ==> d == '.' || d == ',' || d == ';' || d == ':' || d == '!' || d == '?' || d == ')' || d == ']' || d == '}' || d == '>' || d == '"' || d == '\'' || d == '«' || d == '»',
        is_punctuation('.') && is_punctuation(',') && is_punctuation(';') && is_punctuation(':')
            && is_punctuation('!') && is_punctuation('?') && is_punctuation(')') && is_punctuation(
            ']',
        ) && is_punctuation('}') && is_punctuation('>') && is_punctuation('"') && is_punctuation(
            '\'',
        ) && is_punctuation('«') && is_punctuation('»'),
{
}

/// A Deezer link is queued as it is, and what is none is refused.
pub proof fn a_deezer_link_is_queued_as_it_is(
    url: Seq<char>,
    groups: Option<Seq<Option<Seq<char>>>>,
)
    ensures
        groups is Some ==> (deezer_step(url, groups).next matches crate::flow::PendingView::Queue {
            url: queued,
            after,
        } && queued == url && after is Linked),
        groups is None ==> deezer_step(url, groups).next == crate::flow::PendingView::Done,
        groups is Some ==> (crate::pattern::group_of(groups, 1) matches Some(kind) ==> deezer_step(
            url,
            groups,
        ).actions == seq![
            crate::flow::ActionView::Send {
                text: "⏳ Queuing "@ + kind + "..."@,
                markup: crate::flow::MarkupView::Plain,
            },
        ]),
{
    if groups is Some && crate::pattern::group_of(groups, 1) is Some {
        let kind = crate::pattern::group_of(groups, 1)->0;
        assert(deezer_step(url, groups).actions =~= seq![
            crate::flow::ActionView::Send {
                text: "⏳ Queuing "@ + kind + "..."@,
                markup: crate::flow::MarkupView::Plain,
            },
        ]);
    }
}

/// A text without a link is searched for as a track. A link goes to its streaming
/// service, is followed where it is short, is queued where it is Deezer's own,
/// and is turned down otherwise.
pub proof fn a_text_goes_where_it_belongs(text: Seq<char>, link: Seq<char>)
    ensures
        text_step(text, None).next == (crate::flow::PendingView::Search {
            query: text,
            kind: SearchKind::Track,
            after: crate::flow::AfterSearchView::List { query: text, kind: SearchKind::Track },
        }),
        ({
            let streaming = crate::streaming::is_streaming(link);
            let short = crate::pattern::is_matched(DEEZER_SHORT_RE@, link);
            let deezer = crate::pattern::is_matched(DEEZER_URL_RE@, link);
            let step = text_step(text, Some(link));
            &&& streaming ==> step == crate::streaming::streaming_step(
                link,
                crate::streaming::kind_of_url(link),
                crate::pattern::is_matched(crate::streaming::YOUTUBE_RE@, link),
            )
            &&& short && !streaming ==> step.next == (crate::flow::PendingView::FollowLink {
                url: link,
            })
            &&& deezer && !streaming && !short ==> step == deezer_step(
                link,
                crate::pattern::regex_captures(DEEZER_URL_RE@, link),
            )
            &&& !deezer && !streaming && !short ==> step.next == crate::flow::PendingView::Done
        }),
{
}

/// A short link leads to where it was found to lead.
pub proof fn a_short_link_is_followed(target: Seq<char>)
    ensures
        followed_step(Some(target)) == deezer_step(
            target,
            crate::pattern::regex_captures(DEEZER_URL_RE@, target),
        ),
        followed_step(None).next == crate::flow::PendingView::Done,
{
}

/// The forms of link that are found in a text, and those that are Deezer's own.
pub proof fn links_are_told_by_their_form(text: Seq<char>)
    ensures
        crate::pattern::is_matched(DEEZER_URL_RE@, text) == crate::pattern::is_matched(
            "https?://(?:www\\.)?deezer\\.com/(?:[a-z]+/)?(track|album|playlist|artist)/(\\d+)"@,
            text,
        ),
        crate::pattern::is_matched(DEEZER_SHORT_RE@, text) == crate::pattern::is_matched(
            "https?://link\\.deezer\\.com/s/\\S+"@,
            text,
        ),
        crate::pattern::is_matched(ANY_URL_RE@, text) == crate::pattern::is_matched(
            "(?i)\\bhttps?://\\S+"@,
            text,
        ),
        crate::pattern::is_matched(BARE_DOMAIN_RE@, text) == crate::pattern::is_matched(
            "(?i)(?:^|[\\s(])((?:[\\w-]+\\.)*(?:deezer\\.com|spotify\\.com|youtube\\.com|youtu\\.be|apple\\.com)(?:/\\S*)?)"@,
            text,
        ),
{
}

/// The link in a text is its first URL, or else its first bare domain, without
/// the punctuation behind it.
pub proof fn the_first_link_of_a_text_is_taken(
    text: Seq<char>,
    link: Seq<char>,
    marks: Seq<char>,
)
    requires
        forall|i: int| 0 <= i < marks.len() ==> is_punctuation(#[trigger] marks[i]),
        link.len() > 0 ==> !is_punctuation(link.last()),
    ensures
        crate::pattern::regex_find("(?i)\\bhttps?://\\S+"@, text) == Some(link + marks) ==> link_in(
            text,
        ) == Some(link),
        crate::pattern::regex_find("(?i)\\bhttps?://\\S+"@, text) is None
            && crate::pattern::group_of(
            crate::pattern::regex_captures(
                "(?i)(?:^|[\\s(])((?:[\\w-]+\\.)*(?:deezer\\.com|spotify\\.com|youtube\\.com|youtu\\.be|apple\\.com)(?:/\\S*)?)"@,
                text,
            ),
            1,
        ) == Some(link + marks) ==> link_in(text) == Some("https://"@ + link),
{
    only_the_punctuation_goes(link, marks, None);
    only_the_punctuation_goes(
        link,
        marks,
        crate::pattern::group_of(crate::pattern::regex_captures(BARE_DOMAIN_RE@, text), 1),
    );
}

} // verus!
