//! Regular expressions, as the `regex` crate matches them.

use vstd::prelude::*;

verus! {

/// Whether `pattern` matches somewhere in `text`; `None` where `pattern` is not
/// a regular expression.
pub uninterp spec fn regex_is_match(pattern: Seq<char>, text: Seq<char>) -> Option<bool>;

/// The leftmost match of `pattern` in `text`.
pub uninterp spec fn regex_find(pattern: Seq<char>, text: Seq<char>) -> Option<Seq<char>>;

/// The groups of the leftmost match of `pattern` in `text`: the whole match,
/// then each group that took part in it.
pub uninterp spec fn regex_captures(pattern: Seq<char>, text: Seq<char>) -> Option<
    Seq<Option<Seq<char>>>,
>;

/// `text` with every match of `pattern` replaced by the template `by`; `None`
/// where `pattern` is not a regular expression.
pub uninterp spec fn regex_replace_all(
    pattern: Seq<char>,
    text: Seq<char>,
    by: Seq<char>,
) -> Option<Seq<char>>;

/// Calls `Regex::new` and `Regex::is_match`. The contract names the result.
#[verifier::external_body]
fn is_match(pattern: &str, text: &str) -> (r: Option<bool>)
    ensures
        r == regex_is_match(pattern@, text@),
{
    regex::Regex::new(pattern).ok().map(|re| re.is_match(text))
}

/// Calls `Regex::new` and `Regex::find`. The contract names the text of the
/// match, and says that a match is found exactly where there is one and that
/// its text stands in `text`.
#[verifier::external_body]
pub(crate) fn find(pattern: &str, text: &str) -> (r: Option<String>)
    ensures
        r.deep_view() == regex_find(pattern@, text@),
        r is Some <==> regex_is_match(pattern@, text@) == Some(true),
        r is Some ==> crate::text::occurs_in(text@, r->0@),
{
    regex::Regex::new(pattern).ok()?.find(text).map(|m| m.as_str().to_string())
}

/// Calls `Regex::new` and `Regex::captures`. The contract names the groups, and
/// says that there are some exactly where there is a match, that the first is
/// the whole match, and that the text of each group stands in `text`. Of the
/// pattern for playlist ids, which takes the leftmost `list=` behind a mark and
/// the longest run of id characters after it, it says what the group is.
#[verifier::external_body]
fn captures(pattern: &str, text: &str) -> (r: Option<Vec<Option<String>>>)
    ensures
        r.deep_view() == regex_captures(pattern@, text@),
        r is Some <==> regex_is_match(pattern@, text@) == Some(true),
        r is Some ==> r->0@.len() > 0 && r->0@[0] is Some,
        r is Some ==> forall|i: int|
            0 <= i < r->0@.len() && (#[trigger] r->0@[i]) is Some ==> crate::text::occurs_in(
                text@,
                r->0@[i]->0@,
            ),
        pattern@ == crate::youtube::LIST_ID_RE@ ==> group_of(r.deep_view(), 1)
            == crate::youtube::id_in(text@),
{
    let re = regex::Regex::new(pattern).ok()?;
    re.captures(text).map(|c| c.iter().map(|m| m.map(|m| m.as_str().to_string())).collect())
}

/// Calls `Regex::new` and `Regex::replace_all`. The contract names the result,
/// and says that a text without a match comes back unchanged. Of two patterns it
/// says what is left when their matches are replaced from left to right. A match
/// of the one for playlist parameters goes from a mark and a name up to the next
/// ampersand. A match of the one for noise in titles goes from an opening bracket
/// to the next closing one, with a word of noise between them in whatever case:
/// besides its capital, `s` is also the long s, and `k` the sign for Kelvin.
#[verifier::external_body]
pub(crate) fn replace_all(pattern: &str, text: &str, by: &str) -> (r: Option<String>)
    ensures
        r.deep_view() == regex_replace_all(pattern@, text@, by@),
        regex_is_match(pattern@, text@) == Some(false) ==> r.deep_view() == Some(text@),
        pattern@ == crate::youtube::PLAYLIST_PARAMS_RE@ && by@.len() == 0 ==> r.deep_view() == Some(
            crate::youtube::without_params(text@),
        ),
        pattern@ == crate::titles::TITLE_NOISE_RE@ && by@ == " "@ ==> r.deep_view() == Some(
            crate::titles::without_noise(text@),
        ),
{
    regex::Regex::new(pattern).ok().map(|re| re.replace_all(text, by).to_string())
}

/// `pattern` matches somewhere in `text`.
pub open spec fn is_matched(pattern: Seq<char>, text: Seq<char>) -> bool {
    regex_is_match(pattern, text) == Some(true)
}

pub fn is_matching(pattern: &str, text: &str) -> (r: bool)
    ensures
        r == is_matched(pattern@, text@),
{
    match is_match(pattern, text) {
        Some(b) => b,
        None => false,
    }
}

/// The text of group `i`, where there was a match and the group took part.
pub open spec fn group_of(groups: Option<Seq<Option<Seq<char>>>>, i: int) -> Option<Seq<char>> {
    match groups {
        Some(g) => if 0 <= i < g.len() {
            g[i]
        } else {
            None
        },
        None => None,
    }
}

/// The groups of a match, as texts; `None` where there was no match.
pub struct Groups {
    pub groups: Option<Vec<Option<String>>>,
}

impl View for Groups {
    type V = Option<Seq<Option<Seq<char>>>>;

    open spec fn view(&self) -> Option<Seq<Option<Seq<char>>>> {
        self.groups.deep_view()
    }
}

impl Groups {
    /// The groups of the leftmost match of `pattern` in `text`.
    pub fn of(pattern: &str, text: &str) -> (r: Groups)
        ensures
            r@ == regex_captures(pattern@, text@),
            r@ is Some <==> is_matched(pattern@, text@),
            pattern@ == crate::youtube::LIST_ID_RE@ ==> group_of(r@, 1) == crate::youtube::id_in(
                text@,
            ),
            forall|i: int| (#[trigger] group_of(r@, i)) is Some ==> crate::text::occurs_in(
                text@,
                group_of(r@, i)->0,
            ),
    {
        Groups { groups: captures(pattern, text) }
    }

    /// Whether there was a match.
    pub fn found(&self) -> (r: bool)
        ensures
            r == (self@ is Some),
    {
        self.groups.is_some()
    }

    pub fn get(&self, i: usize) -> (r: Option<String>)
        ensures
            r.deep_view() == group_of(self@, i as int),
    {
        match &self.groups {
            Some(g) => if i < g.len() {
                match &g[i] {
                    Some(s) => Some(s.clone()),
                    None => None,
                }
            } else {
                None
            },
            None => None,
        }
    }
}

} // verus!
