//! The titles of videos, and the noise that uploaders put into them.

use vstd::prelude::*;

use crate::text::{join, replace_char, split_whitespace};

verus! {

/// Bracketed noise in a title, like (Official Video), [Lyrics] or (HD).
pub const TITLE_NOISE_RE: &'static str =
    "(?i)[(\\[][^)\\]]*(official|video|lyric|lyrics|audio|visuali[sz]er|hd|4k|remaster|m/v|mv|clip)[^)\\]]*[)\\]]";

// ── Noise ────────────────────────────────────────────────────────────────────

pub open spec fn is_open(c: char) -> bool {
    c == '(' || c == '['
}

pub open spec fn is_close(c: char) -> bool {
    c == ')' || c == ']'
}

/// What a bracket is about when it is noise.
pub open spec fn noise_words() -> Seq<Seq<char>> {
    seq![
        "official"@,
        "video"@,
        "lyric"@,
        "lyrics"@,
        "audio"@,
        "visualiser"@,
        "visualizer"@,
        "hd"@,
        "4k"@,
        "remaster"@,
        "m/v"@,
        "mv"@,
        "clip"@,
    ]
}

/// `c` is the small letter, digit or mark `x`, whatever its case. The long s and
/// the sign for Kelvin are forms of `s` and `k`.
pub open spec fn folds_to(c: char, x: char) -> bool {
    ||| crate::text::ascii_lower(c) == x
    ||| x == 's' && c == '\u{17f}'
    ||| x == 'k' && c == '\u{212a}'
}

/// `word` stands at index `i` of `s`, in whatever case.
pub open spec fn spelled_at(s: Seq<char>, word: Seq<char>, i: int) -> bool {
    &&& 0 <= i
    &&& i + word.len() <= s.len()
    &&& forall|k: int| 0 <= k < word.len() ==> folds_to(#[trigger] s[i + k], word[k])
}

/// A word of noise stands in `s`.
pub open spec fn is_noisy(s: Seq<char>) -> bool {
    exists|n: int, i: int|
        0 <= n < noise_words().len() && #[trigger] spelled_at(s, noise_words()[n], i)
}

/// The position of the first closing bracket in `s`, or the length of `s`.
pub open spec fn first_close(s: Seq<char>) -> nat
    decreases s.len(),
{
    if s.len() == 0 || is_close(s[0]) {
        0
    } else {
        1 + first_close(s.drop_first())
    }
}

/// `s` starts with a bracket about a word of noise. A bracket ends where the
/// first one is closed, whatever is opened in it.
pub open spec fn starts_noise(s: Seq<char>) -> bool {
    &&& s.len() > 0
    &&& is_open(s[0])
    &&& first_close(s) < s.len()
    &&& is_noisy(s.subrange(1, first_close(s) as int))
}

/// No bracket of `s` is about a word of noise.
pub open spec fn is_quiet(s: Seq<char>) -> bool {
    forall|i: int| 0 <= i < s.len() ==> !starts_noise(#[trigger] s.skip(i))
}

/// A space in place of each noisy bracket, from the left.
pub open spec fn without_noise(s: Seq<char>) -> Seq<char>
    decreases s.len(),
{
    if s.len() == 0 {
        s
    } else if starts_noise(s) {
        seq![' '] + without_noise(s.skip(first_close(s) as int + 1))
    } else {
        seq![s[0]] + without_noise(s.drop_first())
    }
}

// ── Spaces ───────────────────────────────────────────────────────────────────

/// A title with bars as spaces, and single spaces between its words.
pub open spec fn tidied(title: Seq<char>) -> Seq<char> {
    crate::text::joined(crate::text::words(crate::text::with_char(title, '|', ' ')), " "@)
}

pub fn tidy_title(title: &str) -> (r: String)
    ensures
        r@ == tidied(title@),
{
    join(&split_whitespace(replace_char(title, '|', ' ').as_str()), " ")
}

/// A video title without bracketed noise and surplus spaces.
pub open spec fn cleaned_title(title: Seq<char>) -> Seq<char> {
    tidied(without_noise(title))
}

// ── Words between single spaces ──────────────────────────────────────────────

/// A word: not empty, and without white space.
pub open spec fn is_word(w: Seq<char>) -> bool {
    w.len() > 0 && forall|i: int|
        0 <= i < w.len() ==> !crate::text::is_white_space(#[trigger] w[i])
}

/// The white space of `s` is single spaces between other characters.
pub open spec fn is_evenly_spaced(s: Seq<char>) -> bool {
    forall|i: int|
        0 <= i < s.len() && crate::text::is_white_space(#[trigger] s[i]) ==> {
            &&& s[i] == ' '
            &&& 0 < i < s.len() - 1
            &&& !crate::text::is_white_space(s[i - 1])
            &&& !crate::text::is_white_space(s[i + 1])
        }
}

pub proof fn lemma_words_are_words(s: Seq<char>)
    ensures
        forall|i: int|
            0 <= i < crate::text::words(s).len() ==> is_word(#[trigger] crate::text::words(s)[i]),
    decreases s.len(),
{
    let t = crate::text::trim_start_by(s, crate::text::white_space());
    crate::text::lemma_trim_start_shrinks(s, crate::text::white_space());
    if t.len() > 0 {
        crate::text::lemma_word_len(t);
        let k = crate::text::word_len(t) as int;
        lemma_words_are_words(t.skip(k));
        let list = crate::text::words(s);
        assert(list == seq![t.take(k)] + crate::text::words(t.skip(k)));
        assert forall|i: int| 0 <= i < list.len() implies is_word(#[trigger] list[i]) by {
            if i == 0 {
                assert(list[0] == t.take(k));
                assert forall|j: int| 0 <= j < k implies !crate::text::is_white_space(
                    #[trigger] t.take(k)[j],
                ) by {
                    assert(t.take(k)[j] == t[j]);
                }
            } else {
                assert(list[i] == crate::text::words(t.skip(k))[i - 1]);
            }
        }
    }
}

proof fn lemma_joined_from_the_front(list: Seq<Seq<char>>, sep: Seq<char>)
    requires
        list.len() > 1,
    ensures
        crate::text::joined(list, sep) == list[0] + sep + crate::text::joined(
            list.drop_first(),
            sep,
        ),
    decreases list.len(),
{
    let rest = list.drop_first();
    let front = list.drop_last();
    if list.len() == 2 {
        assert(crate::text::joined(front, sep) == list[0]);
        assert(crate::text::joined(rest, sep) == list[1]);
    } else {
        lemma_joined_from_the_front(front, sep);
        assert(front.drop_first() =~= rest.drop_last());
        let middle = crate::text::joined(rest.drop_last(), sep);
        assert(crate::text::joined(rest, sep) == middle + sep + list.last());
        assert((list[0] + sep + middle) + sep + list.last() =~= list[0] + sep + (middle + sep
            + list.last()));
    }
}

proof fn lemma_word_len_is(s: Seq<char>, k: int)
    requires
        0 <= k <= s.len(),
        forall|i: int| 0 <= i < k ==> !crate::text::is_white_space(#[trigger] s[i]),
        k < s.len() ==> crate::text::is_white_space(s[k]),
    ensures
        crate::text::word_len(s) == k,
{
    crate::text::lemma_word_len(s);
    let n = crate::text::word_len(s) as int;
    if n < k {
        assert(!crate::text::is_white_space(s[n]));
    } else if k < n {
        assert(!crate::text::is_white_space(s[k]));
    }
}

/// Words with spaces between them are words again, and evenly spaced.
pub proof fn lemma_words_of_joined(list: Seq<Seq<char>>)
    requires
        forall|i: int| 0 <= i < list.len() ==> is_word(#[trigger] list[i]),
    ensures
        crate::text::words(crate::text::joined(list, " "@)) == list,
        is_evenly_spaced(crate::text::joined(list, " "@)),
        list.len() > 0 ==> {
            let all = crate::text::joined(list, " "@);
            all.len() > 0 && !crate::text::is_white_space(all[0])
        },
    decreases list.len(),
{
    reveal_strlit(" ");
    let all = crate::text::joined(list, " "@);
    if list.len() == 0 {
        assert(crate::text::words(all) =~= list);
    } else {
        let w = list[0];
        assert(is_word(w));
        let rest = list.drop_first();
        let tail = crate::text::joined(rest, " "@);
        assert forall|i: int| 0 <= i < rest.len() implies is_word(#[trigger] rest[i]) by {
            assert(rest[i] == list[i + 1]);
        }
        lemma_words_of_joined(rest);
        let k = w.len() as int;
        if list.len() == 1 {
            assert(all == w);
            assert(rest =~= Seq::<Seq<char>>::empty());
        } else {
            lemma_joined_from_the_front(list, " "@);
            assert(all =~= w + " "@ + tail);
        }
        assert forall|i: int| 0 <= i < k implies !crate::text::is_white_space(
            #[trigger] all[i],
        ) by {
            assert(all[i] == w[i]);
        }
        lemma_word_len_is(all, k);
        assert(!crate::text::is_white_space(all[0]));
        assert(crate::text::trim_start_by(all, crate::text::white_space()) == all);
        assert(all.take(k) =~= w);
        let after = all.skip(k);
        if list.len() == 1 {
            assert(after =~= Seq::<char>::empty());
            assert(crate::text::words(after) =~= rest);
        } else {
            assert(after[0] == ' ');
            assert(after.drop_first() =~= tail);
            assert(crate::text::trim_start_by(after, crate::text::white_space())
                == crate::text::trim_start_by(tail, crate::text::white_space()));
            assert(crate::text::words(after) == crate::text::words(tail));
            assert forall|i: int|
                0 <= i < all.len() && crate::text::is_white_space(#[trigger] all[i]) implies {
                &&& all[i] == ' '
                &&& 0 < i < all.len() - 1
                &&& !crate::text::is_white_space(all[i - 1])
                &&& !crate::text::is_white_space(all[i + 1])
            } by {
                if i == k {
                    assert(!crate::text::is_white_space(all[k - 1]));
                    assert(all[k + 1] == tail[0]);
                } else {
                    assert(i > k);
                    let j = i - k - 1;
                    assert(all[i] == tail[j]);
                    assert(crate::text::is_white_space(tail[j]));
                    assert(all[i - 1] == tail[j - 1]);
                    assert(all[i + 1] == tail[j + 1]);
                }
            }
        }
        assert(crate::text::words(all) == seq![w] + crate::text::words(after));
        assert(crate::text::words(all) =~= list);
    }
}

/// The white space of a tidied title is single spaces between other characters.
pub proof fn tidied_titles_are_evenly_spaced(title: Seq<char>)
    ensures
        is_evenly_spaced(tidied(title)),
{
    let s = crate::text::with_char(title, '|', ' ');
    lemma_words_are_words(s);
    lemma_words_of_joined(crate::text::words(s));
}

/// Tidying a title twice is tidying it once.
pub proof fn tidying_once_is_enough(title: Seq<char>)
    ensures
        tidied(tidied(title)) == tidied(title),
{
    let s = crate::text::with_char(title, '|', ' ');
    let r = tidied(title);
    lemma_words_are_words(s);
    lemma_words_of_joined(crate::text::words(s));
    tidied_titles_have_no_bars(title);
    assert forall|i: int| 0 <= i < r.len() implies r[i] != '|' by {
        assert(r.contains(r[i]));
    }
    assert(crate::text::with_char(r, '|', ' ') =~= r);
}

/// A tidied title holds no bar.
pub proof fn tidied_titles_have_no_bars(title: Seq<char>)
    ensures
        !tidied(title).contains('|'),
{
    let s = crate::text::with_char(title, '|', ' ');
    lemma_words_come_from(s);
    let list = crate::text::words(s);
    assert forall|i: int, j: int|
        0 <= i < list.len() && 0 <= j < list[i].len() implies #[trigger] list[i][j] != '|' by {
        assert(s.contains(list[i][j]));
    }
    lemma_joined_avoids(list, '|');
}

pub proof fn lemma_words_come_from(s: Seq<char>)
    ensures
        forall|i: int, j: int|
            0 <= i < crate::text::words(s).len() && 0 <= j < crate::text::words(s)[i].len()
                ==> s.contains(#[trigger] crate::text::words(s)[i][j]),
    decreases s.len(),
{
    let t = crate::text::trim_start_by(s, crate::text::white_space());
    crate::text::lemma_trim_start_shrinks(s, crate::text::white_space());
    lemma_trimmed_off(s);
    if t.len() > 0 {
        crate::text::lemma_word_len(t);
        let k = crate::text::word_len(t) as int;
        let rest = t.skip(k);
        lemma_words_come_from(rest);
        let list = crate::text::words(s);
        assert(list == seq![t.take(k)] + crate::text::words(rest));
        assert forall|i: int, j: int|
            0 <= i < list.len() && 0 <= j < list[i].len() implies s.contains(
            #[trigger] list[i][j]) by {
            let d = s.len() - t.len();
            if i == 0 {
                assert(list[0] == t.take(k));
                assert(s[d + j] == t[j]);
            } else {
                assert(list[i] == crate::text::words(rest)[i - 1]);
                let c = crate::text::words(rest)[i - 1][j];
                assert(rest.contains(c));
                let x = choose|x: int| 0 <= x < rest.len() && rest[x] == c;
                assert(s[d + k + x] == c);
            }
        }
    }
}

pub proof fn lemma_joined_avoids(list: Seq<Seq<char>>, c: char)
    requires
        c != ' ',
        forall|i: int, j: int|
            0 <= i < list.len() && 0 <= j < list[i].len() ==> #[trigger] list[i][j] != c,
    ensures
        !crate::text::joined(list, " "@).contains(c),
    decreases list.len(),
{
    reveal_strlit(" ");
    let all = crate::text::joined(list, " "@);
    if list.len() == 1 {
        assert(all == list[0]);
        assert forall|j: int| 0 <= j < all.len() implies #[trigger] all[j] != c by {
            assert(list[0][j] == all[j]);
        }
    } else if list.len() > 1 {
        let short = list.drop_last();
        assert forall|i: int, j: int|
            0 <= i < short.len() && 0 <= j < short[i].len() implies #[trigger] short[i][j] != c by {
            assert(list[i][j] == short[i][j]);
        }
        lemma_joined_avoids(short, c);
        let front = crate::text::joined(short, " "@);
        assert forall|j: int| 0 <= j < all.len() implies #[trigger] all[j] != c by {
            if j < front.len() {
                assert(all[j] == front[j]);
            } else if j > front.len() {
                assert(all[j] == list[list.len() - 1][j - front.len() - 1]);
            }
        }
    }
}

// ── Titles without noise ─────────────────────────────────────────────────────

proof fn lemma_first_close(s: Seq<char>)
    ensures
        first_close(s) <= s.len(),
        first_close(s) < s.len() ==> is_close(s[first_close(s) as int]),
        forall|i: int| 0 <= i < first_close(s) ==> !is_close(#[trigger] s[i]),
    decreases s.len(),
{
    if s.len() > 0 && !is_close(s[0]) {
        lemma_first_close(s.drop_first());
        assert forall|i: int| 0 <= i < first_close(s) implies !is_close(#[trigger] s[i]) by {
            if i > 0 {
                assert(s[i] == s.drop_first()[i - 1]);
            }
        }
    }
}

proof fn lemma_first_close_is(s: Seq<char>, c: int)
    requires
        0 <= c < s.len(),
        is_close(s[c]),
        forall|i: int| 0 <= i < c ==> !is_close(#[trigger] s[i]),
    ensures
        first_close(s) == c,
{
    lemma_first_close(s);
    let n = first_close(s) as int;
    if n < c {
        assert(!is_close(s[n]));
    } else if c < n {
        assert(!is_close(s[c]));
    }
}

proof fn lemma_noisy_part(s: Seq<char>, a: int, b: int)
    requires
        0 <= a <= b <= s.len(),
        is_noisy(s.subrange(a, b)),
    ensures
        is_noisy(s),
{
    let part = s.subrange(a, b);
    let (n, i) = choose|n: int, i: int|
        0 <= n < noise_words().len() && #[trigger] spelled_at(part, noise_words()[n], i);
    let word = noise_words()[n];
    assert forall|k: int| 0 <= k < word.len() implies folds_to(#[trigger] s[a + i + k], word[k]) by {
        assert(part[i + k] == s[a + i + k]);
    }
    assert(spelled_at(s, word, a + i));
}

/// Up to its first closing bracket, a text whose start is not noisy is kept.
proof fn lemma_start_kept(s: Seq<char>)
    requires
        first_close(s) < s.len(),
        !is_noisy(s.take(first_close(s) as int)),
    ensures
        without_noise(s).len() > first_close(s),
        without_noise(s).take(first_close(s) as int + 1) == s.take(first_close(s) as int + 1),
    decreases s.len(),
{
    let c = first_close(s) as int;
    let w = without_noise(s);
    if c == 0 {
        assert(w[0] == s[0]);
        assert(w.take(1) =~= s.take(1));
    } else {
        let front = s.take(c);
        assert(s.subrange(1, c) =~= front.subrange(1, c));
        if is_noisy(s.subrange(1, c)) {
            lemma_noisy_part(front, 1, c);
        }
        let rest = s.drop_first();
        assert(rest.take(c - 1) =~= s.subrange(1, c));
        lemma_start_kept(rest);
        let kept = without_noise(rest);
        assert forall|i: int| 0 <= i < c + 1 implies w[i] == s[i] by {
            if i > 0 {
                assert(kept.take(c)[i - 1] == rest.take(c)[i - 1]);
            }
        }
        assert(w.take(c + 1) =~= s.take(c + 1));
    }
}

proof fn lemma_unclosed_kept(s: Seq<char>)
    requires
        first_close(s) == s.len(),
    ensures
        without_noise(s) == s,
    decreases s.len(),
{
    if s.len() > 0 {
        lemma_unclosed_kept(s.drop_first());
        assert(without_noise(s) =~= s);
    }
}

/// What takes the noise out of a title leaves none.
proof fn lemma_noise_gone(s: Seq<char>)
    ensures
        is_quiet(without_noise(s)),
    decreases s.len(),
{
    let w = without_noise(s);
    if s.len() > 0 {
        let c = first_close(s) as int;
        lemma_first_close(s);
        let rest = if starts_noise(s) {
            s.skip(c + 1)
        } else {
            s.drop_first()
        };
        lemma_noise_gone(rest);
        assert forall|i: int| 0 <= i < w.len() implies !starts_noise(#[trigger] w.skip(i)) by {
            if i > 0 {
                assert(w.skip(i) =~= without_noise(rest).skip(i - 1));
            } else {
                assert(w.skip(0) =~= w);
                if !starts_noise(s) && is_open(s[0]) {
                    if c == s.len() {
                        lemma_unclosed_kept(s);
                    } else {
                        let kept = without_noise(rest);
                        assert(rest.take(c - 1) =~= s.subrange(1, c));
                        lemma_start_kept(rest);
                        assert forall|k: int| 0 <= k < c + 1 implies w[k] == s[k] by {
                            if k > 0 {
                                assert(kept.take(c)[k - 1] == rest.take(c)[k - 1]);
                            }
                        }
                        lemma_first_close_is(w, c);
                        assert(w.subrange(1, c) =~= s.subrange(1, c));
                    }
                }
            }
        }
    }
}

proof fn lemma_quiet_kept(s: Seq<char>)
    requires
        is_quiet(s),
    ensures
        without_noise(s) == s,
    decreases s.len(),
{
    if s.len() > 0 {
        let rest = s.drop_first();
        assert(s.skip(0) =~= s);
        assert forall|i: int| 0 <= i < rest.len() implies !starts_noise(#[trigger] rest.skip(i)) by {
            assert(rest.skip(i) =~= s.skip(i + 1));
        }
        lemma_quiet_kept(rest);
        assert(without_noise(s) =~= s);
    }
}

// ── Titles under other spaces ────────────────────────────────────────────────

/// What stands between the words of a title.
pub open spec fn is_blank(c: char) -> bool {
    crate::text::is_white_space(c) || c == '|'
}

/// `t` is `s` with other blanks: `from[i]` is where in `s` the character `i` of
/// `t` comes from, and what `t` leaves out is blank.
spec fn is_respaced(t: Seq<char>, s: Seq<char>, from: Seq<int>) -> bool {
    &&& from.len() == t.len()
    &&& forall|i: int| 0 <= i < from.len() ==> 0 <= #[trigger] from[i] < s.len()
    &&& forall|i: int, j: int| 0 <= i < j < from.len() ==> #[trigger] from[i] < #[trigger] from[j]
    &&& forall|i: int|
        0 <= i < t.len() ==> t[i] == s[#[trigger] from[i]] || t[i] == ' ' && is_blank(s[from[i]])
    &&& forall|i: int|
        0 <= i < t.len() - 1 && !is_blank(#[trigger] t[i]) && !is_blank(t[i + 1]) ==> from[i + 1]
            == from[i] + 1
    &&& forall|x: int| 0 <= x < s.len() && !is_blank(#[trigger] s[x]) ==> from.contains(x)
}

proof fn lemma_trimmed_off(s: Seq<char>)
    ensures
        ({
            let t = crate::text::trim_start_by(s, crate::text::white_space());
            &&& t.len() <= s.len()
            &&& t == s.skip(s.len() - t.len())
            &&& forall|i: int|
                0 <= i < s.len() - t.len() ==> crate::text::is_white_space(#[trigger] s[i])
        }),
    decreases s.len(),
{
    if s.len() > 0 && crate::text::white_space()(s[0]) {
        lemma_trimmed_off(s.drop_first());
        let t = crate::text::trim_start_by(s, crate::text::white_space());
        assert forall|i: int| 0 <= i < s.len() - t.len() implies crate::text::is_white_space(
            #[trigger] s[i],
        ) by {
            if i > 0 {
                assert(s[i] == s.drop_first()[i - 1]);
            }
        }
        assert(t =~= s.skip(s.len() - t.len()));
    } else {
        assert(s.skip(0) =~= s);
    }
}

/// Where the characters of the words of `s` come from.
proof fn words_from(s: Seq<char>) -> (from: Seq<int>)
    requires
        !s.contains('|'),
    ensures
        is_respaced(crate::text::joined(crate::text::words(s), " "@), s, from),
    decreases s.len(),
{
    reveal_strlit(" ");
    let t = crate::text::trim_start_by(s, crate::text::white_space());
    crate::text::lemma_trim_start_shrinks(s, crate::text::white_space());
    lemma_trimmed_off(s);
    let d = s.len() - t.len();
    let list = crate::text::words(s);
    let all = crate::text::joined(list, " "@);
    assert forall|x: int| 0 <= x < s.len() implies #[trigger] s[x] != '|' by {
        assert(s.contains(s[x]));
    }
    if t.len() == 0 {
        assert(all =~= Seq::<char>::empty());
        let from = Seq::<int>::empty();
        assert(is_respaced(all, s, from));
        from
    } else {
        crate::text::lemma_word_len(t);
        let k = crate::text::word_len(t) as int;
        let w = t.take(k);
        let rest = t.skip(k);
        assert(!rest.contains('|')) by {
            if rest.contains('|') {
                let x = choose|x: int| 0 <= x < rest.len() && rest[x] == '|';
                assert(s[d + k + x] == '|');
            }
        }
        let later = words_from(rest);
        let tail_words = crate::text::words(rest);
        let tail = crate::text::joined(tail_words, " "@);
        lemma_words_are_words(rest);
        lemma_words_of_joined(tail_words);
        assert(list == seq![w] + tail_words);
        assert(list.drop_first() =~= tail_words);
        let own = Seq::new(k as nat, |i: int| d + i);
        assert forall|x: int| 0 <= x < k implies #[trigger] s[d + x] == w[x] && !is_blank(w[x]) by {
            assert(s[d + x] == t[x]);
            assert(!crate::text::is_white_space(t[x]));
        }
        if tail_words.len() == 0 {
            assert(all =~= w);
            assert(tail =~= Seq::<char>::empty());
            assert forall|x: int| 0 <= x < s.len() && !is_blank(#[trigger] s[x]) implies own.contains(
                x,
            ) by {
                if x >= d + k {
                    assert(s[x] == rest[x - d - k]);
                    assert(later.contains(x - d - k));
                }
                assert(own[x - d] == x);
            }
            assert forall|i: int| 0 <= i < all.len() implies all[i] == s[#[trigger] own[i]] by {
                assert(s[d + i] == w[i]);
            }
            assert(is_respaced(all, s, own));
            own
        } else {
            lemma_joined_from_the_front(list, " "@);
            assert(all =~= w + seq![' '] + tail);
            let shifted = Seq::new(later.len(), |i: int| later[i] + d + k);
            let from = own + seq![d + k] + shifted;
            assert(k < t.len()) by {
                if k == t.len() {
                    assert(rest =~= Seq::<char>::empty());
                }
            }
            assert(rest[0] == t[k]);
            assert(crate::text::is_white_space(s[d + k]));
            assert(later[0] > 0) by {
                assert(tail[0] == rest[later[0]] || tail[0] == ' ');
            }
            assert forall|i: int| 0 <= i < later.len() implies #[trigger] shifted[i] > d + k
                && shifted[i] < s.len() && s[shifted[i]] == rest[later[i]] by {
                assert(0 <= later[i] < rest.len());
                if i > 0 {
                    assert(later[0] < later[i]);
                }
                assert(rest[later[i]] == t[later[i] + k]);
            }
            assert forall|i: int| 0 <= i < from.len() implies 0 <= #[trigger] from[i] < s.len() by {
                if i > k {
                    assert(from[i] == shifted[i - k - 1]);
                }
            }
            assert forall|i: int, j: int| 0 <= i < j < from.len() implies #[trigger] from[i]
                < #[trigger] from[j] by {
                if j > k {
                    assert(from[j] == shifted[j - k - 1]);
                    if i > k {
                        assert(from[i] == shifted[i - k - 1]);
                        assert(later[i - k - 1] < later[j - k - 1]);
                    }
                }
            }
            assert forall|i: int| 0 <= i < all.len() implies all[i] == s[#[trigger] from[i]]
                || all[i] == ' ' && is_blank(s[from[i]]) by {
                if i < k {
                    assert(s[d + i] == w[i]);
                } else if i > k {
                    let j = i - k - 1;
                    assert(from[i] == shifted[j]);
                    assert(all[i] == tail[j]);
                    assert(0 <= later[j] < rest.len());
                }
            }
            assert forall|i: int|
                0 <= i < all.len() - 1 && !is_blank(#[trigger] all[i]) && !is_blank(
                    all[i + 1],
                ) implies from[i + 1] == from[i] + 1 by {
                if i > k {
                    let j = i - k - 1;
                    assert(all[i] == tail[j]);
                    assert(all[i + 1] == tail[j + 1]);
                    assert(from[i] == shifted[j]);
                    assert(from[i + 1] == shifted[j + 1]);
                } else if i == k {
                    assert(all[i] == ' ');
                } else if i == k - 1 {
                    assert(all[i + 1] == ' ');
                }
            }
            assert forall|x: int| 0 <= x < s.len() && !is_blank(#[trigger] s[x]) implies from.contains(
                x,
            ) by {
                if x < d + k {
                    assert(from[x - d] == x);
                } else {
                    assert(s[x] == rest[x - d - k]);
                    assert(later.contains(x - d - k));
                    let i = choose|i: int| 0 <= i < later.len() && later[i] == x - d - k;
                    assert(shifted[i] == x);
                    assert(from[k + 1 + i] == x);
                }
            }
            assert(is_respaced(all, s, from));
            from
        }
    }
}

/// Where the characters of a tidied title come from.
proof fn tidied_from(title: Seq<char>) -> (from: Seq<int>)
    ensures
        is_respaced(tidied(title), title, from),
{
    let s = crate::text::with_char(title, '|', ' ');
    assert(!s.contains('|'));
    let from = words_from(s);
    let t = tidied(title);
    assert forall|i: int| 0 <= i < t.len() implies t[i] == title[#[trigger] from[i]] || t[i] == ' '
        && is_blank(title[from[i]]) by {
        assert(t[i] == s[from[i]] || t[i] == ' ' && is_blank(s[from[i]]));
        assert(s[from[i]] == title[from[i]] || title[from[i]] == '|');
    }
    assert forall|x: int| 0 <= x < title.len() && !is_blank(#[trigger] title[x]) implies from.contains(
        x,
    ) by {
        assert(s[x] == title[x]);
        assert(!is_blank(s[x]));
    }
    assert(is_respaced(t, title, from));
    from
}

/// The words of noise hold nothing blank, in whatever case.
proof fn lemma_noise_words(n: int, k: int, c: char)
    requires
        0 <= n < noise_words().len(),
    ensures
        noise_words()[n].len() > 0,
        0 <= k < noise_words()[n].len() && folds_to(c, noise_words()[n][k]) ==> !is_blank(c),
{
    reveal_strlit("official");
    reveal_strlit("video");
    reveal_strlit("lyric");
    reveal_strlit("lyrics");
    reveal_strlit("audio");
    reveal_strlit("visualiser");
    reveal_strlit("visualizer");
    reveal_strlit("hd");
    reveal_strlit("4k");
    reveal_strlit("remaster");
    reveal_strlit("m/v");
    reveal_strlit("mv");
    reveal_strlit("clip");
}

proof fn lemma_run_stays_together(t: Seq<char>, s: Seq<char>, from: Seq<int>, i: int, k: int)
    requires
        is_respaced(t, s, from),
        0 <= i,
        0 <= k,
        i + k < t.len(),
        forall|m: int| 0 <= m <= k ==> !is_blank(#[trigger] t[i + m]),
    ensures
        from[i + k] == from[i] + k,
    decreases k,
{
    if k > 0 {
        lemma_run_stays_together(t, s, from, i, k - 1);
        assert(!is_blank(t[i + (k - 1)]));
        assert(!is_blank(t[i + k]));
        assert(from[(i + k - 1) + 1] == from[i + k - 1] + 1);
    }
}

/// A noisy bracket of a respaced text was one before.
proof fn lemma_noise_was_there(t: Seq<char>, s: Seq<char>, from: Seq<int>, i: int)
    requires
        is_respaced(t, s, from),
        0 <= i < t.len(),
        starts_noise(t.skip(i)),
    ensures
        0 <= from[i] < s.len(),
        starts_noise(s.skip(from[i])),
{
    let u = t.skip(i);
    let c = first_close(u) as int;
    lemma_first_close(u);
    let j = i + c;
    let inner = u.subrange(1, c);
    let (n, p) = choose|n: int, p: int|
        0 <= n < noise_words().len() && #[trigger] spelled_at(inner, noise_words()[n], p);
    let word = noise_words()[n];
    lemma_noise_words(n, 0, ' ');
    let a = i + 1 + p;
    assert forall|m: int| 0 <= m < word.len() implies !is_blank(#[trigger] t[a + m]) && folds_to(
        t[a + m],
        word[m],
    ) by {
        assert(inner[p + m] == t[a + m]);
        lemma_noise_words(n, m, t[a + m]);
    }
    assert(u[0] == t[i]);
    assert(u[c] == t[j]);
    assert(0 <= from[i] < s.len());
    assert(0 <= from[j] < s.len());
    assert(from[i] < from[j]);
    assert(t[i] == s[from[i]]);
    assert(t[j] == s[from[j]]);
    let v = s.skip(from[i]);
    let e = from[j] - from[i];
    assert forall|x: int| 0 <= x < e implies !is_close(#[trigger] v[x]) by {
        if is_close(v[x]) {
            let y = from[i] + x;
            assert(v[x] == s[y]);
            assert(!is_blank(s[y]));
            assert(from.contains(y));
            let m = choose|m: int| 0 <= m < from.len() && from[m] == y;
            assert(t[m] == s[from[m]]);
            if m < i {
                assert(from[m] < from[i]);
            }
            if j < m {
                assert(from[j] < from[m]);
            }
            assert(u[m - i] == t[m]);
        }
    }
    assert(v[e] == s[from[j]]);
    lemma_first_close_is(v, e);
    let part = v.subrange(1, e);
    let q = from[a] - from[i] - 1;
    assert(from[i] < from[a]);
    let last = word.len() - 1;
    assert(a + last < j);
    assert forall|m: int| 0 <= m < word.len() implies #[trigger] from[a + m] == from[a] + m by {
        lemma_run_stays_together(t, s, from, a, m);
    }
    assert(from[a + last] < from[j]);
    assert(q + word.len() <= part.len());
    assert forall|m: int| 0 <= m < word.len() implies folds_to(#[trigger] part[q + m], word[m]) by {
        assert(part[q + m] == s[from[a] + m]);
        assert(from[a + m] == from[a] + m);
        assert(!is_blank(t[a + m]));
        assert(t[a + m] == s[from[a + m]]);
    }
    assert(spelled_at(part, word, q));
}

/// Tidying a title makes no noise.
pub proof fn tidying_makes_no_noise(title: Seq<char>)
    requires
        is_quiet(title),
    ensures
        is_quiet(tidied(title)),
{
    let t = tidied(title);
    let from = tidied_from(title);
    assert forall|i: int| 0 <= i < t.len() implies !starts_noise(#[trigger] t.skip(i)) by {
        if starts_noise(t.skip(i)) {
            lemma_noise_was_there(t, title, from, i);
        }
    }
}

/// A cleaned title has no noisy bracket, no bar, and only single spaces, each
/// between other characters.
pub proof fn cleaned_titles_are_clean(title: Seq<char>)
    ensures
        is_quiet(cleaned_title(title)),
        !cleaned_title(title).contains('|'),
        is_evenly_spaced(cleaned_title(title)),
{
    lemma_noise_gone(title);
    tidying_makes_no_noise(without_noise(title));
    tidied_titles_have_no_bars(without_noise(title));
    tidied_titles_are_evenly_spaced(without_noise(title));
}

/// Cleaning a title twice is cleaning it once.
pub proof fn cleaning_once_is_enough(title: Seq<char>)
    ensures
        cleaned_title(cleaned_title(title)) == cleaned_title(title),
{
    cleaned_titles_are_clean(title);
    lemma_quiet_kept(cleaned_title(title));
    tidying_once_is_enough(without_noise(title));
}

/// Cleaning a title without noise tidies it, and no more.
pub proof fn quiet_titles_are_tidied(title: Seq<char>)
    requires
        is_quiet(title),
    ensures
        cleaned_title(title) == tidied(title),
{
    lemma_quiet_kept(title);
}

// ── What tidying and cleaning keep ───────────────────────────────────────────

/// Two texts with one space between them; an empty one adds nothing.
pub open spec fn side_by_side(a: Seq<char>, b: Seq<char>) -> Seq<char> {
    if a.len() == 0 {
        b
    } else if b.len() == 0 {
        a
    } else {
        a + seq![' '] + b
    }
}

/// Tidying keeps every word of a title, in order: where a blank stands in it,
/// what is before and what is behind are tidied on their own.
pub proof fn tidying_keeps_every_word(a: Seq<char>, c: char, b: Seq<char>)
    requires
        is_blank(c),
    ensures
        tidied(a + seq![c] + b) == side_by_side(tidied(a), tidied(b)),
{
    reveal_strlit(" ");
    let x = crate::text::with_char(a, '|', ' ');
    let y = crate::text::with_char(b, '|', ' ');
    let d = if c == '|' {
        ' '
    } else {
        c
    };
    let s = a + seq![c] + b;
    assert(crate::text::with_char(s, '|', ' ') =~= x + seq![d] + y);
    crate::text::white_space_parts_words(x, d, y);
    let before = crate::text::words(x);
    let behind = crate::text::words(y);
    lemma_words_are_words(x);
    lemma_words_are_words(y);
    lemma_words_of_joined(before);
    lemma_words_of_joined(behind);
    assert(seq![' '] =~= " "@);
    if before.len() == 0 {
        assert(before + behind =~= behind);
    } else if behind.len() == 0 {
        assert(before + behind =~= before);
    } else {
        crate::text::parts_are_joined_in_order(before, behind, before[0], " "@);
    }
}

/// Tidying leaves a title without blanks as it is.
pub proof fn tidying_keeps_a_word(s: Seq<char>)
    requires
        forall|i: int| 0 <= i < s.len() ==> !is_blank(#[trigger] s[i]),
    ensures
        tidied(s) == s,
{
    let x = crate::text::with_char(s, '|', ' ');
    assert forall|i: int| 0 <= i < s.len() implies #[trigger] x[i] == s[i] by {
        assert(!is_blank(s[i]));
    }
    assert(x =~= s);
    assert forall|i: int| 0 <= i < s.len() implies !crate::text::is_white_space(
        #[trigger] s[i],
    ) by {
        assert(!is_blank(s[i]));
    }
    crate::text::a_word_is_one_word(s);
    crate::text::parts_are_joined_in_order(seq![s], seq![s], s, " "@);
    if s.len() == 0 {
        assert(crate::text::words(s) =~= Seq::<Seq<char>>::empty());
        assert(tidied(s) =~= s);
    }
}

/// Of a title, a noisy bracket goes and all that surrounds it stays.
pub proof fn only_the_noise_goes(a: Seq<char>, open: char, inner: Seq<char>, close: char, b: Seq<char>)
    requires
        open == '(' || open == '[',
        close == ')' || close == ']',
        forall|i: int|
            0 <= i < inner.len() ==> #[trigger] inner[i] != ')' && inner[i] != ']',
        is_noisy(inner),
        forall|i: int|
            0 <= i < a.len() ==> !starts_noise(
                #[trigger] (a + seq![open] + inner + seq![close] + b).skip(i),
            ),
    ensures
        without_noise(a + seq![open] + inner + seq![close] + b) == a + seq![' '] + without_noise(b),
    decreases a.len(),
{
    let s = a + seq![open] + inner + seq![close] + b;
    if a.len() == 0 {
        let e = inner.len() as int + 1;
        assert(s[e] == close);
        assert forall|i: int| 0 <= i < e implies !is_close(#[trigger] s[i]) by {
            if i > 0 {
                assert(s[i] == inner[i - 1]);
            }
        }
        lemma_first_close_is(s, e);
        assert(s.subrange(1, e) =~= inner);
        assert(s.skip(e + 1) =~= b);
        assert(without_noise(s) =~= a + seq![' '] + without_noise(b));
    } else {
        let rest = a.drop_first();
        let tail = rest + seq![open] + inner + seq![close] + b;
        assert(s.skip(0) =~= s);
        assert(s.drop_first() =~= tail);
        assert forall|i: int| 0 <= i < rest.len() implies !starts_noise(
            #[trigger] (rest + seq![open] + inner + seq![close] + b).skip(i),
        ) by {
            assert(tail.skip(i) =~= s.skip(i + 1));
        }
        only_the_noise_goes(rest, open, inner, close, b);
        assert(without_noise(s) =~= a + seq![' '] + without_noise(b));
    }
}

/// A text in small letters that holds one of the words of noise.
pub open spec fn speaks_of_noise(s: Seq<char>) -> bool {
    ||| crate::text::occurs_in(s, "official"@)
    ||| crate::text::occurs_in(s, "video"@)
    ||| crate::text::occurs_in(s, "lyric"@)
    ||| crate::text::occurs_in(s, "lyrics"@)
    ||| crate::text::occurs_in(s, "audio"@)
    ||| crate::text::occurs_in(s, "visualiser"@)
    ||| crate::text::occurs_in(s, "visualizer"@)
    ||| crate::text::occurs_in(s, "hd"@)
    ||| crate::text::occurs_in(s, "4k"@)
    ||| crate::text::occurs_in(s, "remaster"@)
    ||| crate::text::occurs_in(s, "m/v"@)
    ||| crate::text::occurs_in(s, "mv"@)
    ||| crate::text::occurs_in(s, "clip"@)
}

/// What is noise, of ASCII text: it holds one of the words, in whatever case.
pub proof fn the_words_of_noise(s: Seq<char>)
    requires
        vstd::utf8::is_ascii_chars(s),
    ensures
        is_noisy(s) <==> speaks_of_noise(crate::text::ascii_lowered(s)),
{
    let low = crate::text::ascii_lowered(s);
    reveal_strlit("official");
    reveal_strlit("video");
    reveal_strlit("lyric");
    reveal_strlit("lyrics");
    reveal_strlit("audio");
    reveal_strlit("visualiser");
    reveal_strlit("visualizer");
    reveal_strlit("hd");
    reveal_strlit("4k");
    reveal_strlit("remaster");
    reveal_strlit("m/v");
    reveal_strlit("mv");
    reveal_strlit("clip");
    assert forall|n: int, i: int| 0 <= n < noise_words().len() implies (#[trigger] spelled_at(
        s,
        noise_words()[n],
        i,
    ) <==> crate::text::occurs_at(low, noise_words()[n], i)) by {
        lemma_spelled(s, noise_words()[n], i);
    }
    if is_noisy(s) {
        let (n, i) = choose|n: int, i: int|
            0 <= n < noise_words().len() && #[trigger] spelled_at(s, noise_words()[n], i);
        assert(crate::text::occurs_at(low, noise_words()[n], i));
        assert(crate::text::occurs_in(low, noise_words()[n]));
    }
    if crate::text::occurs_in(low, "official"@) {
        let i = choose|i: int| crate::text::occurs_at(low, "official"@, i);
        assert(noise_words()[0] == "official"@);
        assert(spelled_at(s, noise_words()[0], i));
    }
    if crate::text::occurs_in(low, "video"@) {
        let i = choose|i: int| crate::text::occurs_at(low, "video"@, i);
        assert(noise_words()[1] == "video"@);
        assert(spelled_at(s, noise_words()[1], i));
    }
    if crate::text::occurs_in(low, "lyric"@) {
        let i = choose|i: int| crate::text::occurs_at(low, "lyric"@, i);
        assert(noise_words()[2] == "lyric"@);
        assert(spelled_at(s, noise_words()[2], i));
    }
    if crate::text::occurs_in(low, "lyrics"@) {
        let i = choose|i: int| crate::text::occurs_at(low, "lyrics"@, i);
        assert(noise_words()[3] == "lyrics"@);
        assert(spelled_at(s, noise_words()[3], i));
    }
    if crate::text::occurs_in(low, "audio"@) {
        let i = choose|i: int| crate::text::occurs_at(low, "audio"@, i);
        assert(noise_words()[4] == "audio"@);
        assert(spelled_at(s, noise_words()[4], i));
    }
    if crate::text::occurs_in(low, "visualiser"@) {
        let i = choose|i: int| crate::text::occurs_at(low, "visualiser"@, i);
        assert(noise_words()[5] == "visualiser"@);
        assert(spelled_at(s, noise_words()[5], i));
    }
    if crate::text::occurs_in(low, "visualizer"@) {
        let i = choose|i: int| crate::text::occurs_at(low, "visualizer"@, i);
        assert(noise_words()[6] == "visualizer"@);
        assert(spelled_at(s, noise_words()[6], i));
    }
    if crate::text::occurs_in(low, "hd"@) {
        let i = choose|i: int| crate::text::occurs_at(low, "hd"@, i);
        assert(noise_words()[7] == "hd"@);
        assert(spelled_at(s, noise_words()[7], i));
    }
    if crate::text::occurs_in(low, "4k"@) {
        let i = choose|i: int| crate::text::occurs_at(low, "4k"@, i);
        assert(noise_words()[8] == "4k"@);
        assert(spelled_at(s, noise_words()[8], i));
    }
    if crate::text::occurs_in(low, "remaster"@) {
        let i = choose|i: int| crate::text::occurs_at(low, "remaster"@, i);
        assert(noise_words()[9] == "remaster"@);
        assert(spelled_at(s, noise_words()[9], i));
    }
    if crate::text::occurs_in(low, "m/v"@) {
        let i = choose|i: int| crate::text::occurs_at(low, "m/v"@, i);
        assert(noise_words()[10] == "m/v"@);
        assert(spelled_at(s, noise_words()[10], i));
    }
    if crate::text::occurs_in(low, "mv"@) {
        let i = choose|i: int| crate::text::occurs_at(low, "mv"@, i);
        assert(noise_words()[11] == "mv"@);
        assert(spelled_at(s, noise_words()[11], i));
    }
    if crate::text::occurs_in(low, "clip"@) {
        let i = choose|i: int| crate::text::occurs_at(low, "clip"@, i);
        assert(noise_words()[12] == "clip"@);
        assert(spelled_at(s, noise_words()[12], i));
    }
}

proof fn lemma_spelled(s: Seq<char>, word: Seq<char>, i: int)
    requires
        vstd::utf8::is_ascii_chars(s),
    ensures
        spelled_at(s, word, i) <==> crate::text::occurs_at(
            crate::text::ascii_lowered(s),
            word,
            i,
        ),
{
    let low = crate::text::ascii_lowered(s);
    if 0 <= i && i + word.len() <= s.len() {
        if spelled_at(s, word, i) {
            assert forall|k: int| 0 <= k < word.len() implies low[i + k] == #[trigger] word[k] by {
                assert(folds_to(s[i + k], word[k]));
            }
            assert(low.subrange(i, i + word.len()) =~= word);
        }
        if crate::text::occurs_at(low, word, i) {
            assert forall|k: int| 0 <= k < word.len() implies folds_to(
                #[trigger] s[i + k],
                word[k],
            ) by {
                assert(low.subrange(i, i + word.len())[k] == word[k]);
            }
        }
    }
}

} // verus!
