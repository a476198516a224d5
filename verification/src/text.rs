//! Text as sequences of characters: the few string operations that the bot
//! needs, each with a mathematical description and a verified implementation.

use vstd::prelude::*;

verus! {

/// `String::push` appends one character.
pub assume_specification[ String::push ](s: &mut String, c: char)
    ensures
        final(s)@ == old(s)@.push(c),
;

// ── Characters ───────────────────────────────────────────────────────────────

/// The characters with Unicode's `White_Space` property.
pub open spec fn is_white_space(c: char) -> bool {
    let u = c as u32;
    ||| 0x9 <= u <= 0xd
    ||| u == 0x20
    ||| u == 0x85
    ||| u == 0xa0
    ||| u == 0x1680
    ||| 0x2000 <= u <= 0x200a
    ||| u == 0x2028
    ||| u == 0x2029
    ||| u == 0x202f
    ||| u == 0x205f
    ||| u == 0x3000
}

/// `is_white_space` as a predicate value.
pub open spec fn white_space() -> spec_fn(char) -> bool {
    |c: char| is_white_space(c)
}

pub fn is_whitespace(c: char) -> (r: bool)
    ensures
        r == is_white_space(c),
{
    let u: u32 = c as u32;
    (0x9 <= u && u <= 0xd) || u == 0x20 || u == 0x85 || u == 0xa0 || u == 0x1680 || (0x2000 <= u
        && u <= 0x200a) || u == 0x2028 || u == 0x2029 || u == 0x202f || u == 0x205f || u == 0x3000
}

/// The lower-case form of an ASCII capital; any other character itself.
pub open spec fn ascii_lower(c: char) -> char {
    if 'A' <= c <= 'Z' {
        (c as u32 + 32) as char
    } else {
        c
    }
}

pub fn to_ascii_lower(c: char) -> (r: char)
    ensures
        r == ascii_lower(c),
{
    if 'A' <= c && c <= 'Z' {
        let b: u8 = c as u8;
        (b + 32) as char
    } else {
        c
    }
}

/// The decimal digit `d`, for `d < 10`.
pub open spec fn digit(d: nat) -> char {
    (48 + d) as char
}

pub open spec fn is_digit(c: char) -> bool {
    '0' <= c <= '9'
}

// ── Letter case ──────────────────────────────────────────────────────────────

/// `s` with its ASCII capitals lowered.
pub open spec fn ascii_lowered(s: Seq<char>) -> Seq<char> {
    s.map_values(|c: char| ascii_lower(c))
}

/// What `str::to_lowercase` returns for a text.
pub uninterp spec fn lowercased(s: Seq<char>) -> Seq<char>;

/// Calls `str::to_lowercase`, which applies Unicode's lower-case mapping. The
/// contract names its result, and says that on ASCII text it lowers the
/// capitals and keeps the rest.
#[verifier::external_body]
pub(crate) fn lowercase(s: &str) -> (r: String)
    ensures
        r@ == lowercased(s@),
        s.is_ascii() ==> r@ == ascii_lowered(s@),
{
    s.to_lowercase()
}

/// The capital of a lower-case ASCII letter; any other character itself.
pub open spec fn ascii_upper(c: char) -> char {
    if 'a' <= c <= 'z' {
        (c as u32 - 32) as char
    } else {
        c
    }
}

/// What `char::to_uppercase` yields for a character.
pub uninterp spec fn uppercased(c: char) -> Seq<char>;

/// Calls `char::to_uppercase`, which yields the characters of Unicode's
/// upper-case mapping. The contract names them, and says that a lower-case
/// ASCII letter yields its capital alone, and any other ASCII character itself.
#[verifier::external_body]
fn uppercase(c: char) -> (r: String)
    ensures
        r@ == uppercased(c),
        c as u32 <= 127 ==> r@ == seq![ascii_upper(c)],
{
    c.to_uppercase().collect::<String>()
}

/// `s` with its first character in upper case.
pub open spec fn capitalized(s: Seq<char>) -> Seq<char> {
    if s.len() == 0 {
        s
    } else {
        uppercased(s[0]) + s.drop_first()
    }
}

/// `s` with its first character raised where it is an ASCII letter.
pub open spec fn ascii_capitalized(s: Seq<char>) -> Seq<char> {
    if s.len() == 0 {
        s
    } else {
        seq![ascii_upper(s[0])] + s.drop_first()
    }
}

pub fn capitalize(s: &str) -> (r: String)
    ensures
        r@ == capitalized(s@),
        s@.len() == 0 || s@[0] as u32 <= 127 ==> r@ == ascii_capitalized(s@),
{
    let v = chars_of(s);
    if v.len() == 0 {
        return String::new();
    }
    let mut r = uppercase(v[0]);
    r.append(string_of(&v, 1, v.len()).as_str());
    assert(v@.subrange(1, v@.len() as int) == s@.drop_first());
    r
}

// ── Between strings and character vectors ────────────────────────────────────

pub fn chars_of(s: &str) -> (r: Vec<char>)
    ensures
        r@ == s@,
{
    let mut v: Vec<char> = Vec::new();
    for c in it: s.chars()
        invariant
            v@ == it.seq().take(it.index()),
            it.seq() == s@,
    {
        v.push(c);
    }
    v
}

/// The characters of `v` from `from` up to, not including, `to`.
pub fn string_of(v: &Vec<char>, from: usize, to: usize) -> (r: String)
    requires
        from <= to <= v@.len(),
    ensures
        r@ == v@.subrange(from as int, to as int),
{
    let mut r = String::new();
    let mut i: usize = from;
    while i < to
        invariant
            from <= i <= to <= v@.len(),
            r@ == v@.subrange(from as int, i as int),
        decreases to - i,
    {
        r.push(v[i]);
        i += 1;
    }
    r
}

pub fn same(a: &str, b: &str) -> (r: bool)
    ensures
        r == (a@ == b@),
{
    a.to_owned() == b.to_owned()
}

/// Two texts that are equal once ASCII capitals are lowered.
pub open spec fn same_but_ascii_case(a: Seq<char>, b: Seq<char>) -> bool {
    a.len() == b.len() && forall|i: int|
        0 <= i < a.len() ==> ascii_lower(#[trigger] a[i]) == ascii_lower(b[i])
}

pub fn eq_ignore_ascii_case(a: &str, b: &str) -> (r: bool)
    ensures
        r == same_but_ascii_case(a@, b@),
{
    let x = chars_of(a);
    let y = chars_of(b);
    if x.len() != y.len() {
        return false;
    }
    let mut i: usize = 0;
    while i < x.len()
        invariant
            x@ == a@,
            y@ == b@,
            x@.len() == y@.len(),
            i <= x@.len(),
            forall|j: int| 0 <= j < i ==> ascii_lower(#[trigger] a@[j]) == ascii_lower(b@[j]),
        decreases x@.len() - i,
    {
        if to_ascii_lower(x[i]) != to_ascii_lower(y[i]) {
            assert(ascii_lower(a@[i as int]) != ascii_lower(b@[i as int]));
            return false;
        }
        i += 1;
    }
    true
}

// ── Trimming ─────────────────────────────────────────────────────────────────

/// `s` without the leading characters that satisfy `p`.
pub open spec fn trim_start_by(s: Seq<char>, p: spec_fn(char) -> bool) -> Seq<char>
    decreases s.len(),
{
    if s.len() > 0 && p(s[0]) {
        trim_start_by(s.drop_first(), p)
    } else {
        s
    }
}

/// `s` without the trailing characters that satisfy `p`.
pub open spec fn trim_end_by(s: Seq<char>, p: spec_fn(char) -> bool) -> Seq<char>
    decreases s.len(),
{
    if s.len() > 0 && p(s.last()) {
        trim_end_by(s.drop_last(), p)
    } else {
        s
    }
}

/// `s` without leading and trailing white space.
pub open spec fn trimmed(s: Seq<char>) -> Seq<char> {
    trim_end_by(trim_start_by(s, white_space()), white_space())
}

pub fn trim(s: &str) -> (r: String)
    ensures
        r@ == trimmed(s@),
{
    let v = chars_of(s);
    let n: usize = v.len();
    let mut i: usize = 0;
    proof {
        assert(v@.skip(0) == v@);
    }
    while i < n && is_whitespace(v[i])
        invariant
            n == v@.len(),
            i <= n,
            trim_start_by(v@, white_space()) == trim_start_by(v@.skip(i as int), white_space()),
        decreases n - i,
    {
        proof {
            assert(v@.skip(i as int).drop_first() == v@.skip(i + 1));
        }
        i += 1;
    }
    let ghost t = v@.skip(i as int);
    assert(trim_start_by(v@, white_space()) == t);
    let mut j: usize = n;
    assert(v@.subrange(i as int, j as int) == t);
    while i < j && is_whitespace(v[j - 1])
        invariant
            n == v@.len(),
            i <= j <= n,
            trim_end_by(t, white_space()) == trim_end_by(
                v@.subrange(i as int, j as int),
                white_space(),
            ),
        decreases j - i,
    {
        proof {
            let u = v@.subrange(i as int, j as int);
            assert(u.last() == v@[j - 1]);
            assert(u.drop_last() == v@.subrange(i as int, j - 1));
        }
        j -= 1;
    }
    proof {
        let u = v@.subrange(i as int, j as int);
        if i < j {
            assert(u.last() == v@[j - 1]);
        }
    }
    string_of(&v, i, j)
}

// ── Words ────────────────────────────────────────────────────────────────────

/// The length of the longest prefix of `s` without white space.
pub open spec fn word_len(s: Seq<char>) -> nat
    decreases s.len(),
{
    if s.len() > 0 && !is_white_space(s[0]) {
        1 + word_len(s.drop_first())
    } else {
        0
    }
}

pub proof fn lemma_word_len(s: Seq<char>)
    ensures
        word_len(s) <= s.len(),
        s.len() > 0 && !is_white_space(s[0]) ==> word_len(s) > 0,
        forall|i: int| 0 <= i < word_len(s) ==> !is_white_space(#[trigger] s[i]),
        word_len(s) < s.len() ==> is_white_space(s[word_len(s) as int]),
    decreases s.len(),
{
    if s.len() > 0 && !is_white_space(s[0]) {
        lemma_word_len(s.drop_first());
        assert forall|i: int| 0 <= i < word_len(s) implies !is_white_space(#[trigger] s[i]) by {
            if i > 0 {
                assert(s[i] == s.drop_first()[i - 1]);
            }
        }
    }
}

pub proof fn lemma_trim_start_shrinks(s: Seq<char>, p: spec_fn(char) -> bool)
    ensures
        trim_start_by(s, p).len() <= s.len(),
        trim_start_by(s, p).len() > 0 ==> !p(trim_start_by(s, p)[0]),
    decreases s.len(),
{
    if s.len() > 0 && p(s[0]) {
        lemma_trim_start_shrinks(s.drop_first(), p);
    }
}

/// The maximal runs of characters other than white space, in order.
pub open spec fn words(s: Seq<char>) -> Seq<Seq<char>>
    decreases s.len(),
{
    let t = trim_start_by(s, white_space());
    if t.len() == 0 {
        Seq::empty()
    } else {
        proof {
            lemma_trim_start_shrinks(s, white_space());
            lemma_word_len(t);
        }
        seq![t.take(word_len(t) as int)] + words(t.skip(word_len(t) as int))
    }
}

/// `list` with `sep` between neighbours.
pub open spec fn joined(list: Seq<Seq<char>>, sep: Seq<char>) -> Seq<char>
    decreases list.len(),
{
    if list.len() == 0 {
        Seq::empty()
    } else if list.len() == 1 {
        list[0]
    } else {
        joined(list.drop_last(), sep) + sep + list.last()
    }
}

pub fn split_whitespace(s: &str) -> (r: Vec<String>)
    ensures
        r.deep_view() == words(s@),
{
    let v = chars_of(s);
    let n: usize = v.len();
    let mut r: Vec<String> = Vec::new();
    let mut i: usize = 0;
    proof {
        assert(v@.skip(0) == v@);
        assert(r.deep_view() + words(v@.skip(0)) == words(s@));
    }
    while i < n
        invariant
            n == v@.len(),
            i <= n,
            r.deep_view() + words(v@.skip(i as int)) == words(s@),
        decreases n - i,
    {
        let ghost rest = v@.skip(i as int);
        if is_whitespace(v[i]) {
            proof {
                assert(rest.drop_first() == v@.skip(i + 1));
                assert(words(rest) == words(v@.skip(i + 1)));
            }
            i += 1;
        } else {
            let start: usize = i;
            proof {
                assert(rest[0] == v@[i as int]);
            }
            while i < n && !is_whitespace(v[i])
                invariant
                    n == v@.len(),
                    start <= i <= n,
                    rest == v@.skip(start as int),
                    word_len(rest) == (i - start) + word_len(v@.skip(i as int)),
                decreases n - i,
            {
                proof {
                    assert(v@.skip(i as int).drop_first() == v@.skip(i + 1));
                }
                i += 1;
            }
            let ghost before = r.deep_view();
            r.push(string_of(&v, start, i));
            proof {
                let k = (i - start) as int;
                assert(word_len(rest) == k);
                assert(rest.take(k) == v@.subrange(start as int, i as int));
                assert(rest.skip(k) == v@.skip(i as int));
                assert(trim_start_by(rest, white_space()) == rest);
                assert(words(rest) == seq![rest.take(k)] + words(rest.skip(k)));
                assert(r.deep_view() == before.push(rest.take(k)));
                assert(r.deep_view() + words(v@.skip(i as int)) == before + words(rest));
            }
        }
    }
    proof {
        assert(v@.skip(n as int).len() == 0);
        assert(words(v@.skip(n as int)) == Seq::<Seq<char>>::empty());
    }
    r
}

pub fn join(list: &Vec<String>, sep: &str) -> (r: String)
    ensures
        r@ == joined(list.deep_view(), sep@),
{
    let mut r = String::new();
    let mut i: usize = 0;
    while i < list.len()
        invariant
            i <= list@.len(),
            r@ == joined(list.deep_view().take(i as int), sep@),
        decreases list@.len() - i,
    {
        if i > 0 {
            r.append(sep);
        }
        r.append(list[i].as_str());
        proof {
            let l = list.deep_view();
            assert(l.take(i + 1).drop_last() == l.take(i as int));
            assert(l.take(i + 1).last() == list@[i as int]@);
        }
        i += 1;
    }
    proof {
        assert(list.deep_view().take(i as int) == list.deep_view());
    }
    r
}

// ── Prefixes, suffixes and occurrences ───────────────────────────────────────

/// `part` stands in `s` at position `i`.
pub open spec fn occurs_at(s: Seq<char>, part: Seq<char>, i: int) -> bool {
    0 <= i && i + part.len() <= s.len() && s.subrange(i, i + part.len()) == part
}

pub open spec fn occurs_in(s: Seq<char>, part: Seq<char>) -> bool {
    exists|i: int| occurs_at(s, part, i)
}

pub open spec fn has_prefix(s: Seq<char>, part: Seq<char>) -> bool {
    occurs_at(s, part, 0)
}

pub open spec fn has_suffix(s: Seq<char>, part: Seq<char>) -> bool {
    occurs_at(s, part, s.len() - part.len())
}

/// Whether `p` stands in `v` at position `i`.
fn stands_at(v: &Vec<char>, p: &Vec<char>, i: usize) -> (r: bool)
    requires
        i <= v@.len(),
    ensures
        r == occurs_at(v@, p@, i as int),
{
    let n: usize = v.len();
    if p.len() > n - i {
        return false;
    }
    let mut j: usize = 0;
    while j < p.len()
        invariant
            n == v@.len(),
            i + p@.len() <= n,
            j <= p@.len(),
            forall|k: int| 0 <= k < j ==> v@[i + k] == #[trigger] p@[k],
        decreases p@.len() - j,
    {
        if v[i + j] != p[j] {
            proof {
                assert(v@.subrange(i as int, i + p@.len())[j as int] == v@[i + j]);
            }
            return false;
        }
        j += 1;
    }
    assert(v@.subrange(i as int, i + p@.len()) == p@);
    true
}

pub fn starts_with(s: &str, part: &str) -> (r: bool)
    ensures
        r == has_prefix(s@, part@),
{
    stands_at(&chars_of(s), &chars_of(part), 0)
}

/// What follows the prefix `part`, where `s` starts with it.
pub fn strip_prefix(s: &str, part: &str) -> (r: Option<String>)
    ensures
        r.deep_view() == if has_prefix(s@, part@) {
            Some(s@.skip(part@.len() as int))
        } else {
            None
        },
{
    let v = chars_of(s);
    let p = chars_of(part);
    if stands_at(&v, &p, 0) {
        let r = string_of(&v, p.len(), v.len());
        assert(r@ == s@.skip(part@.len() as int));
        Some(r)
    } else {
        None
    }
}

/// `s` without the suffix `part`, where it ends with it; else `s`.
pub open spec fn without_suffix(s: Seq<char>, part: Seq<char>) -> Seq<char> {
    if has_suffix(s, part) {
        s.take(s.len() - part.len())
    } else {
        s
    }
}

pub fn drop_suffix(s: &str, part: &str) -> (r: String)
    ensures
        r@ == without_suffix(s@, part@),
{
    let v = chars_of(s);
    let p = chars_of(part);
    if p.len() <= v.len() && stands_at(&v, &p, v.len() - p.len()) {
        let r = string_of(&v, 0, v.len() - p.len());
        assert(r@ == s@.take(s@.len() - part@.len()));
        r
    } else {
        s.to_owned()
    }
}

pub fn contains(s: &str, part: &str) -> (r: bool)
    ensures
        r == occurs_in(s@, part@),
{
    let v = chars_of(s);
    let p = chars_of(part);
    let mut i: usize = 0;
    while i < v.len()
        invariant
            v@ == s@,
            p@ == part@,
            i <= v@.len(),
            forall|k: int| 0 <= k < i ==> !occurs_at(s@, part@, k),
        decreases v@.len() - i,
    {
        if stands_at(&v, &p, i) {
            return true;
        }
        i += 1;
    }
    stands_at(&v, &p, i)
}

// ── Replacing ────────────────────────────────────────────────────────────────

/// Every occurrence of `from` replaced by `to`, from the left and without
/// overlap, for a `from` that is not empty.
pub open spec fn replaced(s: Seq<char>, from: Seq<char>, to: Seq<char>) -> Seq<char>
    decreases s.len(),
{
    if s.len() == 0 || from.len() == 0 {
        s
    } else if has_prefix(s, from) {
        to + replaced(s.skip(from.len() as int), from, to)
    } else {
        seq![s[0]] + replaced(s.drop_first(), from, to)
    }
}

/// The first occurrence of `from` replaced by `to`.
pub open spec fn replaced_once(s: Seq<char>, from: Seq<char>, to: Seq<char>) -> Seq<char>
    decreases s.len(),
{
    if has_prefix(s, from) {
        to + s.skip(from.len() as int)
    } else if s.len() == 0 {
        s
    } else {
        seq![s[0]] + replaced_once(s.drop_first(), from, to)
    }
}

pub fn replace(s: &str, from: &str, to: &str) -> (r: String)
    requires
        from@.len() > 0,
    ensures
        r@ == replaced(s@, from@, to@),
{
    let v = chars_of(s);
    let p = chars_of(from);
    let mut r = String::new();
    let mut i: usize = 0;
    proof {
        assert(v@.skip(0) == s@);
        assert(r@ + replaced(v@.skip(0), from@, to@) == replaced(s@, from@, to@));
    }
    while i < v.len()
        invariant
            p@ == from@,
            from@.len() > 0,
            i <= v@.len(),
            r@ + replaced(v@.skip(i as int), from@, to@) == replaced(s@, from@, to@),
        decreases v@.len() - i,
    {
        let ghost rest = v@.skip(i as int);
        let ghost before = r@;
        proof {
            if i + p@.len() <= v@.len() {
                assert(rest.subrange(0, p@.len() as int) == v@.subrange(i as int, i + p@.len()));
            }
        }
        if stands_at(&v, &p, i) {
            r.append(to);
            proof {
                assert(rest.skip(p@.len() as int) == v@.skip(i + p@.len()));
                assert(before + (to@ + replaced(v@.skip(i + p@.len()), from@, to@)) == r@
                    + replaced(v@.skip(i + p@.len()), from@, to@));
            }
            i += p.len();
        } else {
            r.push(v[i]);
            proof {
                assert(rest.drop_first() == v@.skip(i + 1));
                assert(before + (seq![rest[0]] + replaced(v@.skip(i + 1), from@, to@)) == r@
                    + replaced(v@.skip(i + 1), from@, to@));
            }
            i += 1;
        }
    }
    proof {
        assert(v@.skip(i as int).len() == 0);
    }
    r
}

pub fn replace_once(s: &str, from: &str, to: &str) -> (r: String)
    ensures
        r@ == replaced_once(s@, from@, to@),
{
    let v = chars_of(s);
    let p = chars_of(from);
    let n: usize = v.len();
    let mut r = String::new();
    let mut i: usize = 0;
    proof {
        assert(v@.skip(0) == s@);
        assert(r@ + replaced_once(v@.skip(0), from@, to@) == replaced_once(s@, from@, to@));
    }
    while i < n
        invariant
            p@ == from@,
            n == v@.len(),
            i <= n,
            r@ + replaced_once(v@.skip(i as int), from@, to@) == replaced_once(s@, from@, to@),
        decreases n - i,
    {
        let ghost rest = v@.skip(i as int);
        let ghost before = r@;
        proof {
            if i + p@.len() <= v@.len() {
                assert(rest.subrange(0, p@.len() as int) == v@.subrange(i as int, i + p@.len()));
            }
        }
        if stands_at(&v, &p, i) {
            r.append(to);
            r.append(string_of(&v, i + p.len(), n).as_str());
            proof {
                assert(rest.skip(p@.len() as int) == v@.subrange(i + p@.len(), n as int));
                assert(before + (to@ + rest.skip(p@.len() as int)) == r@);
            }
            return r;
        }
        r.push(v[i]);
        proof {
            assert(rest.drop_first() == v@.skip(i + 1));
            assert(before + (seq![rest[0]] + replaced_once(v@.skip(i + 1), from@, to@)) == r@
                + replaced_once(v@.skip(i + 1), from@, to@));
        }
        i += 1;
    }
    proof {
        assert(v@.skip(i as int) == Seq::<char>::empty());
        assert(to@ + Seq::<char>::empty() == to@);
    }
    if p.len() == 0 {
        assert(v@.skip(i as int).subrange(0, 0) == p@);
        r.append(to);
    }
    r
}

/// The position of the first `c` in `s`, or the length of `s`.
pub open spec fn first_index(s: Seq<char>, c: char) -> nat
    decreases s.len(),
{
    if s.len() == 0 || s[0] == c {
        0
    } else {
        1 + first_index(s.drop_first(), c)
    }
}

/// The first `c` stands at its index, and none stands before it.
pub proof fn lemma_first_index(s: Seq<char>, c: char)
    ensures
        first_index(s, c) <= s.len(),
        first_index(s, c) < s.len() ==> s[first_index(s, c) as int] == c,
        forall|i: int| 0 <= i < first_index(s, c) ==> s[i] != c,
        s.contains(c) <==> first_index(s, c) < s.len(),
    decreases s.len(),
{
    if s.len() > 0 && s[0] != c {
        lemma_first_index(s.drop_first(), c);
        assert forall|i: int| 0 <= i < first_index(s, c) implies s[i] != c by {
            if i > 0 {
                assert(s[i] == s.drop_first()[i - 1]);
            }
        }
    }
}

pub fn index_of(v: &Vec<char>, c: char) -> (r: usize)
    ensures
        r == first_index(v@, c),
{
    let mut i: usize = 0;
    proof {
        assert(v@.skip(0) == v@);
    }
    while i < v.len() && v[i] != c
        invariant
            i <= v@.len(),
            first_index(v@, c) == i + first_index(v@.skip(i as int), c),
        decreases v@.len() - i,
    {
        proof {
            assert(v@.skip(i as int).drop_first() == v@.skip(i + 1));
        }
        i += 1;
    }
    i
}

/// What stands before the first `c`; all of `s` where there is none.
pub open spec fn before_first(s: Seq<char>, c: char) -> Seq<char> {
    s.take(first_index(s, c) as int)
}

pub fn before(s: &str, c: char) -> (r: String)
    ensures
        r@ == before_first(s@, c),
{
    let v = chars_of(s);
    let i: usize = index_of(&v, c);
    proof {
        lemma_first_index(s@, c);
    }
    string_of(&v, 0, i)
}

/// The pieces of `s` between the occurrences of `c`; never empty.
pub open spec fn split_at_char(s: Seq<char>, c: char) -> Seq<Seq<char>>
    decreases s.len(),
{
    let k = first_index(s, c) as int;
    if k >= s.len() {
        seq![s]
    } else {
        seq![s.take(k)] + split_at_char(s.skip(k + 1), c)
    }
}

pub fn split_char(s: &str, c: char) -> (r: Vec<String>)
    ensures
        r.deep_view() == split_at_char(s@, c),
{
    let v = chars_of(s);
    let n: usize = v.len();
    let mut r: Vec<String> = Vec::new();
    let mut start: usize = 0;
    let mut i: usize = 0;
    proof {
        assert(v@.skip(0) == s@);
        assert(r.deep_view() + split_at_char(s@, c) == split_at_char(s@, c));
    }
    while i < n
        invariant
            v@ == s@,
            n == v@.len(),
            start <= i <= n,
            r.deep_view() + split_at_char(v@.skip(start as int), c) == split_at_char(s@, c),
            first_index(v@.skip(start as int), c) == (i - start) + first_index(
                v@.skip(i as int),
                c,
            ),
        decreases n - i,
    {
        let ghost rest = v@.skip(start as int);
        proof {
            assert(v@.skip(i as int).drop_first() == v@.skip(i + 1));
            assert(v@.skip(i as int)[0] == v@[i as int]);
        }
        if v[i] == c {
            let ghost pieces = r.deep_view();
            r.push(string_of(&v, start, i));
            proof {
                let k = (i - start) as int;
                assert(first_index(rest, c) == k);
                assert(rest.take(k) == v@.subrange(start as int, i as int));
                assert(rest.skip(k + 1) == v@.skip(i + 1));
                assert(r.deep_view() == pieces.push(rest.take(k)));
                assert(r.deep_view() + split_at_char(v@.skip(i + 1), c) == pieces + split_at_char(
                    rest,
                    c,
                ));
            }
            start = i + 1;
        }
        i += 1;
    }
    let ghost pieces = r.deep_view();
    r.push(string_of(&v, start, n));
    proof {
        let rest = v@.skip(start as int);
        assert(v@.skip(n as int).len() == 0);
        assert(rest == v@.subrange(start as int, n as int));
        assert(split_at_char(rest, c) == seq![rest]);
        assert(r.deep_view() == pieces.push(rest));
        assert(r.deep_view() == pieces + split_at_char(rest, c));
    }
    r
}

/// `s` with every `from` turned into `to`.
pub open spec fn with_char(s: Seq<char>, from: char, to: char) -> Seq<char> {
    s.map_values(|c: char| if c == from { to } else { c })
}

pub fn replace_char(s: &str, from: char, to: char) -> (r: String)
    ensures
        r@ == with_char(s@, from, to),
{
    let v = chars_of(s);
    let mut r = String::new();
    let mut i: usize = 0;
    while i < v.len()
        invariant
            v@ == s@,
            i <= v@.len(),
            r@ == with_char(s@, from, to).take(i as int),
        decreases v@.len() - i,
    {
        r.push(if v[i] == from { to } else { v[i] });
        i += 1;
    }
    r
}

// ── Numbers ──────────────────────────────────────────────────────────────────

/// `n` in decimal digits.
pub open spec fn decimal(n: nat) -> Seq<char>
    decreases n,
{
    if n < 10 {
        seq![digit(n)]
    } else {
        decimal(n / 10).push(digit(n % 10))
    }
}

/// `n` in decimal digits, behind a minus sign where it is negative.
pub open spec fn signed_decimal(n: int) -> Seq<char> {
    if n < 0 {
        seq!['-'] + decimal((-n) as nat)
    } else {
        decimal(n as nat)
    }
}

pub fn u64_text(n: u64) -> (r: String)
    ensures
        r@ == decimal(n as nat),
    decreases n,
{
    let d: u8 = (n % 10) as u8;
    let c: char = (48 + d) as char;
    let mut r = if n < 10 {
        String::new()
    } else {
        u64_text(n / 10)
    };
    r.push(c);
    r
}

pub fn usize_text(n: usize) -> (r: String)
    ensures
        r@ == decimal(n as nat),
{
    u64_text(n as u64)
}

pub fn i64_text(n: i64) -> (r: String)
    ensures
        r@ == signed_decimal(n as int),
{
    if n < 0 {
        let m: u64 = (-(n as i128)) as u64;
        let mut r = String::new();
        r.push('-');
        r.append(u64_text(m).as_str());
        r
    } else {
        u64_text(n as u64)
    }
}

/// A run of decimal digits, at least one.
pub open spec fn is_number(s: Seq<char>) -> bool {
    s.len() > 0 && forall|i: int| 0 <= i < s.len() ==> is_digit(#[trigger] s[i])
}

/// The value of a run of decimal digits.
pub open spec fn number_value(s: Seq<char>) -> nat
    decreases s.len(),
{
    if s.len() == 0 {
        0
    } else {
        10 * number_value(s.drop_last()) + (s.last() as u32 - 48) as nat
    }
}

/// The number that `s` writes: digits behind at most one sign, a minus only
/// where `signed`.
pub open spec fn written_number(s: Seq<char>, signed: bool) -> Option<int> {
    if s.len() > 0 && s[0] == '-' {
        if signed && is_number(s.drop_first()) {
            Some(-(number_value(s.drop_first()) as int))
        } else {
            None
        }
    } else if s.len() > 0 && s[0] == '+' {
        if is_number(s.drop_first()) {
            Some(number_value(s.drop_first()) as int)
        } else {
            None
        }
    } else if is_number(s) {
        Some(number_value(s) as int)
    } else {
        None
    }
}

/// The `i64` that `s` writes in decimal, if it is one.
pub open spec fn parsed_i64(s: Seq<char>) -> Option<i64> {
    match written_number(s, true) {
        Some(n) => if i64::MIN <= n <= i64::MAX {
            Some(n as i64)
        } else {
            None
        },
        None => None,
    }
}

/// The `u8` that `s` writes in decimal, if it is one.
pub open spec fn parsed_u8(s: Seq<char>) -> Option<u8> {
    match written_number(s, false) {
        Some(n) => if n <= u8::MAX {
            Some(n as u8)
        } else {
            None
        },
        None => None,
    }
}

proof fn lemma_number_value_grows(s: Seq<char>, i: int)
    requires
        0 <= i <= s.len(),
        forall|j: int| 0 <= j < s.len() ==> is_digit(#[trigger] s[j]),
    ensures
        number_value(s) >= number_value(s.take(i)),
    decreases s.len(),
{
    if i == s.len() {
        assert(s.take(i) == s);
    } else {
        assert(s.drop_last().take(i) == s.take(i));
        lemma_number_value_grows(s.drop_last(), i);
    }
}

/// The value of the digits of `v` from `from` on, if they are digits and the
/// value is at most `limit`.
fn parse_digits(v: &Vec<char>, from: usize, limit: u64) -> (r: Option<u64>)
    requires
        from <= v@.len(),
        limit <= 0x8000_0000_0000_0000,
    ensures
        r == if is_number(v@.skip(from as int)) && number_value(v@.skip(from as int)) <= limit {
            Some(number_value(v@.skip(from as int)) as u64)
        } else {
            None
        },
{
    let ghost s = v@.skip(from as int);
    let n: usize = v.len();
    if from == n {
        return None;
    }
    let mut acc: u128 = 0;
    let mut i: usize = from;
    while i < n
        invariant
            n == v@.len(),
            from <= i <= n,
            s == v@.skip(from as int),
            forall|j: int| 0 <= j < i - from ==> is_digit(#[trigger] s[j]),
            acc == number_value(s.take(i - from)),
            acc <= limit,
            limit <= 0x8000_0000_0000_0000,
        decreases n - i,
    {
        let c: char = v[i];
        assert(s[i - from] == c);
        if !('0' <= c && c <= '9') {
            return None;
        }
        let d: u32 = c as u32 - 48;
        acc = acc * 10 + d as u128;
        i += 1;
        proof {
            let t = s.take(i - from);
            assert(t.drop_last() == s.take(i - from - 1));
            assert(t.last() == c);
            if acc > limit && is_number(s) {
                lemma_number_value_grows(s, i - from);
            }
        }
        if acc > limit as u128 {
            return None;
        }
    }
    assert(s.take(i - from) == s);
    Some(acc as u64)
}

pub fn parse_i64(s: &str) -> (r: Option<i64>)
    ensures
        r == parsed_i64(s@),
{
    let v = chars_of(s);
    if v.len() > 0 && v[0] == '-' {
        assert(v@.skip(1) == s@.drop_first());
        match parse_digits(&v, 1, 0x8000_0000_0000_0000) {
            Some(m) => Some((-(m as i128)) as i64),
            None => None,
        }
    } else {
        let from: usize = if v.len() > 0 && v[0] == '+' {
            1
        } else {
            0
        };
        assert(v@.skip(1) == s@.drop_first() || v@.len() == 0);
        assert(v@.skip(0) == s@);
        match parse_digits(&v, from, 0x7fff_ffff_ffff_ffff) {
            Some(m) => Some(m as i64),
            None => None,
        }
    }
}

pub fn parse_u8(s: &str) -> (r: Option<u8>)
    ensures
        r == parsed_u8(s@),
{
    let v = chars_of(s);
    if v.len() > 0 && v[0] == '-' {
        return None;
    }
    let from: usize = if v.len() > 0 && v[0] == '+' {
        1
    } else {
        0
    };
    assert(v@.skip(1) == s@.drop_first() || v@.len() == 0);
    assert(v@.skip(0) == s@);
    match parse_digits(&v, from, 255) {
        Some(m) => Some(m as u8),
        None => None,
    }
}

pub proof fn lemma_decimal_digits(n: nat)
    ensures
        is_number(decimal(n)),
        number_value(decimal(n)) == n,
    decreases n,
{
    if n < 10 {
        assert(decimal(n).drop_last() == Seq::<char>::empty());
        assert(decimal(n).last() == digit(n));
        assert(number_value(Seq::<char>::empty()) == 0);
        assert(digit(n) as u32 == 48 + n);
    } else {
        lemma_decimal_digits(n / 10);
        let s = decimal(n);
        assert(s.drop_last() == decimal(n / 10));
        assert(s.last() == digit(n % 10));
        assert(digit(n % 10) as u32 == 48 + n % 10);
        assert forall|i: int| 0 <= i < s.len() implies is_digit(#[trigger] s[i]) by {
            if i < s.len() - 1 {
                assert(s[i] == decimal(n / 10)[i]);
            }
        }
    }
}

/// A number that is written in decimal reads back as itself.
pub proof fn written_i64_reads_back(n: i64)
    ensures
        parsed_i64(signed_decimal(n as int)) == Some(n),
{
    if n < 0 {
        lemma_decimal_digits((-(n as int)) as nat);
        assert(signed_decimal(n as int).drop_first() == decimal((-(n as int)) as nat));
    } else {
        lemma_decimal_digits(n as nat);
        assert(is_digit(decimal(n as nat)[0]));
    }
}

// ── Shortening and encoding ──────────────────────────────────────────────────

/// `s` itself where it has at most `max` characters; else its first `max - 1`
/// and an ellipsis.
pub open spec fn shortened(s: Seq<char>, max: nat) -> Seq<char> {
    if s.len() > max {
        s.take(max - 1).push('…')
    } else {
        s
    }
}

pub fn shorten(s: &str, max: usize) -> (r: String)
    requires
        max > 0,
    ensures
        r@ == shortened(s@, max as nat),
{
    let v = chars_of(s);
    if v.len() > max {
        let mut r = string_of(&v, 0, max - 1);
        r.push('…');
        r
    } else {
        s.to_owned()
    }
}

/// A byte that stands for itself in a percent-encoded text.
pub open spec fn is_unreserved(b: u8) -> bool {
    ||| 65 <= b <= 90
    ||| 97 <= b <= 122
    ||| 48 <= b <= 57
    ||| b == 45
    ||| b == 95
    ||| b == 46
    ||| b == 126
}

/// The upper-case hexadecimal digit of value `d`, for `d < 16`.
pub open spec fn hex_digit(d: nat) -> char {
    if d < 10 {
        digit(d)
    } else {
        (55 + d) as char
    }
}

pub open spec fn percent_encoded(bytes: Seq<u8>) -> Seq<char>
    decreases bytes.len(),
{
    if bytes.len() == 0 {
        Seq::empty()
    } else {
        let b = bytes.last();
        percent_encoded(bytes.drop_last()) + if is_unreserved(b) {
            seq![b as char]
        } else {
            seq!['%', hex_digit((b / 16) as nat), hex_digit((b % 16) as nat)]
        }
    }
}

fn hex(d: u8) -> (r: char)
    requires
        d < 16,
    ensures
        r == hex_digit(d as nat),
{
    if d < 10 {
        (48 + d) as char
    } else {
        (55 + d) as char
    }
}

pub fn percent_encode(s: &str) -> (r: String)
    ensures
        r@ == percent_encoded(vstd::utf8::encode_utf8(s@)),
{
    let bytes = s.as_bytes();
    let mut r = String::new();
    let mut i: usize = 0;
    while i < bytes.len()
        invariant
            bytes@ == vstd::utf8::encode_utf8(s@),
            i <= bytes@.len(),
            r@ == percent_encoded(bytes@.take(i as int)),
        decreases bytes@.len() - i,
    {
        let b: u8 = bytes[i];
        proof {
            assert(bytes@.take(i + 1).drop_last() == bytes@.take(i as int));
            assert(bytes@.take(i + 1).last() == b);
        }
        if (65 <= b && b <= 90) || (97 <= b && b <= 122) || (48 <= b && b <= 57) || b == 45 || b
            == 95 || b == 46 || b == 126 {
            r.push(b as char);
        } else {
            r.push('%');
            r.push(hex(b / 16));
            r.push(hex(b % 16));
        }
        i += 1;
    }
    assert(bytes@.take(i as int) == bytes@);
    r
}

/// A percent-encoded text is made of letters, digits, `-`, `_`, `.`, `~` and
/// percent signs, so it can stand in a path.
pub proof fn percent_encoding_is_plain(bytes: Seq<u8>, i: int)
    requires
        0 <= i < percent_encoded(bytes).len(),
    ensures
        percent_encoded(bytes)[i] == '%' || (percent_encoded(bytes)[i] as u32 <= 127
            && is_unreserved(percent_encoded(bytes)[i] as u8)),
    decreases bytes.len(),
{
    if bytes.len() > 0 {
        let b = bytes.last();
        let front = percent_encoded(bytes.drop_last());
        if i < front.len() {
            percent_encoding_is_plain(bytes.drop_last(), i);
        } else {
            let high = hex_digit((b / 16) as nat);
            let low = hex_digit((b % 16) as nat);
            assert(48 <= high as u32 <= 57 || 65 <= high as u32 <= 70);
            assert(48 <= low as u32 <= 57 || 65 <= low as u32 <= 70);
        }
    }
}

// ── What holds of trimming and words ─────────────────────────────────────────

/// Every character of `s` is white space.
pub open spec fn is_all_white(s: Seq<char>) -> bool {
    forall|i: int| 0 <= i < s.len() ==> is_white_space(#[trigger] s[i])
}

/// `s` has no white space at either end.
pub open spec fn has_no_outer_space(s: Seq<char>) -> bool {
    s.len() > 0 ==> !is_white_space(s[0]) && !is_white_space(s.last())
}

/// A text without what `p` says of its first characters.
pub proof fn lemma_trim_start_of(a: Seq<char>, s: Seq<char>, p: spec_fn(char) -> bool)
    requires
        forall|i: int| 0 <= i < a.len() ==> p(#[trigger] a[i]),
        s.len() > 0 ==> !p(s[0]),
    ensures
        trim_start_by(a + s, p) == s,
    decreases a.len(),
{
    if a.len() == 0 {
        assert(a + s =~= s);
    } else {
        assert(p(a[0]));
        let rest = a.drop_first();
        assert forall|i: int| 0 <= i < rest.len() implies p(#[trigger] rest[i]) by {
            assert(rest[i] == a[i + 1]);
        }
        assert((a + s).drop_first() =~= rest + s);
        lemma_trim_start_of(rest, s, p);
    }
}

/// A text without what `p` says of its last characters.
pub proof fn lemma_trim_end_of(s: Seq<char>, b: Seq<char>, p: spec_fn(char) -> bool)
    requires
        forall|i: int| 0 <= i < b.len() ==> p(#[trigger] b[i]),
        s.len() > 0 ==> !p(s.last()),
    ensures
        trim_end_by(s + b, p) == s,
    decreases b.len(),
{
    if b.len() == 0 {
        assert(s + b =~= s);
    } else {
        assert(p(b[b.len() - 1]));
        let rest = b.drop_last();
        assert forall|i: int| 0 <= i < rest.len() implies p(#[trigger] rest[i]) by {
            assert(rest[i] == b[i]);
        }
        assert((s + b).drop_last() =~= s + rest);
        assert((s + b).last() == b.last());
        lemma_trim_end_of(s, rest, p);
    }
}

/// Trimming takes away the white space around a text, all of it, and nothing
/// else: what stands within stays, white space and all.
pub proof fn trimming_takes_the_outer_space(a: Seq<char>, s: Seq<char>, b: Seq<char>)
    requires
        is_all_white(a),
        has_no_outer_space(s),
        is_all_white(b),
    ensures
        trimmed(a + s + b) == s,
        trimmed(s) == s,
{
    let p = white_space();
    assert(forall|i: int| 0 <= i < a.len() ==> p(#[trigger] a[i]));
    assert(forall|i: int| 0 <= i < b.len() ==> p(#[trigger] b[i]));
    if s.len() > 0 {
        assert(a + s + b =~= a + (s + b));
        lemma_trim_start_of(a, s + b, p);
        lemma_trim_end_of(s, b, p);
        assert(trim_start_by(s, p) == s);
        assert(trim_end_by(s, p) == s);
    } else {
        let all = a + b;
        assert(a + s + b =~= all);
        assert(forall|i: int| 0 <= i < all.len() ==> p(#[trigger] all[i]));
        assert(all + s =~= all);
        lemma_trim_start_of(all, s, p);
    }
}

/// A text is its trimmed form with white space around it.
pub proof fn trimming_keeps_the_rest(s: Seq<char>)
    ensures
        has_no_outer_space(trimmed(s)),
        exists|i: int, j: int|
            0 <= i <= j <= s.len() && trimmed(s) == #[trigger] s.subrange(i, j) && is_all_white(
                s.take(i),
            ) && is_all_white(s.skip(j)),
{
    let p = white_space();
    let t = trim_start_by(s, p);
    lemma_trim_start_splits(s, p);
    lemma_trim_end_splits(t, p);
    let i = s.len() - t.len();
    let j = i + trimmed(s).len();
    assert(trimmed(s) =~= s.subrange(i, j));
    assert forall|k: int| 0 <= k < s.take(i).len() implies is_white_space(
        #[trigger] s.take(i)[k],
    ) by {
        assert(p(s[k]));
    }
    assert forall|k: int| 0 <= k < s.skip(j).len() implies is_white_space(
        #[trigger] s.skip(j)[k],
    ) by {
        assert(p(t[trimmed(s).len() + k]));
    }
    assert(is_all_white(s.take(i)) && is_all_white(s.skip(j)));
    if trimmed(s).len() > 0 {
        assert(trimmed(s)[0] == t[0]);
    }
}

proof fn lemma_trim_start_splits(s: Seq<char>, p: spec_fn(char) -> bool)
    ensures
        ({
            let t = trim_start_by(s, p);
            &&& t.len() <= s.len()
            &&& t == s.skip(s.len() - t.len())
            &&& t.len() > 0 ==> !p(t[0])
            &&& forall|i: int| 0 <= i < s.len() - t.len() ==> p(#[trigger] s[i])
        }),
    decreases s.len(),
{
    let t = trim_start_by(s, p);
    if s.len() > 0 && p(s[0]) {
        lemma_trim_start_splits(s.drop_first(), p);
        assert forall|i: int| 0 <= i < s.len() - t.len() implies p(#[trigger] s[i]) by {
            if i > 0 {
                assert(s[i] == s.drop_first()[i - 1]);
            }
        }
        assert(t =~= s.skip(s.len() - t.len()));
    } else {
        assert(s.skip(0) =~= s);
    }
}

/// What trimming by `p` leaves of the end of a text, and what it takes away.
pub proof fn lemma_trim_end_splits(s: Seq<char>, p: spec_fn(char) -> bool)
    ensures
        ({
            let t = trim_end_by(s, p);
            &&& t.len() <= s.len()
            &&& t == s.take(t.len() as int)
            &&& t.len() > 0 ==> !p(t.last())
            &&& forall|i: int| t.len() <= i < s.len() ==> p(#[trigger] s[i])
        }),
    decreases s.len(),
{
    let t = trim_end_by(s, p);
    if s.len() > 0 && p(s.last()) {
        lemma_trim_end_splits(s.drop_last(), p);
        assert forall|i: int| t.len() <= i < s.len() implies p(#[trigger] s[i]) by {
            if i < s.len() - 1 {
                assert(s[i] == s.drop_last()[i]);
            }
        }
        assert(t =~= s.take(t.len() as int));
    } else {
        assert(s.take(s.len() as int) =~= s);
    }
}

/// White space parts words, and nothing else does: the words before it and those
/// behind it are the words of the whole.
pub proof fn white_space_parts_words(a: Seq<char>, c: char, b: Seq<char>)
    requires
        is_white_space(c),
    ensures
        words(a + seq![c] + b) == words(a) + words(b),
    decreases a.len(),
{
    let p = white_space();
    let s = a + seq![c] + b;
    if a.len() == 0 {
        assert(s.drop_first() =~= b);
        assert(p(s[0]));
        assert(trim_start_by(s, p) == trim_start_by(b, p));
        assert(words(a) =~= Seq::<Seq<char>>::empty());
        assert(words(s) == words(b));
        assert(words(a) + words(b) =~= words(b));
    } else if is_white_space(a[0]) {
        let rest = a.drop_first();
        assert(s.drop_first() =~= rest + seq![c] + b);
        assert(p(s[0]) && p(a[0]));
        assert(trim_start_by(s, p) == trim_start_by(s.drop_first(), p));
        assert(trim_start_by(a, p) == trim_start_by(rest, p));
        white_space_parts_words(rest, c, b);
        assert(words(s) == words(s.drop_first()));
        assert(words(a) == words(rest));
    } else {
        assert(!p(s[0]) && !p(a[0]));
        assert(trim_start_by(s, p) == s);
        assert(trim_start_by(a, p) == a);
        lemma_word_len(a);
        let k = word_len(a) as int;
        assert forall|i: int| 0 <= i < k implies !is_white_space(#[trigger] s[i]) by {
            assert(s[i] == a[i]);
        }
        assert(is_white_space(s[k]));
        lemma_word_len(s);
        let n = word_len(s) as int;
        if n < k {
            assert(!is_white_space(s[n]));
        } else if k < n {
            assert(!is_white_space(s[k]));
        }
        let rest = a.skip(k);
        assert(s.skip(k) =~= rest + seq![c] + b);
        assert(s.take(k) =~= a.take(k));
        white_space_parts_words(rest, c, b);
        assert(words(s) =~= seq![a.take(k)] + (words(rest) + words(b)));
        assert(words(s) =~= words(a) + words(b));
    }
}

/// A text without white space is one word, unless it is empty.
pub proof fn a_word_is_one_word(s: Seq<char>)
    requires
        forall|i: int| 0 <= i < s.len() ==> !is_white_space(#[trigger] s[i]),
    ensures
        s.len() > 0 ==> words(s) == seq![s],
        s.len() == 0 ==> words(s).len() == 0,
{
    let p = white_space();
    if s.len() > 0 {
        assert(!p(s[0]));
        assert(trim_start_by(s, p) == s);
        lemma_word_len(s);
        let n = word_len(s) as int;
        if n < s.len() {
            assert(!is_white_space(s[n]));
        }
        assert(s.take(n) =~= s);
        assert(s.skip(n) =~= Seq::<char>::empty());
        assert(words(s.skip(n)) =~= Seq::<Seq<char>>::empty());
        assert(words(s) =~= seq![s]);
    }
}

/// Joined lists are joined by one separator, and nothing is put before the first
/// part or behind the last.
pub proof fn parts_are_joined_in_order(
    a: Seq<Seq<char>>,
    b: Seq<Seq<char>>,
    part: Seq<char>,
    sep: Seq<char>,
)
    ensures
        a.len() > 0 && b.len() > 0 ==> joined(a + b, sep) == joined(a, sep) + sep + joined(b, sep),
        joined(seq![part], sep) == part,
        joined(Seq::empty(), sep).len() == 0,
    decreases b.len(),
{
    if a.len() > 0 && b.len() > 0 {
        let rest = b.drop_last();
        assert((a + b).drop_last() =~= a + rest);
        assert((a + b).last() == b.last());
        if rest.len() == 0 {
            assert(a + rest =~= a);
            assert(b.last() == b[0]);
        } else {
            parts_are_joined_in_order(a, rest, part, sep);
            assert(joined(a + b, sep) =~= joined(a, sep) + sep + joined(b, sep));
        }
    }
}

// ── What holds of searching and replacing ────────────────────────────────────

/// A text starts and ends with what it was put together from, and what it starts
/// or ends with can be taken off.
pub proof fn ends_are_found(s: Seq<char>, part: Seq<char>)
    ensures
        has_prefix(part + s, part),
        has_suffix(s + part, part),
        without_suffix(s + part, part) == s,
        has_prefix(s, part) ==> s == part + s.skip(part.len() as int),
        has_suffix(s, part) ==> s == without_suffix(s, part) + part,
        !has_suffix(s, part) ==> without_suffix(s, part) == s,
{
    assert((part + s).subrange(0, part.len() as int) =~= part);
    let all = s + part;
    assert(all.subrange(all.len() - part.len(), all.len() as int) =~= part);
    assert(all.take(s.len() as int) =~= s);
    if has_prefix(s, part) {
        assert(s.subrange(0, part.len() as int) == part);
        assert(s =~= s.subrange(0, part.len() as int) + s.skip(part.len() as int));
    }
    if has_suffix(s, part) {
        let k = s.len() - part.len();
        assert(s.subrange(k, s.len() as int) == part);
        assert(s =~= s.take(k) + s.subrange(k, s.len() as int));
    }
}

/// A part occurs in a text exactly where the text can be taken apart around it.
pub proof fn parts_are_found_anywhere(a: Seq<char>, part: Seq<char>, b: Seq<char>, s: Seq<char>)
    ensures
        occurs_in(a + part + b, part),
        occurs_in(s, part) ==> exists|i: int|
            0 <= i <= s.len() - part.len() && s == #[trigger] s.take(i) + part + s.skip(
                i + part.len(),
            ),
{
    let all = a + part + b;
    assert(all.subrange(a.len() as int, a.len() as int + part.len()) =~= part);
    assert(occurs_at(all, part, a.len() as int));
    if occurs_in(s, part) {
        let i = choose|i: int| occurs_at(s, part, i);
        assert(s.subrange(i, i + part.len()) == part);
        assert(s =~= s.take(i) + s.subrange(i, i + part.len()) + s.skip(i + part.len()));
    }
}

/// Only the first occurrence is replaced by `replaced_once`, and all that
/// surrounds it stays; `replaced` goes on behind it.
pub proof fn the_first_occurrence_is_replaced(
    a: Seq<char>,
    from: Seq<char>,
    b: Seq<char>,
    to: Seq<char>,
)
    requires
        from.len() > 0,
        forall|i: int| 0 <= i < a.len() ==> !#[trigger] occurs_at(a + from + b, from, i),
    ensures
        replaced_once(a + from + b, from, to) == a + to + b,
        replaced(a + from + b, from, to) == a + to + replaced(b, from, to),
    decreases a.len(),
{
    let s = a + from + b;
    if a.len() == 0 {
        assert(s.subrange(0, from.len() as int) =~= from);
        assert(s.skip(from.len() as int) =~= b);
        assert(replaced_once(s, from, to) =~= a + to + b);
        assert(replaced(s, from, to) =~= a + to + replaced(b, from, to));
    } else {
        assert(!occurs_at(s, from, 0));
        let rest = a.drop_first();
        let tail = rest + from + b;
        assert(s.drop_first() =~= tail);
        assert forall|i: int| 0 <= i < rest.len() implies !#[trigger] occurs_at(
            tail,
            from,
            i,
        ) by {
            assert(!occurs_at(s, from, i + 1));
            if i + from.len() <= tail.len() {
                assert(tail.subrange(i, i + from.len()) =~= s.subrange(
                    i + 1,
                    i + 1 + from.len(),
                ));
            }
        }
        the_first_occurrence_is_replaced(rest, from, b, to);
        assert(replaced_once(s, from, to) =~= a + to + b);
        assert(replaced(s, from, to) =~= a + to + replaced(b, from, to));
    }
}

/// A text without an occurrence stays as it is.
pub proof fn other_texts_are_not_replaced(s: Seq<char>, from: Seq<char>, to: Seq<char>)
    requires
        !occurs_in(s, from),
    ensures
        replaced_once(s, from, to) == s,
        replaced(s, from, to) == s,
    decreases s.len(),
{
    assert(!occurs_at(s, from, 0));
    if s.len() > 0 {
        let rest = s.drop_first();
        if occurs_in(rest, from) {
            let i = choose|i: int| occurs_at(rest, from, i);
            assert(s.subrange(i + 1, i + 1 + from.len()) =~= rest.subrange(i, i + from.len()));
            assert(occurs_at(s, from, i + 1));
        }
        other_texts_are_not_replaced(rest, from, to);
        assert(replaced_once(s, from, to) =~= s);
        assert(replaced(s, from, to) =~= s);
    }
}

/// What stands before a character ends where the character first occurs, and is
/// the whole text where it does not.
pub proof fn a_character_ends_what_is_before_it(a: Seq<char>, c: char, b: Seq<char>)
    requires
        !a.contains(c),
    ensures
        before_first(a + seq![c] + b, c) == a,
        before_first(a, c) == a,
{
    let s = a + seq![c] + b;
    lemma_first_index(s, c);
    lemma_first_index(a, c);
    let k = first_index(s, c) as int;
    assert(s[a.len() as int] == c);
    if k < a.len() {
        assert(a[k] == c);
    } else if k > a.len() {
        assert(s[a.len() as int] != c);
    }
    assert(s.take(k) =~= a);
    assert(a.take(first_index(a, c) as int) =~= a);
}

/// The pieces of a text make it up again with the character between them, and
/// none of them holds it.
pub proof fn pieces_make_up_the_whole(s: Seq<char>, c: char)
    ensures
        split_at_char(s, c).len() > 0,
        joined(split_at_char(s, c), seq![c]) == s,
        forall|i: int|
            0 <= i < split_at_char(s, c).len() ==> !(#[trigger] split_at_char(s, c)[i]).contains(c),
    decreases s.len(),
{
    lemma_first_index(s, c);
    let k = first_index(s, c) as int;
    let list = split_at_char(s, c);
    if k < s.len() {
        let head = s.take(k);
        let rest = split_at_char(s.skip(k + 1), c);
        pieces_make_up_the_whole(s.skip(k + 1), c);
        parts_are_joined_in_order(seq![head], rest, head, seq![c]);
        assert(list == seq![head] + rest);
        assert(s =~= head + seq![c] + s.skip(k + 1));
        assert forall|i: int| 0 <= i < list.len() implies !(#[trigger] list[i]).contains(c) by {
            if i == 0 {
                if head.contains(c) {
                    let x = choose|x: int| 0 <= x < head.len() && head[x] == c;
                    assert(s[x] == c);
                }
            } else {
                assert(list[i] == rest[i - 1]);
            }
        }
    }
}

/// Replacing a character changes its occurrences and no other character.
pub proof fn only_the_character_is_replaced(s: Seq<char>, from: char, to: char, i: int)
    requires
        0 <= i < s.len(),
    ensures
        with_char(s, from, to).len() == s.len(),
        s[i] == from ==> with_char(s, from, to)[i] == to,
        s[i] != from ==> with_char(s, from, to)[i] == s[i],
{
}

// ── What holds of numbers, labels and letters ────────────────────────────────

/// A number is written without leading zeros, so no two are written alike, and
/// reads back as itself where it fits.
pub proof fn numbers_read_back(n: nat)
    ensures
        n > 0 ==> decimal(n)[0] != '0',
        n == 0 ==> decimal(n) == seq!['0'],
        parsed_u8(decimal(n)) == (if n <= 255 {
            Some(n as u8)
        } else {
            None::<u8>
        }),
    decreases n,
{
    lemma_decimal_digits(n);
    assert(is_digit(decimal(n)[0]));
    if n >= 10 {
        numbers_read_back(n / 10);
        lemma_decimal_digits(n / 10);
        assert(decimal(n)[0] == decimal(n / 10)[0]);
    }
}

/// Only digits with at most one sign before them read as a number.
pub proof fn nothing_else_reads_as_a_number(s: Seq<char>, i: int)
    requires
        0 <= i < s.len(),
        !is_digit(s[i]),
        i > 0 || (s[i] != '-' && s[i] != '+') || s.len() == 1,
    ensures
        parsed_i64(s) is None,
        parsed_u8(s) is None,
{
    if i > 0 {
        assert(s.drop_first()[i - 1] == s[i]);
    }
}

/// A text that is short enough stays whole; a longer one keeps its beginning and
/// ends in an ellipsis.
pub proof fn shortening_keeps_the_beginning(s: Seq<char>, max: nat)
    requires
        max > 0,
    ensures
        s.len() <= max ==> shortened(s, max) == s,
        s.len() > max ==> shortened(s, max).len() == max && shortened(s, max).last() == '…'
            && shortened(s, max).drop_last() == s.take(max - 1),
{
    if s.len() > max {
        assert(shortened(s, max).drop_last() =~= s.take(max - 1));
    }
}

/// A lower-case ASCII letter has a capital, which has that letter as its
/// lower-case form; any other character has none.
pub proof fn letters_have_one_other_case(c: char)
    ensures
        'a' <= c <= 'z' ==> 'A' <= ascii_upper(c) <= 'Z' && ascii_lower(ascii_upper(c)) == c,
        'A' <= c <= 'Z' ==> 'a' <= ascii_lower(c) <= 'z' && ascii_upper(ascii_lower(c)) == c,
        !('a' <= c <= 'z') ==> ascii_upper(c) == c,
        !('A' <= c <= 'Z') ==> ascii_lower(c) == c,
{
}

/// The bytes of a percent-encoded text are encoded one after another.
pub proof fn bytes_are_encoded_in_order(a: Seq<u8>, b: Seq<u8>)
    ensures
        percent_encoded(a + b) == percent_encoded(a) + percent_encoded(b),
    decreases b.len(),
{
    if b.len() == 0 {
        assert(a + b =~= a);
        assert(percent_encoded(a) + percent_encoded(b) =~= percent_encoded(a));
    } else {
        bytes_are_encoded_in_order(a, b.drop_last());
        assert((a + b).drop_last() =~= a + b.drop_last());
        assert((a + b).last() == b.last());
        assert(percent_encoded(a + b) =~= percent_encoded(a) + percent_encoded(b));
    }
}

/// The value of a hexadecimal digit.
pub open spec fn hex_value(c: char) -> int {
    if '0' <= c <= '9' {
        c as u32 - 48
    } else {
        c as u32 - 55
    }
}

/// The bytes that a percent-encoded text stands for.
pub open spec fn percent_decoded(s: Seq<char>) -> Seq<int>
    decreases s.len(),
{
    if s.len() == 0 {
        Seq::empty()
    } else if s[0] == '%' && s.len() >= 3 {
        seq![16 * hex_value(s[1]) + hex_value(s[2])] + percent_decoded(s.skip(3))
    } else {
        seq![s[0] as u32 as int] + percent_decoded(s.drop_first())
    }
}

/// A percent-encoded text can be decoded: it stands for the bytes that it was
/// made from.
pub proof fn percent_encoding_can_be_undone(bytes: Seq<u8>)
    ensures
        percent_decoded(percent_encoded(bytes)) == bytes.map_values(|b: u8| b as int),
    decreases bytes.len(),
{
    let s = percent_encoded(bytes);
    let values = bytes.map_values(|b: u8| b as int);
    if bytes.len() > 0 {
        let b = bytes[0];
        let one = seq![b];
        let rest = bytes.drop_first();
        assert(bytes =~= one + rest);
        bytes_are_encoded_in_order(one, rest);
        percent_encoding_can_be_undone(rest);
        assert(one.drop_last() =~= Seq::<u8>::empty());
        assert(one.last() == b);
        assert(percent_encoded(one.drop_last()) =~= Seq::<char>::empty());
        let tail = percent_encoded(rest);
        assert(values =~= seq![b as int] + rest.map_values(|b: u8| b as int));
        if is_unreserved(b) {
            assert(percent_encoded(one) =~= seq![b as char]);
            assert(s =~= seq![b as char] + tail);
            assert(s[0] == b as char);
            assert(s[0] != '%');
            assert(s.drop_first() =~= tail);
            assert((b as char) as u32 == b);
        } else {
            let x = hex_digit((b / 16) as nat);
            let y = hex_digit((b % 16) as nat);
            assert(percent_encoded(one) =~= seq!['%', x, y]);
            assert(s =~= seq!['%', x, y] + tail);
            assert(s.skip(3) =~= tail);
            assert(hex_value(x) == b / 16);
            assert(hex_value(y) == b % 16);
            assert(16 * (b / 16) + b % 16 == b);
        }
    } else {
        assert(values =~= Seq::<int>::empty());
    }
}

/// These are the characters of white space, and no others.
pub proof fn white_space_is_these_characters(c: char)
    ensures
        is_white_space(c) <==> c == '\t' || c == '\n' || c == '\u{b}' || c == '\u{c}' || c == '\r' || c == ' ' || c == '\u{85}' || c == '\u{a0}' || c == '\u{1680}' || c == '\u{2000}' || c == '\u{2001}' || c == '\u{2002}' || c == '\u{2003}' || c == '\u{2004}' || c == '\u{2005}' || c == '\u{2006}' || c == '\u{2007}' || c == '\u{2008}' || c == '\u{2009}' || c == '\u{200a}' || c == '\u{2028}' || c == '\u{2029}' || c == '\u{202f}' || c == '\u{205f}' || c == '\u{3000}',
{
}

/// Two texts are the same but for the case of ASCII letters exactly where their
/// lower-case forms are the same.
pub proof fn case_is_the_only_difference(a: Seq<char>, b: Seq<char>)
    ensures
        same_but_ascii_case(a, b) <==> ascii_lowered(a) == ascii_lowered(b),
{
    if same_but_ascii_case(a, b) {
        assert(ascii_lowered(a) =~= ascii_lowered(b));
    }
    if ascii_lowered(a) == ascii_lowered(b) {
        assert(ascii_lowered(a).len() == a.len() && ascii_lowered(b).len() == b.len());
        assert forall|i: int| 0 <= i < a.len() implies ascii_lower(#[trigger] a[i]) == ascii_lower(
            b[i],
        ) by {
            assert(ascii_lowered(a)[i] == ascii_lowered(b)[i]);
        }
    }
}

/// Capitalizing a text leaves all but its first character as it is.
pub proof fn only_the_first_character_is_raised(s: Seq<char>, rest: Seq<char>)
    requires
        s.len() > 0,
    ensures
        capitalized(s + rest) == capitalized(s) + rest,
        ascii_capitalized(s + rest) == ascii_capitalized(s) + rest,
        ascii_capitalized(s).len() == s.len(),
        ascii_lowered(ascii_capitalized(s)) == ascii_lowered(s),
        !('a' <= s[0] <= 'z') ==> ascii_capitalized(s) == s,
{
    let all = s + rest;
    assert(all.drop_first() =~= s.drop_first() + rest);
    assert(all[0] == s[0]);
    assert(capitalized(all) =~= capitalized(s) + rest);
    assert(ascii_capitalized(all) =~= ascii_capitalized(s) + rest);
    letters_have_one_other_case(s[0]);
    assert(ascii_lowered(ascii_capitalized(s)) =~= ascii_lowered(s));
    if !('a' <= s[0] <= 'z') {
        assert(ascii_capitalized(s) =~= s);
    }
}

} // verus!
