//! JSON values as the bot reads them: a missing field, an index out of range
//! and a value of another kind all read as `null`.

use vstd::prelude::*;

use crate::text::same;

verus! {

/// A JSON number: its value where it is an unsigned or a signed 64-bit
/// integer, and its text.
#[derive(Debug)]
pub struct JsonNumber {
    pub unsigned: Option<u64>,
    pub signed: Option<i64>,
    pub text: String,
}

#[derive(Debug)]
pub enum Json {
    Null,
    Bool(bool),
    Number(JsonNumber),
    Str(String),
    Array(Vec<Json>),
    Object(Vec<(String, Json)>),
}

/// What a `Json` holds, with texts as character sequences.
pub enum JsonView {
    Null,
    Bool(bool),
    Number(Option<u64>, Option<i64>, Seq<char>),
    Str(Seq<char>),
    Array(Seq<JsonView>),
    Object(Seq<(Seq<char>, JsonView)>),
}

/// What `j` holds.
pub open spec fn json_view(j: Json) -> JsonView
    decreases j,
{
    match j {
        Json::Null => JsonView::Null,
        Json::Bool(b) => JsonView::Bool(b),
        Json::Number(n) => JsonView::Number(n.unsigned, n.signed, n.text@),
        Json::Str(s) => JsonView::Str(s@),
        Json::Array(a) => JsonView::Array(
            Seq::new(
                a@.len(),
                |i: int|
                    if 0 <= i < a@.len() {
                        json_view(a@[i])
                    } else {
                        JsonView::Null
                    },
            ),
        ),
        Json::Object(o) => JsonView::Object(
            Seq::new(
                o@.len(),
                |i: int|
                    if 0 <= i < o@.len() {
                        (o@[i].0@, json_view(o@[i].1))
                    } else {
                        (Seq::empty(), JsonView::Null)
                    },
            ),
        ),
    }
}

impl DeepView for Json {
    type V = JsonView;

    open spec fn deep_view(&self) -> JsonView {
        json_view(*self)
    }
}

/// The value under `key`, or `null` where no entry has that key.
pub open spec fn entry_value(entries: Seq<(Seq<char>, JsonView)>, key: Seq<char>) -> JsonView
    decreases entries.len(),
{
    if entries.len() == 0 {
        JsonView::Null
    } else if entries[0].0 == key {
        entries[0].1
    } else {
        entry_value(entries.drop_first(), key)
    }
}

impl JsonView {
    pub open spec fn field(self, key: Seq<char>) -> JsonView {
        match self {
            JsonView::Object(o) => entry_value(o, key),
            _ => JsonView::Null,
        }
    }

    pub open spec fn item(self, i: int) -> JsonView {
        match self {
            JsonView::Array(a) => if 0 <= i < a.len() {
                a[i]
            } else {
                JsonView::Null
            },
            _ => JsonView::Null,
        }
    }

    pub open spec fn str(self) -> Option<Seq<char>> {
        match self {
            JsonView::Str(s) => Some(s),
            _ => None,
        }
    }

    /// The text of a string, or `default` for any other value.
    pub open spec fn str_or(self, default: Seq<char>) -> Seq<char> {
        match self {
            JsonView::Str(s) => s,
            _ => default,
        }
    }

    pub open spec fn bool(self) -> Option<bool> {
        match self {
            JsonView::Bool(b) => Some(b),
            _ => None,
        }
    }

    pub open spec fn unsigned(self) -> Option<u64> {
        match self {
            JsonView::Number(u, _, _) => u,
            _ => None,
        }
    }

    /// The value of an unsigned integer, or `default` for any other value.
    pub open spec fn unsigned_or(self, default: u64) -> u64 {
        match self.unsigned() {
            Some(u) => u,
            None => default,
        }
    }

    pub open spec fn signed(self) -> Option<i64> {
        match self {
            JsonView::Number(_, i, _) => i,
            _ => None,
        }
    }

    pub open spec fn array(self) -> Option<Seq<JsonView>> {
        match self {
            JsonView::Array(a) => Some(a),
            _ => None,
        }
    }

    /// The items of an array; none for any other value.
    pub open spec fn items(self) -> Seq<JsonView> {
        match self {
            JsonView::Array(a) => a,
            _ => Seq::empty(),
        }
    }

    pub open spec fn object(self) -> Option<Seq<(Seq<char>, JsonView)>> {
        match self {
            JsonView::Object(o) => Some(o),
            _ => None,
        }
    }
}

impl Json {
    pub fn field(&self, key: &str) -> (r: &Json)
        ensures
            r.deep_view() == self.deep_view().field(key@),
    {
        match self {
            Json::Object(o) => {
                let ghost all = self.deep_view()->Object_0;
                let mut i: usize = 0;
                proof {
                    assert(all.skip(0) == all);
                }
                while i < o.len()
                    invariant
                        self == Json::Object(*o),
                        all == self.deep_view()->Object_0,
                        i <= o@.len(),
                        entry_value(all, key@) == entry_value(all.skip(i as int), key@),
                    decreases o@.len() - i,
                {
                    proof {
                        assert(all.skip(i as int)[0] == (o@[i as int].0@, o@[i as int].1.deep_view()));
                        assert(all.skip(i as int).drop_first() == all.skip(i + 1));
                    }
                    if same(o[i].0.as_str(), key) {
                        return &o[i].1;
                    }
                    i += 1;
                }
                &Json::Null
            },
            _ => &Json::Null,
        }
    }

    pub fn item(&self, i: usize) -> (r: &Json)
        ensures
            r.deep_view() == self.deep_view().item(i as int),
    {
        match self {
            Json::Array(a) => if i < a.len() {
                &a[i]
            } else {
                &Json::Null
            },
            _ => &Json::Null,
        }
    }

    pub fn as_str(&self) -> (r: Option<&str>)
        ensures
            r.deep_view() == self.deep_view().str(),
    {
        match self {
            Json::Str(s) => Some(s.as_str()),
            _ => None,
        }
    }

    pub fn str_or<'a>(&'a self, default: &'a str) -> (r: &'a str)
        ensures
            r@ == self.deep_view().str_or(default@),
    {
        match self {
            Json::Str(s) => s.as_str(),
            _ => default,
        }
    }

    /// A copy of the text of a string.
    pub fn to_text(&self) -> (r: Option<String>)
        ensures
            r.deep_view() == self.deep_view().str(),
    {
        match self {
            Json::Str(s) => Some(s.clone()),
            _ => None,
        }
    }

    /// Whether this is the string `text`.
    pub fn is_text(&self, text: &str) -> (r: bool)
        ensures
            r == (self.deep_view().str() == Some(text@)),
    {
        match self {
            Json::Str(s) => same(s.as_str(), text),
            _ => false,
        }
    }

    pub fn as_bool(&self) -> (r: Option<bool>)
        ensures
            r == self.deep_view().bool(),
    {
        match self {
            Json::Bool(b) => Some(*b),
            _ => None,
        }
    }

    /// Whether this is `true`.
    pub fn is_true(&self) -> (r: bool)
        ensures
            r == (self.deep_view().bool() == Some(true)),
    {
        match self.as_bool() {
            Some(b) => b,
            None => false,
        }
    }

    pub fn as_u64(&self) -> (r: Option<u64>)
        ensures
            r == self.deep_view().unsigned(),
    {
        match self {
            Json::Number(n) => n.unsigned,
            _ => None,
        }
    }

    pub fn u64_or(&self, default: u64) -> (r: u64)
        ensures
            r == self.deep_view().unsigned_or(default),
    {
        match self.as_u64() {
            Some(u) => u,
            None => default,
        }
    }

    pub fn as_i64(&self) -> (r: Option<i64>)
        ensures
            r == self.deep_view().signed(),
    {
        match self {
            Json::Number(n) => n.signed,
            _ => None,
        }
    }

    pub fn is_null(&self) -> (r: bool)
        ensures
            r == (self.deep_view() is Null),
    {
        match self {
            Json::Null => true,
            _ => false,
        }
    }

    pub fn as_array(&self) -> (r: Option<&Vec<Json>>)
        ensures
            r.deep_view() == self.deep_view().array(),
    {
        match self {
            Json::Array(a) => {
                assert(a.deep_view() =~= self.deep_view()->Array_0);
                Some(a)
            },
            _ => None,
        }
    }

    pub fn as_object(&self) -> (r: Option<&Vec<(String, Json)>>)
        ensures
            r.deep_view() == self.deep_view().object(),
    {
        match self {
            Json::Object(o) => {
                assert(o.deep_view() =~= self.deep_view()->Object_0);
                Some(o)
            },
            _ => None,
        }
    }
}

impl Clone for Json {
    fn clone(&self) -> (r: Self)
        ensures
            r.deep_view() == self.deep_view(),
        decreases self,
    {
        match self {
            Json::Null => Json::Null,
            Json::Bool(b) => Json::Bool(*b),
            Json::Number(n) => Json::Number(
                JsonNumber { unsigned: n.unsigned, signed: n.signed, text: n.text.clone() },
            ),
            Json::Str(s) => Json::Str(s.clone()),
            Json::Array(a) => {
                let mut c: Vec<Json> = Vec::new();
                let mut i: usize = 0;
                while i < a.len()
                    invariant
                        self == Json::Array(*a),
                        i <= a@.len(),
                        c@.len() == i,
                        forall|j: int| 0 <= j < i ==> c@[j].deep_view() == a@[j].deep_view(),
                    decreases a@.len() - i,
                {
                    assert(decreases_to!(*self => self->Array_0));
                    assert(decreases_to!(*a => a@));
                    assert(decreases_to!(a@ => a@[i as int]));
                    c.push(a[i].clone());
                    i += 1;
                }
                let r = Json::Array(c);
                assert(r.deep_view()->Array_0 =~= self.deep_view()->Array_0);
                r
            },
            Json::Object(o) => {
                let mut c: Vec<(String, Json)> = Vec::new();
                let mut i: usize = 0;
                while i < o.len()
                    invariant
                        self == Json::Object(*o),
                        i <= o@.len(),
                        c@.len() == i,
                        forall|j: int|
                            0 <= j < i ==> (#[trigger] c@[j]).0@ == o@[j].0@
                                && c@[j].1.deep_view() == o@[j].1.deep_view(),
                    decreases o@.len() - i,
                {
                    assert(decreases_to!(*self => self->Object_0));
                    assert(decreases_to!(*o => o@));
                    assert(decreases_to!(o@ => o@[i as int]));
                    assert(decreases_to!(o@[i as int] => o@[i as int].1));
                    c.push((o[i].0.clone(), o[i].1.clone()));
                    i += 1;
                }
                let r = Json::Object(c);
                assert(r.deep_view()->Object_0 =~= self.deep_view()->Object_0);
                r
            },
        }
    }
}

impl Json {
    /// A copy of the first `limit` items of an array; none of any other value.
    pub fn first_items(&self, limit: usize) -> (r: Vec<Json>)
        ensures
            r.deep_view() == if self.deep_view().items().len() > limit {
                self.deep_view().items().take(limit as int)
            } else {
                self.deep_view().items()
            },
    {
        let mut r: Vec<Json> = Vec::new();
        match self {
            Json::Array(a) => {
                let mut i: usize = 0;
                while i < a.len() && i < limit
                    invariant
                        self == Json::Array(*a),
                        i <= a@.len(),
                        i <= limit,
                        r@.len() == i,
                        forall|j: int| 0 <= j < i ==> (#[trigger] r@[j]).deep_view() == a@[j].deep_view(),
                    decreases a@.len() - i,
                {
                    r.push(a[i].clone());
                    i += 1;
                }
                proof {
                    let all = self.deep_view().items();
                    if all.len() > limit {
                        assert(r.deep_view() =~= all.take(limit as int));
                    } else {
                        assert(r.deep_view() =~= all);
                    }
                }
            },
            _ => {
                assert(r.deep_view() =~= self.deep_view().items());
            },
        }
        r
    }

    /// A copy of the items of an array; none of any other value.
    pub fn all_items(&self) -> (r: Vec<Json>)
        ensures
            r.deep_view() == self.deep_view().items(),
    {
        match self {
            Json::Array(a) => {
                let n: usize = a.len();
                assert(self.deep_view().items().len() == n);
                self.first_items(n)
            },
            _ => {
                let r: Vec<Json> = Vec::new();
                assert(r.deep_view() =~= self.deep_view().items());
                r
            },
        }
    }

    /// A string.
    pub fn text(s: &str) -> (r: Json)
        ensures
            r.deep_view() == JsonView::Str(s@),
    {
        Json::Str(s.to_owned())
    }

    /// A small integer.
    pub fn number(n: u8) -> (r: Json)
        ensures
            r.deep_view() == number_view(n),
    {
        Json::Number(
            JsonNumber {
                unsigned: Some(n as u64),
                signed: Some(n as i64),
                text: crate::text::u64_text(n as u64),
            },
        )
    }
}

/// The number `n` as JSON.
pub open spec fn number_view(n: u8) -> JsonView {
    JsonView::Number(Some(n as u64), Some(n as i64), crate::text::decimal(n as nat))
}

/// An object with one entry.
pub fn object_of(key: &str, value: Json) -> (r: Json)
    ensures
        r.deep_view() == JsonView::Object(seq![(key@, value.deep_view())]),
{
    let mut o: Vec<(String, Json)> = Vec::new();
    o.push((key.to_owned(), value));
    let r = Json::Object(o);
    assert(r.deep_view()->Object_0 =~= seq![(key@, value.deep_view())]);
    r
}

/// An object with two entries.
pub fn object_of_two(key: &str, value: Json, key2: &str, value2: Json) -> (r: Json)
    ensures
        r.deep_view() == JsonView::Object(
            seq![(key@, value.deep_view()), (key2@, value2.deep_view())],
        ),
{
    let mut o: Vec<(String, Json)> = Vec::new();
    o.push((key.to_owned(), value));
    o.push((key2.to_owned(), value2));
    let r = Json::Object(o);
    assert(r.deep_view()->Object_0 =~= seq![
        (key@, value.deep_view()),
        (key2@, value2.deep_view()),
    ]);
    r
}

/// The names of those items that have one, in order.
pub open spec fn names_of(items: Seq<JsonView>) -> Seq<Seq<char>>
    decreases items.len(),
{
    if items.len() == 0 {
        Seq::empty()
    } else {
        let rest = names_of(items.drop_last());
        match items.last().field("name"@).str() {
            Some(name) => rest.push(name),
            None => rest,
        }
    }
}

/// The names of the items of an array, with commas between them.
pub fn joined_names(list: &Json) -> (r: String)
    ensures
        r@ == crate::text::joined(names_of(list.deep_view().items()), ", "@),
{
    let mut names: Vec<String> = Vec::new();
    let ghost all = list.deep_view().items();
    match list.as_array() {
        Some(items) => {
            let mut i: usize = 0;
            while i < items.len()
                invariant
                    all == items.deep_view(),
                    i <= items@.len(),
                    names.deep_view() == names_of(all.take(i as int)),
                decreases items@.len() - i,
            {
                proof {
                    assert(all.take(i + 1).drop_last() == all.take(i as int));
                    assert(all.take(i + 1).last() == items@[i as int].deep_view());
                }
                let ghost before = names.deep_view();
                match items[i].field("name").to_text() {
                    Some(name) => {
                        let ghost text = name@;
                        names.push(name);
                        assert(names.deep_view() =~= before.push(text));
                    },
                    None => {},
                }
                i += 1;
            }
            assert(all.take(i as int) == all);
        },
        None => {
            assert(names.deep_view() =~= names_of(all));
        },
    }
    crate::text::join(&names, ", ")
}

// ── Parsing ──────────────────────────────────────────────────────────────────

/// A value of `serde_json`, on its way from the parser to a [`Json`].
#[verifier::external_type_specification]
#[verifier::external_body]
pub struct ExValue(serde_json::Value);

/// What a `serde_json::Value` holds.
pub uninterp spec fn value_content(v: serde_json::Value) -> JsonView;

/// What `serde_json::from_str` makes of a text: the document that it is, if it
/// is one.
pub uninterp spec fn json_document(text: Seq<char>) -> Option<JsonView>;

/// Calls `serde_json::from_str`, which parses `text` as one JSON document. The
/// contract names what the document holds, and that it is one.
#[verifier::external_body]
fn parse_value(text: &str) -> (r: Option<serde_json::Value>)
    ensures
        match r {
            Some(v) => json_document(text@) == Some(value_content(v)),
            None => json_document(text@) is None,
        },
{
    serde_json::from_str::<serde_json::Value>(text).ok()
}

/// A value of `serde_json`, taken apart once.
enum Node<'a> {
    Null,
    Bool(bool),
    Number(JsonNumber),
    Str(&'a String),
    Array(&'a Vec<serde_json::Value>),
    Object(Vec<(&'a String, &'a serde_json::Value)>),
}

/// What a node holds.
spec fn node_content(n: Node) -> JsonView {
    match n {
        Node::Null => JsonView::Null,
        Node::Bool(b) => JsonView::Bool(b),
        Node::Number(n) => JsonView::Number(n.unsigned, n.signed, n.text@),
        Node::Str(s) => JsonView::Str(s@),
        Node::Array(a) => JsonView::Array(Seq::new(a@.len(), |i: int| value_content(a@[i]))),
        Node::Object(o) => JsonView::Object(
            Seq::new(o@.len(), |i: int| (o@[i].0@, value_content(*o@[i].1))),
        ),
    }
}

/// Tells the variants of `serde_json::Value` apart. A number is given by
/// `Number::as_u64`, `Number::as_i64` and its text; the entries of an object
/// come in the order of `serde_json::Map::iter`. The contract says that the
/// parts hold what the value holds.
#[verifier::external_body]
fn take_apart<'a>(v: &'a serde_json::Value) -> (r: Node<'a>)
    ensures
        node_content(r) == value_content(*v),
{
    match v {
        serde_json::Value::Null => Node::Null,
        serde_json::Value::Bool(b) => Node::Bool(*b),
        serde_json::Value::Number(n) => Node::Number(
            JsonNumber { unsigned: n.as_u64(), signed: n.as_i64(), text: n.to_string() },
        ),
        serde_json::Value::String(s) => Node::Str(s),
        serde_json::Value::Array(a) => Node::Array(a),
        serde_json::Value::Object(o) => Node::Object(o.iter().collect()),
    }
}

/// The value as a [`Json`].
fn from_value(v: &serde_json::Value) -> (r: Json)
    ensures
        r.deep_view() == value_content(*v),
    decreases value_content(*v),
{
    let ghost content = value_content(*v);
    match take_apart(v) {
        Node::Null => Json::Null,
        Node::Bool(b) => Json::Bool(b),
        Node::Number(n) => Json::Number(n),
        Node::Str(s) => Json::Str(s.clone()),
        Node::Array(a) => {
            let mut c: Vec<Json> = Vec::new();
            let mut i: usize = 0;
            while i < a.len()
                invariant
                    content == value_content(*v),
                    content == JsonView::Array(
                        Seq::new(a@.len(), |j: int| value_content(a@[j])),
                    ),
                    i <= a@.len(),
                    c@.len() == i,
                    forall|j: int| 0 <= j < i ==> c@[j].deep_view() == value_content(a@[j]),
                decreases a@.len() - i,
            {
                proof {
                    let items = content->Array_0;
                    assert(items[i as int] == value_content(a@[i as int]));
                    assert(decreases_to!(content => content->Array_0));
                    assert(decreases_to!(items => items[i as int]));
                }
                c.push(from_value(&a[i]));
                i += 1;
            }
            let r = Json::Array(c);
            assert(r.deep_view()->Array_0 =~= content->Array_0);
            r
        },
        Node::Object(o) => {
            let mut c: Vec<(String, Json)> = Vec::new();
            let mut i: usize = 0;
            while i < o.len()
                invariant
                    content == value_content(*v),
                    content == JsonView::Object(
                        Seq::new(o@.len(), |j: int| (o@[j].0@, value_content(*o@[j].1))),
                    ),
                    i <= o@.len(),
                    c@.len() == i,
                    forall|j: int|
                        0 <= j < i ==> (#[trigger] c@[j]).0@ == o@[j].0@ && c@[j].1.deep_view()
                            == value_content(*o@[j].1),
                decreases o@.len() - i,
            {
                proof {
                    let entries = content->Object_0;
                    assert(entries[i as int].1 == value_content(*o@[i as int].1));
                    assert(decreases_to!(content => content->Object_0));
                    assert(decreases_to!(entries => entries[i as int]));
                    assert(decreases_to!(entries[i as int] => entries[i as int].1));
                }
                c.push((o[i].0.clone(), from_value(o[i].1)));
                i += 1;
            }
            let r = Json::Object(c);
            assert(r.deep_view()->Object_0 =~= content->Object_0);
            r
        },
    }
}

/// The JSON document that `text` is, if it is one.
pub fn parse(text: &str) -> (r: Option<Json>)
    ensures
        r.deep_view() == json_document(text@),
{
    match parse_value(text) {
        Some(v) => Some(from_value(&v)),
        None => None,
    }
}

// ── What holds of documents ──────────────────────────────────────────────────

/// A field of an object is what stands under its name, the first time that the
/// name occurs.
pub proof fn fields_are_found_by_name(o: Seq<(Seq<char>, JsonView)>, i: int)
    requires
        0 <= i < o.len(),
        forall|j: int| 0 <= j < i ==> (#[trigger] o[j]).0 != o[i].0,
    ensures
        JsonView::Object(o).field(o[i].0) == o[i].1,
    decreases i,
{
    if i > 0 {
        assert(o[0].0 != o[i].0);
        let rest = o.drop_first();
        assert forall|j: int| 0 <= j < i - 1 implies (#[trigger] rest[j]).0 != rest[i - 1].0 by {
            assert(rest[j] == o[j + 1]);
        }
        fields_are_found_by_name(rest, i - 1);
    }
}

/// A field that is not there is null, and only an object has fields.
pub proof fn missing_fields_are_null(v: JsonView, o: Seq<(Seq<char>, JsonView)>, key: Seq<char>)
    requires
        forall|j: int| 0 <= j < o.len() ==> (#[trigger] o[j]).0 != key,
    ensures
        JsonView::Object(o).field(key) == JsonView::Null,
        !(v is Object) ==> v.field(key) == JsonView::Null,
    decreases o.len(),
{
    if o.len() > 0 {
        assert(o[0].0 != key);
        let rest = o.drop_first();
        assert forall|j: int| 0 <= j < rest.len() implies (#[trigger] rest[j]).0 != key by {
            assert(rest[j] == o[j + 1]);
        }
        missing_fields_are_null(v, rest, key);
    }
}

/// The items of an array are those that it holds, by their positions, and
/// nothing else reads as one.
pub proof fn items_are_found_by_position(v: JsonView, a: Seq<JsonView>, i: int)
    ensures
        0 <= i < a.len() ==> JsonView::Array(a).item(i) == a[i],
        !(0 <= i < a.len()) ==> JsonView::Array(a).item(i) == JsonView::Null,
        JsonView::Array(a).items() == a,
        JsonView::Array(a).array() == Some(a),
        !(v is Array) ==> v.item(i) == JsonView::Null && v.items().len() == 0 && v.array() is None,
{
}

/// A value reads as what it is and as nothing else.
pub proof fn values_read_as_what_they_are(v: JsonView, s: Seq<char>, b: bool, default: Seq<char>)
    ensures
        JsonView::Str(s).str() == Some(s),
        JsonView::Str(s).str_or(default) == s,
        !(v is Str) ==> v.str() is None && v.str_or(default) == default,
        JsonView::Bool(b).bool() == Some(b),
        !(v is Bool) ==> v.bool() is None,
        !(v is Number) ==> v.unsigned() is None && v.signed() is None,
        v.unsigned() is None ==> v.unsigned_or(7) == 7,
        v.unsigned() matches Some(n) ==> v.unsigned_or(7) == n,
        !(v is Object) ==> v.object() is None,
{
}

/// The names in a list are those of its parts, one after another. An item with a
/// name gives that name; one without gives none.
pub proof fn names_are_read_in_order(a: Seq<JsonView>, b: Seq<JsonView>, item: JsonView)
    ensures
        names_of(a + b) == names_of(a) + names_of(b),
        item.field("name"@) matches JsonView::Str(name) ==> names_of(seq![item]) == seq![name],
        !(item.field("name"@) is Str) ==> names_of(seq![item]).len() == 0,
    decreases b.len(),
{
    let one = seq![item];
    assert(one.drop_last() =~= Seq::<JsonView>::empty());
    assert(one.last() == item);
    assert(names_of(one.drop_last()) =~= Seq::<Seq<char>>::empty());
    if item.field("name"@) is Str {
        assert(names_of(one) =~= seq![item.field("name"@)->Str_0]);
    }
    if b.len() == 0 {
        assert(a + b =~= a);
        assert(names_of(a) + names_of(b) =~= names_of(a));
    } else {
        names_are_read_in_order(a, b.drop_last(), item);
        assert((a + b).drop_last() =~= a + b.drop_last());
        assert((a + b).last() == b.last());
        assert(names_of(a + b) =~= names_of(a) + names_of(b));
    }
}

} // verus!
