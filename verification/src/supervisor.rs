//! The Home Assistant Supervisor.
//!
//! Keeps the add-on options in step with what was changed in the bot, and
//! restarts the add-on.

use vstd::prelude::*;

use crate::http::{request, HttpRequest, Method, Response};
use crate::json::{object_of, Json};
use crate::text::same;

verus! {

/// A request to the Supervisor, which needs the add-on's token.
pub open spec fn supervisor_view(
    method: Method,
    path: Seq<char>,
    body: Option<crate::json::JsonView>,
    token: Option<Seq<char>>,
) -> Result<crate::http::HttpRequestView, Seq<char>> {
    match token {
        Some(t) => {
            let r = crate::http::bare(method, "http://supervisor"@ + path).with_header(
                "Authorization"@,
                "Bearer "@ + t,
            );
            match body {
                Some(b) => Ok(r.with_body(b)),
                None => Ok(r),
            }
        },
        None => Err("SUPERVISOR_TOKEN not set"@),
    }
}

pub fn supervisor_request(
    method: Method,
    path: &str,
    body: Option<Json>,
    token: &Option<String>,
) -> (r: Result<HttpRequest, String>)
    ensures
        crate::flow::result_view(r) == supervisor_view(
            method,
            path@,
            body.deep_view(),
            token.deep_view(),
        ),
{
    match token {
        Some(t) => {
            let address = "http://supervisor".to_owned().concat(path);
            let r = request(method, address).header(
                "Authorization",
                "Bearer ".to_owned().concat(t.as_str()).as_str(),
            );
            match body {
                Some(b) => Ok(r.body(b)),
                None => Ok(r),
            }
        },
        None => Err("SUPERVISOR_TOKEN not set".to_owned()),
    }
}

/// What the Supervisor answered: its document, or why there is none.
pub open spec fn answer_in(reply: Result<Response, String>) -> Result<
    crate::json::JsonView,
    Seq<char>,
> {
    match reply {
        Ok(response) => if response.answer.success {
            crate::flow::result_view(response.body)
        } else {
            Err("Supervisor API error: "@ + response.answer.status@)
        },
        Err(e) => Err(e@),
    }
}

/// The document in an answer of the Supervisor.
pub fn supervisor_answer(reply: Result<Response, String>) -> (r: Result<Json, String>)
    ensures
        crate::flow::result_view(r) == answer_in(reply),
{
    match reply {
        Ok(response) => if response.answer.success {
            response.body
        } else {
            Err("Supervisor API error: ".to_owned().concat(response.answer.status.as_str()))
        },
        Err(e) => Err(e),
    }
}

/// The request for what the Supervisor knows of the add-on.
pub fn info_request(token: &Option<String>) -> (r: Result<HttpRequest, String>)
    ensures
        crate::flow::result_view(r) == supervisor_view(
            Method::Get,
            "/addons/self/info"@,
            None,
            token.deep_view(),
        ),
{
    supervisor_request(Method::Get, "/addons/self/info", None, token)
}

// ── Options ──────────────────────────────────────────────────────────────────

/// The entries with `key` set to `value`: in its place where it is there
/// already, else at the end.
pub open spec fn with_entry(
    entries: Seq<(Seq<char>, crate::json::JsonView)>,
    key: Seq<char>,
    value: crate::json::JsonView,
) -> Seq<(Seq<char>, crate::json::JsonView)>
    decreases entries.len(),
{
    if entries.len() == 0 {
        seq![(key, value)]
    } else if entries[0].0 == key {
        seq![(key, value)] + entries.drop_first()
    } else {
        seq![entries[0]] + with_entry(entries.drop_first(), key, value)
    }
}

/// The request that stores the add-on's options with one of them changed,
/// given what the Supervisor said of the add-on.
pub open spec fn update_view(
    info: Result<crate::json::JsonView, Seq<char>>,
    key: Seq<char>,
    value: crate::json::JsonView,
    token: Option<Seq<char>>,
) -> Result<crate::http::HttpRequestView, Seq<char>> {
    match info {
        Ok(info) => match info.field("data"@).field("options"@).object() {
            Some(options) => supervisor_view(
                Method::Post,
                "/addons/self/options"@,
                Some(
                    crate::json::JsonView::Object(
                        seq![
                            (
                                "options"@,
                                crate::json::JsonView::Object(with_entry(options, key, value)),
                            ),
                        ],
                    ),
                ),
                token,
            ),
            None => Err("Failed to get addon options"@),
        },
        Err(e) => Err(e),
    }
}

proof fn lemma_with_entry_found(
    entries: Seq<(Seq<char>, crate::json::JsonView)>,
    key: Seq<char>,
    value: crate::json::JsonView,
    at: int,
)
    requires
        0 <= at < entries.len(),
        entries[at].0 == key,
        forall|j: int| 0 <= j < at ==> (#[trigger] entries[j]).0 != key,
    ensures
        with_entry(entries, key, value) == entries.update(at, (key, value)),
    decreases entries.len(),
{
    if at == 0 {
        assert(with_entry(entries, key, value) =~= entries.update(0, (key, value)));
    } else {
        let rest = entries.drop_first();
        assert forall|j: int| 0 <= j < at - 1 implies (#[trigger] rest[j]).0 != key by {
            assert(rest[j] == entries[j + 1]);
        }
        lemma_with_entry_found(rest, key, value, at - 1);
        assert(with_entry(entries, key, value) =~= entries.update(at, (key, value)));
    }
}

proof fn lemma_with_entry_new(
    entries: Seq<(Seq<char>, crate::json::JsonView)>,
    key: Seq<char>,
    value: crate::json::JsonView,
)
    requires
        forall|j: int| 0 <= j < entries.len() ==> (#[trigger] entries[j]).0 != key,
    ensures
        with_entry(entries, key, value) == entries.push((key, value)),
    decreases entries.len(),
{
    if entries.len() > 0 {
        let rest = entries.drop_first();
        assert forall|j: int| 0 <= j < rest.len() implies (#[trigger] rest[j]).0 != key by {
            assert(rest[j] == entries[j + 1]);
        }
        lemma_with_entry_new(rest, key, value);
    }
    assert(with_entry(entries, key, value) =~= entries.push((key, value)));
}

/// The options with `key` set to `value`.
fn set_option(options: &Vec<(String, Json)>, key: &str, value: Json) -> (r: Vec<(String, Json)>)
    ensures
        r.deep_view() == with_entry(options.deep_view(), key@, value.deep_view()),
{
    let ghost before = options.deep_view();
    let ghost new = (key@, value.deep_view());
    let mut r: Vec<(String, Json)> = Vec::new();
    let mut at: Option<usize> = None;
    let mut i: usize = 0;
    while i < options.len()
        invariant
            before == options.deep_view(),
            i <= options@.len(),
            r@.len() == i,
            r.deep_view() == before.take(i as int),
            match at {
                Some(k) => k < i && before[k as int].0 == key@ && forall|j: int|
                    0 <= j < k ==> (#[trigger] before[j]).0 != key@,
                None => forall|j: int| 0 <= j < i ==> (#[trigger] before[j]).0 != key@,
            },
        decreases options@.len() - i,
    {
        assert(before[i as int] == options@[i as int].deep_view());
        if at.is_none() && same(options[i].0.as_str(), key) {
            at = Some(i);
        }
        let ghost kept = r.deep_view();
        r.push((options[i].0.clone(), options[i].1.clone()));
        assert(r.deep_view() =~= kept.push(before[i as int]));
        assert(before.take(i + 1) =~= before.take(i as int).push(before[i as int]));
        i += 1;
    }
    assert(before.take(i as int) == before);
    let ghost kept = r.deep_view();
    match at {
        Some(k) => {
            proof {
                lemma_with_entry_found(before, key@, value.deep_view(), k as int);
            }
            r.set(k, (key.to_owned(), value));
            assert(r.deep_view() =~= kept.update(k as int, new));
        },
        None => {
            proof {
                lemma_with_entry_new(before, key@, value.deep_view());
            }
            r.push((key.to_owned(), value));
            assert(r.deep_view() =~= kept.push(new));
        },
    }
    r
}

/// The request that changes one option of the add-on. The Supervisor takes the
/// options as a whole, so all others are sent along as they were.
pub fn update_ha_option(
    info: Result<Json, String>,
    key: &str,
    value: Json,
    token: &Option<String>,
) -> (r: Result<HttpRequest, String>)
    ensures
        crate::flow::result_view(r) == update_view(
            crate::flow::result_view(info),
            key@,
            value.deep_view(),
            token.deep_view(),
        ),
{
    match info {
        Ok(info) => match info.field("data").field("options").as_object() {
            Some(options) => {
                let entries = set_option(options, key, value);
                let ghost listed = entries.deep_view();
                let changed = Json::Object(entries);
                assert(changed.deep_view()->Object_0 =~= listed);
                let payload = object_of("options", changed);
                supervisor_request(Method::Post, "/addons/self/options", Some(payload), token)
            },
            None => Err("Failed to get addon options".to_owned()),
        },
        Err(e) => Err(e),
    }
}

/// A changed option reads back as what it was set to, and every other option
/// as what it was.
pub proof fn a_change_spares_the_other_options(
    entries: Seq<(Seq<char>, crate::json::JsonView)>,
    key: Seq<char>,
    value: crate::json::JsonView,
    other: Seq<char>,
)
    ensures
        crate::json::entry_value(with_entry(entries, key, value), key) == value,
        other != key ==> crate::json::entry_value(with_entry(entries, key, value), other)
            == crate::json::entry_value(entries, other),
    decreases entries.len(),
{
    let after = with_entry(entries, key, value);
    if entries.len() == 0 {
        assert(after.drop_first() == entries);
    } else if entries[0].0 == key {
        assert(after.drop_first() == entries.drop_first());
    } else {
        a_change_spares_the_other_options(entries.drop_first(), key, value, other);
        assert(after.drop_first() == with_entry(entries.drop_first(), key, value));
    }
}

// ── Restart ──────────────────────────────────────────────────────────────────

/// The request that restarts the add-on, given what the Supervisor said of it.
pub fn restart_addon(info: Result<Json, String>, token: &Option<String>) -> (r: Result<
    HttpRequest,
    String,
>)
    ensures
        crate::flow::result_view(r) == match crate::flow::result_view(info) {
            Ok(info) => match info.field("data"@).field("slug"@).str() {
                Some(slug) => supervisor_view(
                    Method::Post,
                    "/addons/"@ + slug + "/restart"@,
                    None,
                    token.deep_view(),
                ),
                None => Err("Failed to get addon slug"@),
            },
            Err(e) => Err(e),
        },
{
    match info {
        Ok(info) => match info.field("data").field("slug").as_str() {
            Some(slug) => {
                let path = "/addons/".to_owned().concat(slug).concat("/restart");
                supervisor_request(Method::Post, path.as_str(), None, token)
            },
            None => Err("Failed to get addon slug".to_owned()),
        },
        Err(e) => Err(e),
    }
}

// ── What holds of requests to the Supervisor ─────────────────────────────────

/// A request to the Supervisor goes to the given path with the token, and without
/// a token there is none.
pub proof fn requests_carry_the_token(
    method: Method,
    path: Seq<char>,
    body: Option<crate::json::JsonView>,
    token: Seq<char>,
)
    ensures
        supervisor_view(method, path, body, Some(token)) matches Ok(r) && r.method == method && r.url
            == "http://supervisor"@ + path && r.headers == seq![
            ("Authorization"@, "Bearer "@ + token),
        ] && r.body == body && r.query.len() == 0,
        supervisor_view(method, path, body, None) is Err,
{
    let r = supervisor_view(method, path, body, Some(token))->Ok_0;
    assert(r.headers =~= seq![("Authorization"@, "Bearer "@ + token)]);
}

/// To change an option, all options are posted, with the one changed and the
/// others as they were.
pub proof fn all_options_are_posted(
    info: crate::json::JsonView,
    options: Seq<(Seq<char>, crate::json::JsonView)>,
    key: Seq<char>,
    value: crate::json::JsonView,
    other: Seq<char>,
    token: Seq<char>,
)
    requires
        info.field("data"@).field("options"@) == crate::json::JsonView::Object(options),
        other != key,
    ensures
        update_view(Ok(info), key, value, Some(token)) matches Ok(r) && r.method == Method::Post
            && r.url == "http://supervisor"@ + "/addons/self/options"@ && (r.body matches Some(body)
            && body.field("options"@).field(key) == value && body.field("options"@).field(other)
            == crate::json::JsonView::Object(options).field(other)),
{
    a_change_spares_the_other_options(options, key, value, other);
    reveal_with_fuel(crate::json::entry_value, 2);
}

/// A change keeps the options in their order and adds one only where it is new.
pub proof fn a_change_adds_at_most_one_option(
    entries: Seq<(Seq<char>, crate::json::JsonView)>,
    key: Seq<char>,
    value: crate::json::JsonView,
)
    ensures
        with_entry(entries, key, value).len() == entries.len() || with_entry(
            entries,
            key,
            value,
        ).len() == entries.len() + 1,
        forall|i: int|
            0 <= i < entries.len() ==> (#[trigger] with_entry(entries, key, value)[i]).0
                == entries[i].0,
        with_entry(entries, key, value).len() == entries.len() + 1 <==> forall|i: int|
            0 <= i < entries.len() ==> (#[trigger] entries[i]).0 != key,
    decreases entries.len(),
{
    let after = with_entry(entries, key, value);
    if entries.len() > 0 {
        let rest = entries.drop_first();
        a_change_adds_at_most_one_option(rest, key, value);
        if entries[0].0 != key {
            let tail = with_entry(rest, key, value);
            assert forall|i: int| 0 <= i < entries.len() implies (#[trigger] after[i]).0
                == entries[i].0 by {
                if i > 0 {
                    assert(after[i] == tail[i - 1]);
                    assert(rest[i - 1] == entries[i]);
                }
            }
            if forall|i: int| 0 <= i < entries.len() ==> (#[trigger] entries[i]).0 != key {
                assert forall|i: int| 0 <= i < rest.len() implies (#[trigger] rest[i]).0 != key by {
                    assert(rest[i] == entries[i + 1]);
                }
            }
            if forall|i: int| 0 <= i < rest.len() ==> (#[trigger] rest[i]).0 != key {
                assert forall|i: int| 0 <= i < entries.len() implies (#[trigger] entries[i]).0
                    != key by {
                    if i > 0 {
                        assert(rest[i - 1] == entries[i]);
                    }
                }
            }
        } else {
            assert(after.len() == entries.len());
        }
    }
}

/// What the Supervisor answers is taken where it reports success, and its status
/// is the error where it does not.
pub proof fn answers_need_success(response: Response, e: String)
    ensures
        response.answer.success ==> (response.body matches Ok(data) ==> answer_in(Ok(response))
            == Ok::<_, Seq<char>>(data.deep_view())),
        response.answer.success ==> (response.body matches Err(why) ==> answer_in(Ok(response))
            == Err::<crate::json::JsonView, _>(why@)),
        !response.answer.success ==> answer_in(Ok(response)) == Err::<crate::json::JsonView, _>(
            "Supervisor API error: "@ + response.answer.status@,
        ),
        answer_in(Err(e)) == Err::<crate::json::JsonView, _>(e@),
{
}

} // verus!
