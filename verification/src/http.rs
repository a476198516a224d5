//! Requests that the bot makes over HTTP.

use vstd::prelude::*;

use crate::json::Json;

verus! {

#[derive(Clone, Copy, Debug, PartialEq, Eq, Structural)]
pub enum Method {
    Get,
    Post,
}

/// One request: query parameters are encoded and the body is sent as JSON.
pub struct HttpRequest {
    pub method: Method,
    pub url: String,
    pub query: Vec<(String, String)>,
    pub headers: Vec<(String, String)>,
    pub body: Option<Json>,
}

#[verifier::ext_equal]
pub ghost struct HttpRequestView {
    pub method: Method,
    pub url: Seq<char>,
    pub query: Seq<(Seq<char>, Seq<char>)>,
    pub headers: Seq<(Seq<char>, Seq<char>)>,
    pub body: Option<crate::json::JsonView>,
}

impl DeepView for HttpRequest {
    type V = HttpRequestView;

    open spec fn deep_view(&self) -> HttpRequestView {
        HttpRequestView {
            method: self.method,
            url: self.url@,
            query: self.query.deep_view(),
            headers: self.headers.deep_view(),
            body: self.body.deep_view(),
        }
    }
}

/// A request without parameters, headers or body.
pub open spec fn bare(method: Method, url: Seq<char>) -> HttpRequestView {
    HttpRequestView { method, url, query: Seq::empty(), headers: Seq::empty(), body: None }
}

pub fn request(method: Method, url: String) -> (r: HttpRequest)
    ensures
        r.deep_view() == bare(method, url@),
{
    let r = HttpRequest { method, url, query: Vec::new(), headers: Vec::new(), body: None };
    assert(r.deep_view() =~= bare(method, url@));
    r
}

impl HttpRequestView {
    pub open spec fn with_query(self, name: Seq<char>, value: Seq<char>) -> HttpRequestView {
        HttpRequestView { query: self.query.push((name, value)), ..self }
    }

    pub open spec fn with_header(self, name: Seq<char>, value: Seq<char>) -> HttpRequestView {
        HttpRequestView { headers: self.headers.push((name, value)), ..self }
    }

    pub open spec fn with_body(self, body: crate::json::JsonView) -> HttpRequestView {
        HttpRequestView { body: Some(body), ..self }
    }
}

impl HttpRequest {
    pub fn query(self, name: &str, value: &str) -> (r: HttpRequest)
        ensures
            r.deep_view() == self.deep_view().with_query(name@, value@),
    {
        let mut r = self;
        r.query.push((name.to_owned(), value.to_owned()));
        assert(r.deep_view() =~= self.deep_view().with_query(name@, value@));
        r
    }

    pub fn header(self, name: &str, value: &str) -> (r: HttpRequest)
        ensures
            r.deep_view() == self.deep_view().with_header(name@, value@),
    {
        let mut r = self;
        r.headers.push((name.to_owned(), value.to_owned()));
        assert(r.deep_view() =~= self.deep_view().with_header(name@, value@));
        r
    }

    pub fn body(self, body: Json) -> (r: HttpRequest)
        ensures
            r.deep_view() == self.deep_view().with_body(body.deep_view()),
    {
        let mut r = self;
        r.body = Some(body);
        assert(r.deep_view() =~= self.deep_view().with_body(body.deep_view()));
        r
    }
}

/// How a server answered a request whose body does not matter: whether it
/// reports success, and its status line.
pub struct Answer {
    pub success: bool,
    pub status: String,
}

/// How a server answered a request for JSON: its answer, and the document in
/// its body or the text of the error that reading it gave.
pub struct Response {
    pub answer: Answer,
    pub body: Result<Json, String>,
}

/// A page: whether the server reports success, and the text.
pub struct Page {
    pub success: bool,
    pub text: String,
}

/// How a server answered a request for text: its answer, and the text in its
/// body or that of the error that reading it gave.
pub struct TextResponse {
    pub answer: Answer,
    pub body: Result<String, String>,
}

// ── Uploads ──────────────────────────────────────────────────────────────────

/// A recording sent as a form: the part with the recording, then the others.
pub struct Upload {
    pub url: String,
    pub headers: Vec<(String, String)>,
    /// The name of the part with the recording.
    pub part: String,
    pub audio: Vec<u8>,
    pub fields: Vec<(String, String)>,
}

#[verifier::ext_equal]
pub ghost struct UploadView {
    pub url: Seq<char>,
    pub headers: Seq<(Seq<char>, Seq<char>)>,
    pub part: Seq<char>,
    pub audio: Seq<u8>,
    pub fields: Seq<(Seq<char>, Seq<char>)>,
}

impl DeepView for Upload {
    type V = UploadView;

    open spec fn deep_view(&self) -> UploadView {
        UploadView {
            url: self.url@,
            headers: self.headers.deep_view(),
            part: self.part@,
            audio: self.audio@,
            fields: self.fields.deep_view(),
        }
    }
}

/// The name of the file that a recording is sent as.
pub const AUDIO_FILE: &'static str = "audio.ogg";

/// The type of that file.
pub const AUDIO_TYPE: &'static str = "audio/ogg";

/// An upload with nothing but the recording.
pub open spec fn bare_upload(url: Seq<char>, part: Seq<char>, audio: Seq<u8>) -> UploadView {
    UploadView { url, headers: Seq::empty(), part, audio, fields: Seq::empty() }
}

pub fn upload(url: String, part: &str, audio: Vec<u8>) -> (r: Upload)
    ensures
        r.deep_view() == bare_upload(url@, part@, audio@),
{
    let r = Upload { url, headers: Vec::new(), part: part.to_owned(), audio, fields: Vec::new() };
    assert(r.deep_view() =~= bare_upload(url@, part@, audio@));
    r
}

impl UploadView {
    pub open spec fn with_field(self, name: Seq<char>, value: Seq<char>) -> UploadView {
        UploadView { fields: self.fields.push((name, value)), ..self }
    }

    pub open spec fn with_header(self, name: Seq<char>, value: Seq<char>) -> UploadView {
        UploadView { headers: self.headers.push((name, value)), ..self }
    }
}

impl Upload {
    pub fn field(self, name: &str, value: &str) -> (r: Upload)
        ensures
            r.deep_view() == self.deep_view().with_field(name@, value@),
    {
        let mut r = self;
        r.fields.push((name.to_owned(), value.to_owned()));
        assert(r.deep_view() =~= self.deep_view().with_field(name@, value@));
        r
    }

    pub fn header(self, name: &str, value: &str) -> (r: Upload)
        ensures
            r.deep_view() == self.deep_view().with_header(name@, value@),
    {
        let mut r = self;
        r.headers.push((name.to_owned(), value.to_owned()));
        assert(r.deep_view() =~= self.deep_view().with_header(name@, value@));
        r
    }
}

} // verus!
