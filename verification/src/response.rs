//! HTTP responses: a status code, a header list (last write wins for a
//! repeated name), and a body of text or raw bytes.

use vstd::prelude::*;

verus! {

/// A response body: plain or structured text, or raw bytes.
#[derive(Debug)]
pub enum Body {
    Text(String),
    Bytes(Vec<u8>),
}

/// The mathematical model of a [`Body`].
pub ghost enum BodyView {
    Text(Seq<char>),
    Bytes(Seq<u8>),
}

impl View for Body {
    type V = BodyView;

    open spec fn view(&self) -> BodyView {
        match self {
            Body::Text(s) => BodyView::Text(s@),
            Body::Bytes(b) => BodyView::Bytes(b@),
        }
    }
}

/// An outbound HTTP response. Produced exactly once per request.
#[derive(Debug)]
pub struct Response {
    pub status: u16,
    pub headers: Vec<(String, String)>,
    pub body: Body,
}

/// The mathematical model of a [`Response`].
pub ghost struct ResponseView {
    pub status: u16,
    pub headers: Seq<(Seq<char>, Seq<char>)>,
    pub body: BodyView,
}

impl View for Response {
    type V = ResponseView;

    open spec fn view(&self) -> ResponseView {
        ResponseView {
            status: self.status,
            headers: self.headers@.map_values(|p: (String, String)| (p.0@, p.1@)),
            body: self.body@,
        }
    }
}

/// The value a header name resolves to: the last entry under that name
/// wins; `None` if the name was never set.
pub open spec fn header_value(hs: Seq<(Seq<char>, Seq<char>)>, name: Seq<char>) -> Option<Seq<char>>
    decreases hs.len(),
{
    if hs.len() == 0 {
        None::<Seq<char>>
    } else if hs.last().0 == name {
        Some(hs.last().1)
    } else {
        header_value(hs.drop_last(), name)
    }
}

impl Response {
    /// A response with the given status and a single `content-type`
    /// header, and the given text as its body.
    pub fn with_text(status: u16, content_type: &str, text: String) -> (r: Response)
        ensures
            r@.status == status,
            r@.headers =~= seq![("content-type"@, content_type@)],
            r@.body == BodyView::Text(text@),
    {
        let mut headers: Vec<(String, String)> = Vec::new();
        headers.push((String::from_str("content-type"), content_type.to_owned()));
        Response { status, headers, body: Body::Text(text) }
    }

    /// A `200 OK` response carrying a fixed HTML page
    /// (`content-type: text/html; charset=utf-8`).
    pub fn from_html(html: &str) -> (r: Response)
        ensures
            r@.status == 200,
            r@.headers =~= seq![("content-type"@, "text/html; charset=utf-8"@)],
            r@.body == BodyView::Text(html@),
    {
        Self::with_text(200, "text/html; charset=utf-8", html.to_owned())
    }

    /// A `200 OK` response carrying plain text
    /// (`content-type: text/plain; charset=utf-8`).
    pub fn ok(text: String) -> (r: Response)
        ensures
            r@.status == 200,
            r@.headers =~= seq![("content-type"@, "text/plain; charset=utf-8"@)],
            r@.body == BodyView::Text(text@),
    {
        Self::with_text(200, "text/plain; charset=utf-8", text)
    }

    /// A `200 OK` response carrying structured JSON text
    /// (`content-type: application/json`).
    pub fn from_json_text(json: String) -> (r: Response)
        ensures
            r@.status == 200,
            r@.headers =~= seq![("content-type"@, "application/json"@)],
            r@.body == BodyView::Text(json@),
    {
        Self::with_text(200, "application/json", json)
    }

    /// A `200 OK` response carrying raw bytes
    /// (`content-type: application/octet-stream` until overwritten).
    pub fn from_bytes(bytes: Vec<u8>) -> (r: Response)
        ensures
            r@.status == 200,
            r@.headers =~= seq![("content-type"@, "application/octet-stream"@)],
            r@.body == BodyView::Bytes(bytes@),
    {
        let mut headers: Vec<(String, String)> = Vec::new();
        headers.push((String::from_str("content-type"), String::from_str(
            "application/octet-stream",
        )));
        Response { status: 200, headers, body: Body::Bytes(bytes) }
    }

    /// An error response: the given message as a plain body under the
    /// given client- or server-error status.
    pub fn error(msg: String, status: u16) -> (r: Response)
        requires
            400 <= status <= 599,
        ensures
            r@.status == status,
            r@.headers =~= Seq::<(Seq<char>, Seq<char>)>::empty(),
            r@.body == BodyView::Text(msg@),
    {
        Response { status, headers: Vec::new(), body: Body::Text(msg) }
    }

    /// Appends a header; a later entry under the same name overrides an
    /// earlier one.
    pub fn set_header(&mut self, name: &str, value: &str)
        ensures
            final(self)@.status == old(self)@.status,
            final(self)@.body == old(self)@.body,
            final(self)@.headers =~= old(self)@.headers.push((name@, value@)),
            header_value(final(self)@.headers, name@) == Some(value@),
    {
        self.headers.push((name.to_owned(), value.to_owned()));
        proof {
            assert(self@.headers =~= old(self)@.headers.push((name@, value@)));
            assert(self@.headers.last() == (name@, value@));
        }
    }
}

} // verus!
