//! Responses that a device sends: status line, headers and body, decided
//! here and written out by the server.
use vstd::prelude::*;
use vstd::slice::slice_to_vec;

mod private;

verus! {

/// The bytes of a text.
pub open spec fn spec_bytes_of(text: Seq<char>) -> Seq<u8> {
    vstd::utf8::encode_utf8(text)
}

/// Response headers.
#[derive(Debug)]
pub struct Headers {
    /// The status code.
    pub status: u16,
    /// The reason phrase that goes with the status code.
    pub message: &'static str,
    /// The header lines, each a name and a value.
    pub content_type: Vec<(&'static str, &'static str)>,
}

impl Headers {
    /// The header lines by their characters.
    pub open spec fn lines(&self) -> Seq<(Seq<char>, Seq<char>)> {
        Seq::new(
            self.content_type@.len(),
            |i: int| (self.content_type@[i].0@, self.content_type@[i].1@),
        )
    }

    /// Status 200 without header lines.
    pub fn ok() -> (r: Self)
        ensures
            r.status == 200,
            r.message@ == "Ok"@,
            r.lines() == Seq::<(Seq<char>, Seq<char>)>::empty(),
    {
        let r = Self { status: 200, message: "Ok", content_type: Vec::new() };
        r
    }

    /// Status 404 without header lines.
    pub fn not_found() -> (r: Self)
        ensures
            r.status == 404,
            r.message@ == "Not Found"@,
            r.lines() == Seq::<(Seq<char>, Seq<char>)>::empty(),
    {
        let r = Self { status: 404, message: "Not Found", content_type: Vec::new() };
        r
    }

    /// Status 405 without header lines.
    pub fn not_allowed() -> (r: Self)
        ensures
            r.status == 405,
            r.message@ == "Method Not Allowed"@,
            r.lines() == Seq::<(Seq<char>, Seq<char>)>::empty(),
    {
        let r = Self { status: 405, message: "Method Not Allowed", content_type: Vec::new() };
        r
    }

    /// Status 200 with the content type of plain text.
    pub fn text() -> (r: Self)
        ensures
            r.status == 200,
            r.message@ == "Ok"@,
            r.lines() == seq![("Content-Type"@, "text/plain"@)],
    {
        let mut content_type = Vec::new();
        content_type.push(("Content-Type", "text/plain"));
        let r = Self { status: 200, message: "Ok", content_type };
        r
    }

    /// Status 200 with the content type of a document.
    pub fn json() -> (r: Self)
        ensures
            r.status == 200,
            r.message@ == "Ok"@,
            r.lines() == seq![("Content-Type"@, "application/json"@)],
    {
        let mut content_type = Vec::new();
        content_type.push(("Content-Type", "application/json"));
        let r = Self { status: 200, message: "Ok", content_type };
        r
    }
}

/// A response body.
#[derive(Debug)]
pub struct Body {
    /// The bytes of the body.
    pub bytes: Vec<u8>,
}

impl View for Body {
    type V = Seq<u8>;

    open spec fn view(&self) -> Seq<u8> {
        self.bytes@
    }
}

impl Body {
    /// A body without bytes.
    pub fn empty() -> (r: Self)
        ensures
            r@ == Seq::<u8>::empty(),
    {
        Self { bytes: Vec::new() }
    }

    /// A body with the bytes of `v`.
    pub fn static_ref(v: &'static [u8]) -> (r: Self)
        ensures
            r@ == v@,
    {
        Self { bytes: slice_to_vec(v) }
    }

    /// A body with the bytes of `v`.
    pub fn owned(v: Vec<u8>) -> (r: Self)
        ensures
            r@ == v@,
    {
        Self { bytes: v }
    }
}

/// A server response.
#[derive(Debug)]
pub struct Response {
    /// Status and header lines.
    pub headers: Headers,
    /// The body.
    pub body: Body,
}

impl Response {
    /// A response of these headers and this body.
    pub fn new(headers: Headers, body: Body) -> (r: Response)
        ensures
            r.headers == headers,
            r.body == body,
    {
        Self { headers, body }
    }
}

/// Trait for converting a type into a [`Response`].
///
/// Types implementing [`IntoResponse`] can be returned directly from
/// request handlers. The trait is sealed: other crates cannot implement it.
pub trait IntoResponse: Sized + private::Sealed {
    /// Converts a type into a [`Response`].
    fn into_response(self) -> Response;
}

/// The body that goes with a status when there is no content.
pub open spec fn spec_empty_body(status: u16) -> Seq<u8> {
    if status == 200 {
        spec_bytes_of("OK"@)
    } else if status == 405 {
        spec_bytes_of("Method not allowed"@)
    } else {
        Seq::empty()
    }
}

/// A response with no content.
#[derive(Debug)]
pub struct EmptyResponse(pub Headers);

impl private::Sealed for EmptyResponse {

}

impl IntoResponse for EmptyResponse {
    /// Keeps the headers and adds the short body that goes with the status.
    fn into_response(self) -> (r: Response)
        ensures
            r.headers == self.0,
            r.body@ == spec_empty_body(self.0.status),
    {
        let body = if self.0.status == 200 {
            Body::static_ref("OK".as_bytes())
        } else if self.0.status == 405 {
            Body::static_ref("Method not allowed".as_bytes())
        } else {
            Body::empty()
        };
        Response::new(self.0, body)
    }
}

impl EmptyResponse {
    /// Creates an [`EmptyResponse`] with an `Ok` status.
    pub fn ok() -> (r: Self)
        ensures
            r.0.status == 200,
            r.0.message@ == "Ok"@,
            r.0.lines() == Seq::<(Seq<char>, Seq<char>)>::empty(),
    {
        Self(Headers::ok())
    }

    /// Creates an [`EmptyResponse`] with a `NotFound` status.
    pub fn not_found() -> (r: Self)
        ensures
            r.0.status == 404,
            r.0.message@ == "Not Found"@,
            r.0.lines() == Seq::<(Seq<char>, Seq<char>)>::empty(),
    {
        Self(Headers::not_found())
    }

    /// Creates an [`EmptyResponse`] with a `NotAllowed` status.
    pub fn not_allowed() -> (r: Self)
        ensures
            r.0.status == 405,
            r.0.message@ == "Method Not Allowed"@,
            r.0.lines() == Seq::<(Seq<char>, Seq<char>)>::empty(),
    {
        Self(Headers::not_allowed())
    }
}

/// A textual response.
#[derive(Debug)]
pub struct TextResponse {
    /// Status and header lines.
    pub headers: Headers,
    /// The text to send.
    pub text: &'static str,
}

impl TextResponse {
    /// Creates a [`TextResponse`] with an `Ok` status.
    pub fn new(text: &'static str) -> (r: Self)
        ensures
            r.text@ == text@,
            r.headers.status == 200,
            r.headers.message@ == "Ok"@,
            r.headers.lines() == seq![("Content-Type"@, "text/plain"@)],
    {
        Self { headers: Headers::text(), text }
    }
}

impl private::Sealed for TextResponse {

}

impl IntoResponse for TextResponse {
    /// Keeps the headers; the body is the bytes of the text.
    fn into_response(self) -> (r: Response)
        ensures
            r.headers == self.headers,
            r.body@ == spec_bytes_of(self.text@),
    {
        Response::new(self.headers, Body::static_ref(self.text.as_bytes()))
    }
}

/// A response that carries an encoded document.
#[derive(Debug)]
pub struct JsonResponse {
    /// Status and header lines.
    pub headers: Headers,
    /// The encoded document, or what the encoder said when it failed.
    pub json: Result<Vec<u8>, String>,
}

impl JsonResponse {
    /// Creates a [`JsonResponse`] with an `Ok` status from what the encoder
    /// returned: the bytes of the document, or its complaint.
    pub fn new(json: Result<Vec<u8>, String>) -> (r: Self)
        ensures
            r.json == json,
            r.headers.status == 200,
            r.headers.message@ == "Ok"@,
            r.headers.lines() == seq![("Content-Type"@, "application/json"@)],
    {
        Self { headers: Headers::json(), json }
    }
}

impl private::Sealed for JsonResponse {

}

impl IntoResponse for JsonResponse {
    /// Keeps the headers; the body is the encoded document, or the bytes of
    /// the encoder's complaint.
    fn into_response(self) -> (r: Response)
        ensures
            r.headers == self.headers,
            self.json is Ok ==> r.body@ == self.json->Ok_0@,
            self.json is Err ==> r.body@ == spec_bytes_of(self.json->Err_0@),
    {
        let bytes = match self.json {
            Ok(value) => value,
            Err(e) => slice_to_vec(e.as_str().as_bytes()),
        };
        Response::new(self.headers, Body::owned(bytes))
    }
}

} // verus!
