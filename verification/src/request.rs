//! Describing an outbound request: method, URL, headers and body.
//!
//! Nothing here sends anything. A request is a plain value that a transport of
//! the caller's choice carries out.

use vstd::prelude::*;
use vstd::utf8::encode_utf8;
use crate::client::LineLoginClient;

verus! {

#[derive(Debug, Clone, Copy, PartialEq, Eq, Structural)]
pub enum LineHttpMethod {
    Get,
    Post,
}

/// A request as the transport is to send it. The headers go out in the order
/// in which they are listed.
#[derive(Debug, Clone)]
pub struct LineRequest {
    pub method: LineHttpMethod,
    pub url: String,
    pub headers: Vec<(String, String)>,
    pub body: String,
}

pub struct LineRequestView {
    pub method: LineHttpMethod,
    pub url: Seq<char>,
    pub headers: Seq<(Seq<char>, Seq<char>)>,
    pub body: Seq<char>,
}

impl View for LineRequest {
    type V = LineRequestView;

    open spec fn view(&self) -> LineRequestView {
        LineRequestView {
            method: self.method,
            url: self.url@,
            headers: self.headers.deep_view(),
            body: self.body@,
        }
    }
}

/// Whether the form encoding leaves a byte as it is: `*`, `-`, `.`, `_`, the
/// digits and the ASCII letters.
pub open spec fn form_unchanged(byte: u8) -> bool {
    ||| byte == 0x2A
    ||| byte == 0x2D
    ||| byte == 0x2E
    ||| 0x30 <= byte <= 0x39
    ||| 0x41 <= byte <= 0x5A
    ||| byte == 0x5F
    ||| 0x61 <= byte <= 0x7A
}

/// The upper-case hexadecimal digit for a value below 16.
pub open spec fn hex_upper(digit: u8) -> char {
    if digit < 10 {
        (0x30 + digit) as char
    } else {
        (0x37 + digit) as char
    }
}

/// The form encoding of one byte: itself, `+` for a space, else `%` and two
/// hexadecimal digits.
pub open spec fn form_byte(byte: u8) -> Seq<char> {
    if form_unchanged(byte) {
        seq![byte as char]
    } else if byte == 0x20 {
        seq!['+']
    } else {
        seq!['%', hex_upper(byte / 16), hex_upper(byte % 16)]
    }
}

/// The form encoding of a run of bytes.
pub open spec fn form_bytes(bytes: Seq<u8>) -> Seq<char>
    decreases bytes.len(),
{
    if bytes.len() == 0 {
        Seq::empty()
    } else {
        form_bytes(bytes.drop_last()) + form_byte(bytes.last())
    }
}

/// The form encoding of a text: that of its UTF-8 bytes.
pub open spec fn form_text(text: Seq<char>) -> Seq<char> {
    form_bytes(encode_utf8(text))
}

/// One field of a form: name, `=`, value.
pub open spec fn form_pair(field: (Seq<char>, Seq<char>)) -> Seq<char> {
    form_text(field.0) + seq!['='] + form_text(field.1)
}

/// A form body: the fields in order, with `&` between them.
pub open spec fn form_body(fields: Seq<(Seq<char>, Seq<char>)>) -> Seq<char>
    decreases fields.len(),
{
    if fields.len() == 0 {
        Seq::empty()
    } else if fields.len() == 1 {
        form_pair(fields[0])
    } else {
        form_body(fields.drop_last()) + seq!['&'] + form_pair(fields.last())
    }
}

/// The headers of every request: the content type, and the bearer token where
/// one is given. An empty token sends no authorization header at all.
pub open spec fn request_headers(token: Seq<char>) -> Seq<(Seq<char>, Seq<char>)> {
    if token.len() == 0 {
        seq![("Content-Type"@, "application/x-www-form-urlencoded"@)]
    } else {
        seq![
            ("Content-Type"@, "application/x-www-form-urlencoded"@),
            ("Authorization"@, "Bearer "@ + token),
        ]
    }
}

/// A request without a body yet.
pub open spec fn request_head(url: Seq<char>, method: LineHttpMethod, token: Seq<char>)
    -> LineRequestView {
    LineRequestView { method, url, headers: request_headers(token), body: Seq::empty() }
}

/// The GET request for a URL. It carries the empty JSON object as its body; a
/// query belongs in the URL.
pub open spec fn get_request(url: Seq<char>, token: Seq<char>) -> LineRequestView {
    LineRequestView { body: "{}"@, ..request_head(url, LineHttpMethod::Get, token) }
}

/// The POST request that sends `fields` as a form.
pub open spec fn post_request(
    url: Seq<char>,
    fields: Seq<(Seq<char>, Seq<char>)>,
    token: Seq<char>,
) -> LineRequestView {
    LineRequestView { body: form_body(fields), ..request_head(url, LineHttpMethod::Post, token) }
}

/// A payload that is sent as a form.
pub trait FormPayload {
    /// The fields of the form, in the order in which they are sent.
    spec fn form_spec(&self) -> Seq<(Seq<char>, Seq<char>)>;

    fn form_fields(&self) -> (fields: Vec<(String, String)>)
        ensures
            fields.deep_view() == self.form_spec(),
    ;
}

/// `form_urlencoded::byte_serialize` over the bytes of a text, its pieces
/// joined: each byte is encoded by itself, as `form_byte` says.
#[verifier::external_body]
fn form_component(text: &str) -> (encoded: String)
    ensures
        encoded@ == form_text(text@),
{
    form_urlencoded::byte_serialize(text.as_bytes()).collect()
}

/// Encodes the fields of a form as a request body.
pub fn encode_form(fields: &Vec<(String, String)>) -> (body: String)
    ensures
        body@ == form_body(fields.deep_view()),
{
    let ghost all = fields.deep_view();
    let mut body = String::new();
    let mut i: usize = 0;
    while i < fields.len()
        invariant
            i <= fields.len(),
            all == fields.deep_view(),
            body@ == form_body(all.take(i as int)),
        decreases fields.len() - i,
    {
        let ghost before = all.take(i as int);
        let ghost upto = all.take(i + 1);
        if i > 0 {
            body.append("&");
        }
        let name = form_component(fields[i].0.as_str());
        let value = form_component(fields[i].1.as_str());
        body.append(name.as_str());
        body.append("=");
        body.append(value.as_str());
        proof {
            reveal_strlit("&");
            reveal_strlit("=");
            assert(upto.drop_last() =~= before);
            assert(upto.last() == all[i as int]);
            assert(all[i as int] == (fields[i as int].0@, fields[i as int].1@));
            assert("&"@ =~= seq!['&']);
            assert("="@ =~= seq!['=']);
            assert(body@ =~= form_body(upto));
        }
        i += 1;
    }
    assert(all.take(fields.len() as int) =~= all);
    body
}

/// Starts a request: method, URL and headers, no body yet.
pub fn build_request(url: &str, method: LineHttpMethod, token: &str) -> (request: LineRequest)
    ensures
        request@ == request_head(url@, method, token@),
{
    let mut headers: Vec<(String, String)> = Vec::new();
    headers.push(("Content-Type".to_owned(), "application/x-www-form-urlencoded".to_owned()));
    if !token.is_empty() {
        let mut bearer = "Bearer ".to_owned();
        bearer.append(token);
        headers.push(("Authorization".to_owned(), bearer));
    }
    let request = LineRequest { method, url: url.to_owned(), headers, body: String::new() };
    assert(request@.headers =~= request_headers(token@));
    request
}

impl LineLoginClient {
    /// Describes a GET request.
    pub fn http_get(&self, url: &str, access_token: &str) -> (request: LineRequest)
        ensures
            request@ == get_request(url@, access_token@),
    {
        let mut request = build_request(url, LineHttpMethod::Get, access_token);
        request.body = "{}".to_owned();
        request
    }

    /// Describes a POST request that sends `value` as a form.
    pub fn http_post<P: FormPayload>(&self, url: &str, value: P, access_token: &str) -> (request:
        LineRequest)
        ensures
            request@ == post_request(url@, value.form_spec(), access_token@),
    {
        let mut request = build_request(url, LineHttpMethod::Post, access_token);
        let fields = value.form_fields();
        request.body = encode_form(&fields);
        request
    }
}

} // verus!
