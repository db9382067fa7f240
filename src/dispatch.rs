use vstd::prelude::*;
use vstd::string::*;

use crate::code::OK;
use crate::error::Error;
use crate::json::{FromJson, Json};

verus! {

/// Root of every resource of the service.
pub const API_BASE: &'static str = "https://translation.googleapis.com/v3beta1/";


/// The HTTP methods the service is called with.
#[derive(Debug, Clone, Copy, PartialEq, Eq, Structural)]
pub enum Method {
    Get,
    Post,
    Delete,
}

/// What a call carries besides its URL and headers.
#[derive(Debug)]
pub enum Payload {
    /// Nothing.
    NoBody,
    /// A JSON request body.
    Body(Json),
    /// Query parameters, URL-encoded after a `?`.
    Query(Vec<(String, String)>),
}

/// One HTTP round trip, ready to be sent.
#[derive(Debug)]
pub struct HttpCall {
    pub method: Method,
    pub url: String,
    /// Whether the `Content-Type: application/json` header is attached.
    pub json_content_type: bool,
    /// The value of the `Authorization` header.
    pub authorization: String,
    pub body: Option<Json>,
    /// Whether the answer to a successful call is decoded; when not, its body is ignored.
    pub expects_body: bool,
}

/// `c` has the Unicode White_Space property, as `char::is_whitespace` tests.
pub open spec fn is_white_space(c: char) -> bool {
    ('\u{9}' <= c <= '\u{d}') || c == ' ' || c == '\u{85}' || c == '\u{a0}' || c == '\u{1680}'
        || ('\u{2000}' <= c <= '\u{200a}') || c == '\u{2028}' || c == '\u{2029}' || c == '\u{202f}'
        || c == '\u{205f}' || c == '\u{3000}'
}

/// `s` without its leading white space.
pub open spec fn trim_start(s: Seq<char>) -> Seq<char>
    decreases s.len(),
{
    if s.len() > 0 && is_white_space(s[0]) {
        trim_start(s.drop_first())
    } else {
        s
    }
}

/// `s` without its trailing white space.
pub open spec fn trim_end(s: Seq<char>) -> Seq<char>
    decreases s.len(),
{
    if s.len() > 0 && is_white_space(s.last()) {
        trim_end(s.drop_last())
    } else {
        s
    }
}

/// `s` without its leading and trailing white space.
pub open spec fn trimmed(s: Seq<char>) -> Seq<char> {
    trim_end(trim_start(s))
}

/// The URL-encoded form of the pairs `p`, in order.
pub uninterp spec fn form_encoded(p: Seq<(Seq<char>, Seq<char>)>) -> Seq<char>;

/// The pairs of strings `p` as character sequences.
pub open spec fn pairs_view(p: Seq<(String, String)>) -> Seq<(Seq<char>, Seq<char>)> {
    p.map_values(|x: (String, String)| (x.0@, x.1@))
}

/// `s` consists of white space only.
pub open spec fn all_white_space(s: Seq<char>) -> bool {
    forall|i: int| 0 <= i < s.len() ==> is_white_space(#[trigger] s[i])
}

proof fn lemma_trim_start_padded(p: Seq<char>, x: Seq<char>)
    requires
        all_white_space(p),
    ensures
        trim_start(p + x) == trim_start(x),
    decreases p.len(),
{
    if p.len() == 0 {
        assert(p + x =~= x);
    } else {
        assert((p + x)[0] == p[0]);
        assert((p + x).drop_first() =~= p.drop_first() + x);
        lemma_trim_start_padded(p.drop_first(), x);
    }
}

proof fn lemma_trim_end_padded(x: Seq<char>, q: Seq<char>)
    requires
        all_white_space(q),
    ensures
        trim_end(x + q) == trim_end(x),
    decreases q.len(),
{
    if q.len() == 0 {
        assert(x + q =~= x);
    } else {
        assert((x + q).last() == q.last());
        assert((x + q).drop_last() =~= x + q.drop_last());
        lemma_trim_end_padded(x, q.drop_last());
    }
}

proof fn lemma_trimmed_padded_end(t: Seq<char>, q: Seq<char>)
    requires
        all_white_space(q),
    ensures
        trim_end(trim_start(t + q)) == trim_end(trim_start(t)),
    decreases t.len(),
{
    if t.len() == 0 {
        assert(t + q =~= q);
        lemma_trim_start_padded(q, seq![]);
        assert(q + seq![] =~= q);
    } else if is_white_space(t[0]) {
        assert((t + q)[0] == t[0]);
        assert((t + q).drop_first() =~= t.drop_first() + q);
        lemma_trimmed_padded_end(t.drop_first(), q);
    } else {
        assert((t + q)[0] == t[0]);
        lemma_trim_end_padded(t, q);
    }
}

/// White space around an access token does not change the `Authorization`
/// header: the token padded by white space `p` before and `q` after trims to
/// what the token alone trims to.
pub proof fn lemma_bearer_ignores_padding(p: Seq<char>, t: Seq<char>, q: Seq<char>)
    requires
        all_white_space(p),
        all_white_space(q),
    ensures
        trimmed(p + t + q) == trimmed(t),
        "Bearer "@ + trimmed(p + t + q) == "Bearer "@ + trimmed(t),
{
    assert(p + t + q =~= p + (t + q));
    lemma_trim_start_padded(p, t + q);
    lemma_trimmed_padded_end(t, q);
}

/// Relies on `str::trim`: the string without the leading and trailing
/// characters for which `char::is_whitespace` holds.
#[verifier::external_body]
fn trim(s: &str) -> (r: &str)
    ensures
        r@ == trimmed(s@),
{
    s.trim()
}

/// Relies on `serde_urlencoded::to_string` over a sequence of pairs, which
/// writes `key=value` for each pair, in order, joined by `&`. Its pair
/// serializer takes every pair of strings, so the call does not fail here.
#[verifier::external_body]
fn urlencode(pairs: &Vec<(String, String)>) -> (r: String)
    ensures
        r@ == form_encoded(pairs_view(pairs@)),
{
    serde_urlencoded::to_string(pairs).unwrap_or_default()
}

/// The value of the `Authorization` header for an access token.
pub fn bearer(access_token: &str) -> (r: String)
    ensures
        r@ == "Bearer "@ + trimmed(access_token@),
{
    let mut r = String::from_str("Bearer ");
    r.append(trim(access_token));
    r
}

/// `API_BASE` followed by `parts`, joined in order.
pub open spec fn api_url(parts: Seq<char>) -> Seq<char> {
    API_BASE@ + parts
}

/// The URL of a resource given by its full name (`projects/.../operations/...`).
pub fn resource_url(name: &str, suffix: &str) -> (r: String)
    ensures
        r@ == api_url(name@ + suffix@),
{
    let mut r = String::from_str(API_BASE);
    r.append(name);
    r.append(suffix);
    assert(r@ =~= api_url(name@ + suffix@));
    r
}

/// The URL of a location: `projects/{project}/locations/{location}`, then `suffix`.
pub fn location_url(project_id: &str, location_id: &str, suffix: &str) -> (r: String)
    ensures
        r@ == api_url("projects/"@ + project_id@ + "/locations/"@ + location_id@ + suffix@),
{
    let mut r = String::from_str(API_BASE);
    r.append("projects/");
    r.append(project_id);
    r.append("/locations/");
    r.append(location_id);
    r.append(suffix);
    assert(r@ =~= api_url("projects/"@ + project_id@ + "/locations/"@ + location_id@ + suffix@));
    r
}

/// Prepares a round trip with an optional JSON body: the JSON content type
/// and the bearer token, trimmed of surrounding whitespace, on every call.
pub fn build_call(method: Method, url: String, access_token: &str, body: Option<Json>, expects_body: bool) -> (r: HttpCall)
    ensures
        r.method == method,
        r.url == url,
        r.json_content_type,
        r.authorization@ == "Bearer "@ + trimmed(access_token@),
        r.body == body,
        r.expects_body == expects_body,
{
    let authorization = bearer(access_token);
    let json_content_type = true;
    HttpCall { method, url, json_content_type, authorization, body, expects_body }
}

/// The URL a call is sent to: `url`, then `?` and the encoded query when there is one.
pub open spec fn call_url(url: Seq<char>, payload: Payload) -> Seq<char> {
    match payload {
        Payload::Query(q) => url + "?"@ + form_encoded(pairs_view(q@)),
        _ => url,
    }
}

/// Prepares one round trip: the JSON content type and the bearer token,
/// trimmed of surrounding whitespace, on every call, and the payload as
/// body or URL-encoded query.
pub fn prepare_call(method: Method, url: String, access_token: &str, payload: Payload, expects_body: bool) -> (r: HttpCall)
    ensures
        r.method == method,
        r.url@ == call_url(url@, payload),
        r.json_content_type,
        r.authorization@ == "Bearer "@ + trimmed(access_token@),
        r.body == (match payload {
            Payload::Body(j) => Some(j),
            _ => None,
        }),
        r.expects_body == expects_body,
{
    match payload {
        Payload::NoBody => build_call(method, url, access_token, None, expects_body),
        Payload::Body(j) => build_call(method, url, access_token, Some(j), expects_body),
        Payload::Query(q) => {
            let encoded = urlencode(&q);
            let mut full = url;
            full.append("?");
            full.append(encoded.as_str());
            build_call(method, full, access_token, None, expects_body)
        },
    }
}

/// Classifies the answer to a call from its status and its body read as
/// JSON (`Err` with the reason where the body is not JSON).
///
/// Status 200 succeeds: with no body when none is expected, whatever was
/// sent; else with the JSON body. Any other status is the service's error,
/// carried with its JSON body; a body that is not JSON is a decode error.
pub fn classify_reply(status: u16, body: Result<Json, String>, expects_body: bool) -> (r: Result<Option<Json>, Error>)
    ensures
        status == OK && !expects_body ==> r == Ok::<Option<Json>, Error>(None),
        status == OK && expects_body ==> r == (match body {
            Ok(j) => Ok(Some(j)),
            Err(e) => Err(Error::SerdeJsonError(e)),
        }),
        status != OK ==> r == (match body {
            Ok(j) => Err(Error::ResponseError(status, j)),
            Err(e) => Err::<Option<Json>, Error>(Error::SerdeJsonError(e)),
        }),
{
    if status == OK {
        if !expects_body {
            Ok(None)
        } else {
            match body {
                Ok(j) => Ok(Some(j)),
                Err(e) => Err(Error::SerdeJsonError(e)),
            }
        }
    } else {
        match body {
            Ok(j) => Err(Error::ResponseError(status, j)),
            Err(e) => Err(Error::SerdeJsonError(e)),
        }
    }
}

/// Completes a call whose successful answer is a `T`: at status 200 the
/// JSON body is read as a `T`, and a body that does not fit is a decode
/// error; any other status is classified as `classify_reply` does.
pub fn finish_call<T: FromJson>(status: u16, body: Result<Json, String>) -> (r: Result<T, Error>)
    ensures
        status == OK ==> match body {
            Ok(j) => if T::accepts(j) {
                r is Ok && T::represents(j, r->Ok_0)
            } else {
                r matches Err(Error::SerdeJsonError(_))
            },
            Err(e) => r == Err::<T, Error>(Error::SerdeJsonError(e)),
        },
        status != OK ==> match body {
            Ok(j) => r == Err::<T, Error>(Error::ResponseError(status, j)),
            Err(e) => r == Err::<T, Error>(Error::SerdeJsonError(e)),
        },
{
    if status == OK {
        match body {
            Ok(j) => match T::from_json(j) {
                Some(v) => Ok(v),
                None => Err(Error::SerdeJsonError(String::from_str("the body does not match the expected schema"))),
            },
            Err(e) => Err(Error::SerdeJsonError(e)),
        }
    } else {
        match body {
            Ok(j) => Err(Error::ResponseError(status, j)),
            Err(e) => Err(Error::SerdeJsonError(e)),
        }
    }
}

/// Completes a call whose successful answer carries nothing: status 200
/// succeeds whatever the body; any other status is classified as
/// `classify_reply` does.
pub fn finish_empty_call(status: u16, body: Result<Json, String>) -> (r: Result<(), Error>)
    ensures
        status == OK ==> r is Ok,
        status != OK ==> match body {
            Ok(j) => r == Err::<(), Error>(Error::ResponseError(status, j)),
            Err(e) => r == Err::<(), Error>(Error::SerdeJsonError(e)),
        },
{
    match classify_reply(status, body, false) {
        Ok(_) => Ok(()),
        Err(e) => Err(e),
    }
}

} // verus!
