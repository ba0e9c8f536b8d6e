//! The HTTP signaling endpoint's decisions: which route a request takes and
//! which reply an offer/answer exchange ends in.

use vstd::prelude::*;
use vstd::string::StringSliceAdditionalSpecFns;
use vstd::utf8::encode_utf8_decode_utf8;

verus! {

pub const STATUS_OK: u16 = 200;
pub const STATUS_NOT_FOUND: u16 = 404;
pub const STATUS_INTERNAL_SERVER_ERROR: u16 = 500;

#[derive(Clone, Copy, Debug, PartialEq, Eq, Structural)]
pub enum HttpMethod {
    Get,
    Post,
    Other,
}

#[derive(Clone, Copy, Debug, PartialEq, Eq, Structural)]
pub enum Route {
    /// `POST /sdp`: an SDP offer to answer.
    Offer,
    /// `GET /`: the test page.
    Index,
    /// `GET /favicon.ico`: an empty page.
    Favicon,
    NotFound,
}

/// Why an offer/answer exchange produced no answer.
#[derive(Clone, Copy, Debug, PartialEq, Eq, Structural)]
pub enum SignalError {
    /// The request body is not a JSON-encoded SDP offer.
    BadOffer,
    /// The answer could not be encoded as JSON.
    AnswerSerialization,
    /// The orchestrator dropped the answer channel without sending.
    NoAnswer,
}

#[derive(Clone, Debug)]
pub enum ReplyBody {
    Empty,
    IndexPage,
    /// The JSON-encoded SDP answer.
    Answer(String),
}

#[derive(Clone, Debug)]
pub struct HttpReply {
    pub status: u16,
    pub body: ReplyBody,
}

pub open spec fn route_of(method: HttpMethod, path: Seq<char>) -> Route {
    if method == HttpMethod::Post && path == "/sdp"@ {
        Route::Offer
    } else if method == HttpMethod::Get && path == "/"@ {
        Route::Index
    } else if method == HttpMethod::Get && path == "/favicon.ico"@ {
        Route::Favicon
    } else {
        Route::NotFound
    }
}

/// Compares two strings by their bytes.
pub fn str_equal(a: &str, b: &str) -> (r: bool)
    ensures
        r == (a@ == b@),
{
    let x = a.as_bytes();
    let y = b.as_bytes();
    let n = x.len();
    if n != y.len() {
        return false;
    }
    let mut k: usize = 0;
    while k < n
        invariant
            n == x@.len(),
            n == y@.len(),
            x@ == a.spec_bytes(),
            y@ == b.spec_bytes(),
            k <= n,
            forall|j: int| 0 <= j < k ==> x@[j] == y@[j],
        decreases n - k,
    {
        if x[k] != y[k] {
            return false;
        }
        k = k + 1;
    }
    proof {
        assert(x@ =~= y@);
        encode_utf8_decode_utf8(a@);
        encode_utf8_decode_utf8(b@);
    }
    true
}

/// The route of a request.
pub fn route(method: HttpMethod, path: &str) -> (r: Route)
    ensures
        r == route_of(method, path@),
{
    match method {
        HttpMethod::Post => {
            if str_equal(path, "/sdp") {
                Route::Offer
            } else {
                Route::NotFound
            }
        },
        HttpMethod::Get => {
            if str_equal(path, "/") {
                Route::Index
            } else if str_equal(path, "/favicon.ico") {
                Route::Favicon
            } else {
                Route::NotFound
            }
        },
        HttpMethod::Other => Route::NotFound,
    }
}

/// The reply of a route that needs no exchange; `None` for the offer route.
pub fn static_reply(route: Route) -> (r: Option<HttpReply>)
    ensures
        route == Route::Offer ==> r is None,
        route == Route::Index ==> (r matches Some(h) && h.status == STATUS_OK && h.body is IndexPage),
        route == Route::Favicon ==> (r matches Some(h) && h.status == STATUS_OK && h.body is Empty),
        route == Route::NotFound ==> (r matches Some(h) && h.status == STATUS_NOT_FOUND && h.body is Empty),
{
    match route {
        Route::Offer => None,
        Route::Index => Some(HttpReply { status: STATUS_OK, body: ReplyBody::IndexPage }),
        Route::Favicon => Some(HttpReply { status: STATUS_OK, body: ReplyBody::Empty }),
        Route::NotFound => Some(HttpReply { status: STATUS_NOT_FOUND, body: ReplyBody::Empty }),
    }
}

/// The reply to an offer: the encoded answer with 200, or 500 with an empty
/// body whatever went wrong.
pub fn offer_reply(outcome: Result<String, SignalError>) -> (r: HttpReply)
    ensures
        outcome matches Ok(a) ==> r.status == STATUS_OK && (r.body matches ReplyBody::Answer(b) && b@ == a@),
        outcome is Err ==> r.status == STATUS_INTERNAL_SERVER_ERROR && r.body is Empty,
{
    match outcome {
        Ok(answer) => HttpReply { status: STATUS_OK, body: ReplyBody::Answer(answer) },
        Err(_) => HttpReply { status: STATUS_INTERNAL_SERVER_ERROR, body: ReplyBody::Empty },
    }
}

} // verus!
