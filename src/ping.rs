//! The ping endpoint: a GET answers with a fixed message and the current
//! time; a POST may replace the message with its upper-cased form and the
//! time with a given instant moved five days forward.

use vstd::prelude::*;
use crate::timestamp::{shifted_by_days, valid_parts, UtcTimestamp, NANOS_PER_SEC};

verus! {

/// The days that a POST moves a given instant forward.
pub const POST_SHIFT_DAYS: u32 = 5;

/// The message of a response that no request changed.
pub open spec fn default_message() -> Seq<char> {
    "API is responsive"@
}

/// ASCII upper-casing of one character: 'a' to 'z' become 'A' to 'Z', every
/// other character stays as it is.
pub open spec fn upper_ascii_char(c: char) -> char {
    if 'a' <= c && c <= 'z' {
        ((c as int) - 32) as char
    } else {
        c
    }
}

/// ASCII upper-casing of a text, character by character.
pub open spec fn upper_ascii(s: Seq<char>) -> Seq<char> {
    s.map_values(|c: char| upper_ascii_char(c))
}

/// Relies on std's `str::to_ascii_uppercase`: a copy of the text in which
/// 'a' to 'z' are mapped to 'A' to 'Z' and every other character is kept.
#[verifier::external_body]
fn to_ascii_uppercase(s: &String) -> (r: String)
    ensures
        r@ == upper_ascii(s@),
{
    s.to_ascii_uppercase()
}

/// The body of a POST: each field may be absent.
#[derive(Clone, Debug, PartialEq, Eq)]
pub struct PingRequest {
    pub message_optional: Option<String>,
    pub current_date_time: Option<UtcTimestamp>,
}

pub struct PingRequestView {
    pub message_optional: Option<Seq<char>>,
    pub current_date_time: Option<(int, int)>,
}

impl View for PingRequest {
    type V = PingRequestView;

    open spec fn view(&self) -> PingRequestView {
        PingRequestView {
            message_optional: match self.message_optional {
                Some(m) => Some(m@),
                None => None,
            },
            current_date_time: match self.current_date_time {
                Some(t) => Some(t@),
                None => None,
            },
        }
    }
}

/// The answer to a GET or a POST. `always_null` is never set.
#[derive(Clone, Debug, PartialEq, Eq)]
pub struct PingResponse {
    pub message: String,
    pub always_null: Option<String>,
    pub current_date_time: UtcTimestamp,
}

pub struct PingResponseView {
    pub message: Seq<char>,
    pub always_null: Option<Seq<char>>,
    pub current_date_time: (int, int),
}

impl View for PingResponse {
    type V = PingResponseView;

    open spec fn view(&self) -> PingResponseView {
        PingResponseView {
            message: self.message@,
            always_null: match self.always_null {
                Some(m) => Some(m@),
                None => None,
            },
            current_date_time: self.current_date_time@,
        }
    }
}

/// A response with the given message and time.
pub open spec fn response_at(message: Seq<char>, at: (int, int)) -> PingResponseView {
    PingResponseView { message, always_null: None, current_date_time: at }
}

/// The response that nothing changed, made at instant `now`.
pub open spec fn default_response(now: (int, int)) -> PingResponseView {
    response_at(default_message(), now)
}

/// The message of the answer to a POST: the upper-cased message where one is
/// given, else the default.
pub open spec fn post_message(req: PingRequestView) -> Seq<char> {
    match req.message_optional {
        Some(m) => upper_ascii(m),
        None => default_message(),
    }
}

/// The time of the answer to a POST made at `now`: the given instant five
/// days on where one is given (`None` where that is out of range), else `now`.
pub open spec fn post_time(req: PingRequestView, now: (int, int)) -> Option<(int, int)> {
    match req.current_date_time {
        Some(t) => shifted_by_days(t, POST_SHIFT_DAYS as nat),
        None => Some(now),
    }
}

/// The answer to a POST handled at `now`, or `None` where the given instant
/// cannot be moved five days forward.
pub open spec fn post_response(req: PingRequestView, now: (int, int)) -> Option<PingResponseView> {
    match post_time(req, now) {
        Some(at) => Some(response_at(post_message(req), at)),
        None => None,
    }
}

impl Default for PingRequest {
    /// A request that names no field.
    fn default() -> (r: PingRequest)
        ensures
            r@.message_optional is None,
            r@.current_date_time is None,
    {
        PingRequest { message_optional: None, current_date_time: None }
    }
}

impl PingResponse {
    /// A response with `message`, made at instant `at`.
    pub fn new_at(message: String, at: UtcTimestamp) -> (r: PingResponse)
        ensures
            r@ == response_at(message@, at@),
    {
        PingResponse { message, always_null: None, current_date_time: at }
    }

    /// A response with `message`, made now.
    pub fn new(message: String) -> (r: PingResponse)
        ensures
            r@ == response_at(message@, r@.current_date_time),
            valid_parts(r@.current_date_time.0, r@.current_date_time.1),
            r@.current_date_time.1 < NANOS_PER_SEC,
    {
        PingResponse::new_at(message, UtcTimestamp::now())
    }

    /// The response that nothing changed, made at instant `now`.
    pub fn default_at(now: UtcTimestamp) -> (r: PingResponse)
        ensures
            r@ == default_response(now@),
    {
        PingResponse::new_at(String::from_str("API is responsive"), now)
    }
}

impl Default for PingResponse {
    /// The response that nothing changed, made now.
    fn default() -> (r: PingResponse)
        ensures
            r@ == default_response(r@.current_date_time),
            valid_parts(r@.current_date_time.0, r@.current_date_time.1),
            r@.current_date_time.1 < NANOS_PER_SEC,
    {
        PingResponse::default_at(UtcTimestamp::now())
    }
}

/// The answer to a GET: the default message, no `always_null`, and the
/// current time.
pub fn get_ping_response() -> (r: PingResponse)
    ensures
        r@ == default_response(r@.current_date_time),
        valid_parts(r@.current_date_time.0, r@.current_date_time.1),
        r@.current_date_time.1 < NANOS_PER_SEC,
{
    PingResponse::default()
}

/// The answer to a POST with body `request`, handled at instant `now`.
pub fn respond_to_post(request: PingRequest, now: UtcTimestamp) -> (r: Option<PingResponse>)
    ensures
        r is None <==> post_response(request@, now@) is None,
        r matches Some(p) ==> post_response(request@, now@) == Some(p@),
{
    let ghost req = request@;
    let mut response = PingResponse::default_at(now);
    match request.message_optional {
        Some(m) => {
            response.message = to_ascii_uppercase(&m);
        },
        None => {},
    }
    match request.current_date_time {
        Some(t) => match t.checked_add_days(POST_SHIFT_DAYS) {
            Some(shifted) => {
                response.current_date_time = shifted;
            },
            None => {
                return None;
            },
        },
        None => {},
    }
    assert(response@.message == post_message(req));
    Some(response)
}

/// The answer to a POST with body `request`, handled now: `None` exactly
/// where the given instant cannot be moved five days forward.
pub fn post_ping_response(request: PingRequest) -> (r: Option<PingResponse>)
    ensures
        r is None <==> (request@.current_date_time matches Some(t) && shifted_by_days(
            t,
            POST_SHIFT_DAYS as nat,
        ) is None),
        r matches Some(p) ==> {
            &&& p@.message == post_message(request@)
            &&& p@.always_null is None
            &&& request@.current_date_time matches Some(t) ==> shifted_by_days(
                t,
                POST_SHIFT_DAYS as nat,
            ) == Some(p@.current_date_time)
            &&& request@.current_date_time is None ==> {
                &&& valid_parts(p@.current_date_time.0, p@.current_date_time.1)
                &&& p@.current_date_time.1 < NANOS_PER_SEC
            }
        },
{
    respond_to_post(request, UtcTimestamp::now())
}

/// A POST that names no field answers as a GET made at the same instant does.
pub proof fn empty_post_answers_as_get(now: (int, int))
    ensures
        post_response(PingRequestView { message_optional: None, current_date_time: None }, now)
            == Some(default_response(now)),
{
}

} // verus!
