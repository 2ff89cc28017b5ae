//! A ping endpoint's logic: the request and response of a health check, and
//! the UTC timestamps that they carry.

mod error;
mod ping;
mod timestamp;

pub use error::{error_text, Error, Result};
pub use ping::{
    PingRequest, PingRequestView, PingResponse, PingResponseView, POST_SHIFT_DAYS,
    default_message, default_response, empty_post_answers_as_get, get_ping_response,
    post_message, post_ping_response, post_response, post_time, respond_to_post, response_at,
    upper_ascii, upper_ascii_char,
};
pub use timestamp::{
    UtcTimestamp, valid_parts, shifted_by_days, MAX_UNIX_SECS, MIN_UNIX_SECS, NANOS_PER_SEC,
    SECS_PER_DAY,
};
