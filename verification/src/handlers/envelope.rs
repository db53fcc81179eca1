//! The uniform JSON response envelope: a human status label, the numeric
//! code, a static message, a data payload or an error description, and a
//! generation timestamp.

use vstd::prelude::*;

verus! {

/// The envelope every handler returns. Exactly one of `data` and `errors`
/// is set, except for bodies that carry neither (health, post deletion).
pub struct ApiEnvelope<T> {
    pub status: String,
    pub code: u16,
    pub message: String,
    pub data: Option<T>,
    pub errors: Option<String>,
    pub timestamp: i64,
}

/// The human label of each status code the handlers emit.
pub open spec fn spec_status_label(code: u16) -> Seq<char> {
    if code == 200 {
        "200 OK"@
    } else if code == 201 {
        "201 Created"@
    } else if code == 204 {
        "204 No Content"@
    } else if code == 400 {
        "400 Bad Request"@
    } else if code == 500 {
        "500 Internal Server Error"@
    } else {
        ""@
    }
}

/// The label paired with a numeric code.
fn status_label(code: u16) -> (r: String)
    ensures
        r@ == spec_status_label(code),
{
    if code == 200 {
        "200 OK".to_owned()
    } else if code == 201 {
        "201 Created".to_owned()
    } else if code == 204 {
        "204 No Content".to_owned()
    } else if code == 400 {
        "400 Bad Request".to_owned()
    } else if code == 500 {
        "500 Internal Server Error".to_owned()
    } else {
        "".to_owned()
    }
}

/// A success envelope: the payload under `data`, no `errors`.
pub fn success_envelope<T>(code: u16, message: &str, data: T, now: i64) -> (e: ApiEnvelope<T>)
    ensures
        e.code == code,
        e.status@ == spec_status_label(code),
        e.message@ == message@,
        (e.data matches Some(d) && d == data),
        e.errors is None,
        e.timestamp == now,
{
    ApiEnvelope {
        status: status_label(code),
        code,
        message: message.to_owned(),
        data: Some(data),
        errors: None,
        timestamp: now,
    }
}

/// A failure envelope: the failure's description under `errors`, no
/// `data`.
pub fn error_envelope<T>(code: u16, message: &str, errors: String, now: i64) -> (e: ApiEnvelope<
    T,
>)
    ensures
        e.code == code,
        e.status@ == spec_status_label(code),
        e.message@ == message@,
        e.data is None,
        (e.errors matches Some(x) && x == errors),
        e.timestamp == now,
{
    ApiEnvelope {
        status: status_label(code),
        code,
        message: message.to_owned(),
        data: None,
        errors: Some(errors),
        timestamp: now,
    }
}

/// An envelope that carries neither payload nor errors: a bare
/// status/code/message body.
pub fn message_envelope<T>(code: u16, message: &str, now: i64) -> (e: ApiEnvelope<T>)
    ensures
        e.code == code,
        e.status@ == spec_status_label(code),
        e.message@ == message@,
        e.data is None,
        e.errors is None,
        e.timestamp == now,
{
    ApiEnvelope {
        status: status_label(code),
        code,
        message: message.to_owned(),
        data: None,
        errors: None,
        timestamp: now,
    }
}

/// Relies on chrono::Utc::now and DateTime::timestamp: the current time as
/// whole seconds since the Unix epoch. The value depends on the clock, so
/// nothing is promised about it.
#[verifier::external_body]
pub(crate) fn now_unix() -> i64 {
    chrono::Utc::now().timestamp()
}

} // verus!
