//! The liveness endpoint.

use vstd::prelude::*;

use super::envelope::{message_envelope, now_unix, spec_status_label, ApiEnvelope};

verus! {

/// GET /api/health: a static liveness payload.
pub fn check_app_health() -> (r: ApiEnvelope<()>)
    ensures
        r.code == 200,
        r.status@ == spec_status_label(200),
        r.message@ == "App is running!"@,
        r.data is None,
        r.errors is None,
{
    let now = now_unix();
    message_envelope(200, "App is running!", now)
}

} // verus!
