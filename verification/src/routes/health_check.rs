use crate::routes::{STATUS_INTERNAL_SERVER_ERROR, STATUS_OK};
use vstd::prelude::*;
use vstd::string::*;

verus! {

/// The body of a health check answer.
pub struct HealthCheckResponse {
    status: String,
}

impl HealthCheckResponse {
    /// A body reporting the given status text.
    pub fn new(status: String) -> (r: HealthCheckResponse)
        ensures
            r.spec_status() == status@,
    {
        HealthCheckResponse { status }
    }

    /// The reported status text.
    pub fn status(&self) -> (r: &str)
        ensures
            r@ == self.spec_status(),
    {
        self.status.as_str()
    }

    /// The reported status text, in specifications.
    pub closed spec fn spec_status(&self) -> Seq<char> {
        self.status@
    }
}

/// The outcome of the database check, given whether the probe query succeeded.
pub fn check_db(query_succeeded: bool) -> (r: Result<(), String>)
    ensures
        match r {
            Ok(()) => query_succeeded,
            Err(m) => !query_succeeded && m@ == "DATABASE_ERROR"@,
        },
{
    if query_succeeded {
        Ok(())
    } else {
        Err(String::from_str("DATABASE_ERROR"))
    }
}

/// Runs every health check (the database check only).
pub fn run_health_checks(db_query_succeeded: bool) -> (r: Result<(), String>)
    ensures
        match r {
            Ok(()) => db_query_succeeded,
            Err(m) => !db_query_succeeded && m@ == "DATABASE_ERROR"@,
        },
{
    check_db(db_query_succeeded)?;
    Ok(())
}

/// The answer to a health check: `200 OK` when the checks pass, `500` otherwise; the body
/// reports `"OK"` either way.
pub fn health_check_handler(checks: Result<(), String>) -> (r: (u16, HealthCheckResponse))
    ensures
        r.0 == (if checks is Ok { STATUS_OK } else { STATUS_INTERNAL_SERVER_ERROR }),
        r.1.spec_status() == "OK"@,
{
    match checks {
        Ok(_) => (STATUS_OK, HealthCheckResponse { status: String::from_str("OK") }),
        Err(_) => (STATUS_INTERNAL_SERVER_ERROR, HealthCheckResponse { status: String::from_str("OK") }),
    }
}

} // verus!
