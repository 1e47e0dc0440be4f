use vstd::prelude::*;

verus! {

/// Relies on chrono's `Utc::now` with `Datelike::year` and `Datelike::month`:
/// the calendar year and month of the present instant in UTC.
#[verifier::external_body]
pub(crate) fn current_year_month() -> (r: (i32, u32))
    ensures
        1 <= r.1 <= 12,
{
    let now = chrono::Utc::now();
    (chrono::Datelike::year(&now), chrono::Datelike::month(&now))
}

/// Relies on chrono's `Utc::now` with `DateTime::timestamp`: the present
/// instant in whole seconds since the Unix epoch, which it never precedes.
#[verifier::external_body]
pub(crate) fn now_unix_seconds() -> (r: i64)
    ensures
        r >= 0,
{
    chrono::Utc::now().timestamp()
}

} // verus!
