//! The calendar, as far as requests depend on it.

use vstd::prelude::*;
use chrono::Datelike;

verus! {

/// The current year in universal time, read with `chrono::Utc::now`,
/// `DateTime::naive_local` and `Datelike::year`. Nothing is claimed of the
/// result: it depends on the clock of the machine. The call does not return
/// where that clock stands before the year 1970.
#[verifier::external_body]
pub(crate) fn current_year() -> i32 {
    chrono::Utc::now().naive_local().year()
}

} // verus!
