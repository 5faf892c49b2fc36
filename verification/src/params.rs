//! The parameters of a download request, as they come from the query string.

use vstd::prelude::*;
use crate::clock::current_year;
use crate::decimal::decimal_i32;
use crate::decimal::parse_i32;
use crate::text::same_text;

verus! {

/// The first year for which rankings are downloaded.
pub const MIN_YEAR: i32 = 2010;

/// The cap on ranks of a request that names none.
pub const DEFAULT_MAX_RANK: usize = 1000;

/// The parameters of a download request, undecoded.
#[derive(Clone, Debug, PartialEq, Eq)]
pub struct DownloadParams {
    pub year: Option<String>,
    pub max_rank: Option<usize>,
    pub force: Option<String>,
}

/// The year that a request asks for when `now` is the current year: the
/// current year if it names none; the year it names if that is a number from
/// [`MIN_YEAR`] to the current year; else none.
pub open spec fn year_asked(year: Option<Seq<char>>, now: i32) -> Option<i32> {
    match year {
        Some(text) => match decimal_i32(text) {
            Some(y) => if MIN_YEAR <= y <= now {
                Some(y)
            } else {
                None
            },
            None => None,
        },
        None => Some(now),
    }
}

/// The years from [`MIN_YEAR`] to `now`, in order; none if `now` is earlier.
pub open spec fn years_until(now: i32) -> Seq<i32> {
    Seq::new(
        if now >= MIN_YEAR {
            (now - MIN_YEAR + 1) as nat
        } else {
            0
        },
        |i: int| (MIN_YEAR + i) as i32,
    )
}

impl DownloadParams {
    /// The year parameter as characters.
    pub open spec fn year_text(&self) -> Option<Seq<char>> {
        match self.year {
            Some(text) => Some(text@),
            None => None,
        }
    }

    /// The year that the request asks for when `current` is the current
    /// year, `None` for a year that is no number or out of range.
    pub fn parse_year_in(&self, current: i32) -> (r: Option<i32>)
        ensures
            r == year_asked(self.year_text(), current),
    {
        match &self.year {
            Some(text) => match parse_i32(text.as_str()) {
                Some(year) => {
                    if year >= MIN_YEAR && year <= current {
                        Some(year)
                    } else {
                        None
                    }
                },
                None => None,
            },
            None => Some(current),
        }
    }

    /// The year that the request asks for, by the clock: what
    /// [`DownloadParams::parse_year_in`] gives for the current year.
    pub fn parse_year(&self) -> (r: Option<i32>)
        ensures
            exists|now: i32| r == year_asked(self.year_text(), now),
    {
        let now = current_year();
        self.parse_year_in(now)
    }

    /// Whether the request asks to fetch again what is already stored: only
    /// if its force parameter is exactly `true`.
    pub fn parse_force(&self) -> (r: bool)
        ensures
            r == (self.force matches Some(text) && text@ == "true"@),
    {
        match &self.force {
            Some(text) => same_text(text.as_str(), "true"),
            None => false,
        }
    }

    /// The cap on ranks that the request asks for, [`DEFAULT_MAX_RANK`] if
    /// it names none.
    pub fn rank_cap(&self) -> (r: usize)
        ensures
            r == match self.max_rank {
                Some(cap) => cap,
                None => DEFAULT_MAX_RANK,
            },
    {
        match self.max_rank {
            Some(cap) => cap,
            None => DEFAULT_MAX_RANK,
        }
    }
}

/// The years from [`MIN_YEAR`] to `current`, in order.
pub fn years_through(current: i32) -> (r: Vec<i32>)
    ensures
        r@ == years_until(current),
{
    let mut years: Vec<i32> = Vec::new();
    if current < MIN_YEAR {
        return years;
    }
    let mut year: i32 = MIN_YEAR;
    while year < current
        invariant
            MIN_YEAR <= year <= current,
            years@ == years_until((year - 1) as i32),
        decreases current - year,
    {
        years.push(year);
        year += 1;
    }
    years.push(current);
    years
}

/// The years from [`MIN_YEAR`] to the current year, by the clock.
pub fn all_years() -> (r: Vec<i32>)
    ensures
        exists|now: i32| r@ == years_until(now),
{
    let now = current_year();
    years_through(now)
}

} // verus!
