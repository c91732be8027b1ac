//! One answer of the rate service: a table of rates relative to a base
//! currency, with the service's notes on where and when it was made.

use crate::rates::{distinct_codes, Rates};
use vstd::prelude::*;

verus! {

/// A table of rates as the rate service sends it. The cache keeps such a
/// table as it came and never changes one in place.
#[derive(Debug)]
pub struct APIResponse {
    pub result: String,
    pub documentation: String,
    pub terms_of_use: String,
    pub time_last_update_unix: u32,
    pub time_last_update_utc: String,
    pub time_next_update_unix: u32,
    pub time_next_update_utc: String,
    /// The currency to which every rate of the table is relative.
    pub base_code: String,
    /// For each currency code the bit pattern of its single-precision rate.
    pub conversion_rates: Rates,
}

/// An `APIResponse` as a plain value.
pub struct RateTable {
    pub result: Seq<char>,
    pub documentation: Seq<char>,
    pub terms_of_use: Seq<char>,
    pub time_last_update_unix: u32,
    pub time_last_update_utc: Seq<char>,
    pub time_next_update_unix: u32,
    pub time_next_update_utc: Seq<char>,
    pub base_code: Seq<char>,
    pub conversion_rates: Seq<(Seq<char>, u32)>,
}

impl RateTable {
    /// The table in which every text is empty, both times are zero and no
    /// currency has a rate.
    pub open spec fn empty() -> RateTable {
        RateTable {
            result: Seq::empty(),
            documentation: Seq::empty(),
            terms_of_use: Seq::empty(),
            time_last_update_unix: 0,
            time_last_update_utc: Seq::empty(),
            time_next_update_unix: 0,
            time_next_update_utc: Seq::empty(),
            base_code: Seq::empty(),
            conversion_rates: Seq::empty(),
        }
    }

    /// No currency code has two rates.
    pub open spec fn wf(self) -> bool {
        distinct_codes(self.conversion_rates)
    }
}

impl View for APIResponse {
    type V = RateTable;

    open spec fn view(&self) -> RateTable {
        RateTable {
            result: self.result@,
            documentation: self.documentation@,
            terms_of_use: self.terms_of_use@,
            time_last_update_unix: self.time_last_update_unix,
            time_last_update_utc: self.time_last_update_utc@,
            time_next_update_unix: self.time_next_update_unix,
            time_next_update_utc: self.time_next_update_utc@,
            base_code: self.base_code@,
            conversion_rates: self.conversion_rates@,
        }
    }
}

impl Default for APIResponse {
    fn default() -> (table: APIResponse)
        ensures
            table@ == RateTable::empty(),
    {
        APIResponse {
            result: String::new(),
            documentation: String::new(),
            terms_of_use: String::new(),
            time_last_update_unix: 0,
            time_last_update_utc: String::new(),
            time_next_update_unix: 0,
            time_next_update_utc: String::new(),
            base_code: String::new(),
            conversion_rates: Rates::new(),
        }
    }
}

} // verus!
