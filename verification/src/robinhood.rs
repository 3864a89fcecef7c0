//! The fundamentals document as typed fields.

use vstd::prelude::*;

verus! {

/// Company and trading metadata for one symbol. Amounts arrive as decimal text.
#[derive(Clone, Debug)]
pub struct Fundamentals {
    pub open: String,
    pub high: String,
    pub low: String,
    pub volume: String,
    pub average_volume_2_weeks: String,
    pub average_volume: String,
    pub high_52_weeks: String,
    pub dividend_yield: String,
    pub low_52_weeks: String,
    pub market_cap: String,
    pub pe_ratio: String,
    pub shares_outstanding: String,
    pub description: String,
    pub instrument: String,
    pub ceo: String,
    pub headquarters_city: String,
    pub headquarters_state: String,
    pub sector: String,
    pub industry: String,
    pub num_employees: u64,
    pub year_founded: u64,
}

} // verus!
