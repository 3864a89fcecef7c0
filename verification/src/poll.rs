//! What is remembered from one cycle to the next, and what a new price does
//! to it.

use vstd::prelude::*;
use crate::aggregate::{QuoteRecord, RecordView};
use crate::document::text_member;
use crate::link::field_of;
use crate::notice::{notice_text, price_notice};
use crate::price::{classify, delta_between, round_to_dollars, rounded_dollars};
use crate::quote_text::{parse_price, price_cents};

verus! {

/// The state of the watcher: the symbol it follows, how many cycles have
/// been completed, and the last price seen, in cents.
#[derive(Debug, PartialEq, Eq)]
pub struct PollState {
    pub symbol: String,
    pub calls: u64,
    pub last_price: u64,
}

pub struct PollView {
    pub symbol: Seq<char>,
    pub calls: u64,
    pub last_price: u64,
}

impl View for PollState {
    type V = PollView;

    open spec fn view(&self) -> PollView {
        PollView { symbol: self.symbol@, calls: self.calls, last_price: self.last_price }
    }
}

/// Why a record gave no price.
#[derive(Clone, Copy, Debug, PartialEq, Eq, Structural)]
pub enum PriceError {
    /// The quote holds no text under `last_trade_price`.
    Missing,
    /// The text there is not a price.
    Malformed,
}

/// One more cycle, the count staying at its largest value once there.
pub open spec fn next_count(calls: u64) -> u64 {
    if calls < u64::MAX {
        (calls + 1) as u64
    } else {
        calls
    }
}

/// What a price text does to the state: the state after it and the
/// notification to send, or the reason why the state stays as it is.
pub open spec fn observe_model(state: PollView, price_text: Option<Seq<char>>) -> Result<
    (PollView, Option<Seq<char>>),
    PriceError,
> {
    match price_text {
        None => Err(PriceError::Missing),
        Some(text) => match price_cents(text) {
            None => Err(PriceError::Malformed),
            Some(cents) => Ok(
                (
                    PollView {
                        symbol: state.symbol,
                        calls: next_count(state.calls),
                        last_price: cents,
                    },
                    notice_text(
                        state.symbol,
                        delta_between(state.last_price as int, cents as int),
                        cents as nat,
                    ),
                ),
            ),
        },
    }
}

/// What a record does to the state: its quote's `last_trade_price` is the
/// price text.
pub open spec fn settle_model(state: PollView, record: RecordView) -> Result<
    (PollView, Option<Seq<char>>),
    PriceError,
> {
    observe_model(state, field_of(record.quote, "last_trade_price"@))
}

/// The outcome of an observation as contracts see it, beside the state after it.
pub open spec fn observed_view(
    state: PollView,
    outcome: Result<Option<String>, PriceError>,
) -> Result<(PollView, Option<Seq<char>>), PriceError> {
    match outcome {
        Ok(Some(notice)) => Ok((state, Some(notice@))),
        Ok(None) => Ok((state, None)),
        Err(e) => Err(e),
    }
}

/// A notification is made exactly when the rounded dollar value moved, and
/// the price that was read is the one remembered.
pub proof fn lemma_notice_iff_dollars_moved(state: PollView, price_text: Option<Seq<char>>)
    ensures
        observe_model(state, price_text) matches Ok((next, notice)) ==> {
            &&& price_text matches Some(text)
            &&& price_cents(text) == Some(next.last_price)
            &&& notice is Some <==> rounded_dollars(next.last_price as int) != rounded_dollars(
                state.last_price as int,
            )
        },
{
}

impl PollState {
    /// The state before the first cycle: nothing counted, no price seen.
    pub fn new(symbol: String) -> (state: PollState)
        ensures
            state@ == (PollView { symbol: symbol@, calls: 0, last_price: 0 }),
    {
        PollState { symbol, calls: 0, last_price: 0 }
    }

    /// The last price seen, in whole dollars.
    pub fn last_price_dollars(&self) -> (dollars: u64)
        ensures
            dollars == rounded_dollars(self.last_price as int),
    {
        round_to_dollars(self.last_price)
    }

    /// Takes in the price text of a finished cycle. Where it is a price, the
    /// cycle is counted, the price remembered, and a notification made if the
    /// rounded dollar value moved. Where it is not, nothing changes.
    pub fn observe(&mut self, price_text: Option<&str>) -> (outcome: Result<
        Option<String>,
        PriceError,
    >)
        ensures
            observed_view(final(self)@, outcome) == observe_model(
                old(self)@,
                match price_text {
                    Some(text) => Some(text@),
                    None => None,
                },
            ),
            outcome is Err ==> *final(self) == *old(self),
            outcome is Ok ==> final(self).symbol == old(self).symbol,
    {
        let text = match price_text {
            None => {
                return Err(PriceError::Missing);
            },
            Some(text) => text,
        };
        let cents = match parse_price(text) {
            None => {
                return Err(PriceError::Malformed);
            },
            Some(cents) => cents,
        };
        let delta = classify(self.last_price, cents);
        self.calls = self.calls.saturating_add(1);
        self.last_price = cents;
        Ok(price_notice(self.symbol.as_str(), delta, cents))
    }

    /// Takes in the record of a finished cycle, as `observe` does with the
    /// `last_trade_price` of its quote.
    pub fn settle(&mut self, record: &QuoteRecord) -> (outcome: Result<Option<String>, PriceError>)
        ensures
            observed_view(final(self)@, outcome) == settle_model(old(self)@, record@),
            outcome is Err ==> *final(self) == *old(self),
            outcome is Ok ==> final(self).symbol == old(self).symbol,
    {
        match text_member(&record.quote, "last_trade_price") {
            None => self.observe(None),
            Some(text) => self.observe(Some(text.as_str())),
        }
    }
}

} // verus!
