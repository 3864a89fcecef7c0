//! The polling loop as a state machine. The caller does the outside work (a
//! GET, a send, a sleep) and reports how it went; `step` decides what comes
//! next.

use vstd::prelude::*;
use crate::aggregate::{
    advance_model, begin_model, gathered, AggregateError, Aggregation, AggregationView, Progress,
    ProgressView,
};
use crate::fetch::{interpret_reply, reply_outcome, Reply, ReplyView};
use crate::link::{field_of, link_target};
use crate::notice::{failure_notice, notice_text};
use crate::poll::{next_count, settle_model, PollState, PollView, PriceError};
use crate::price::delta_between;
use crate::quote_text::price_cents;

verus! {

/// The interval between two cycles, in seconds, where none is configured.
pub const DEFAULT_INTERVAL_SECS: u64 = 60;

/// Why a cycle was given up.
#[derive(Clone, Copy, Debug, PartialEq, Eq, Structural)]
pub enum CycleError {
    /// No record could be built.
    Aggregate(AggregateError),
    /// The record holds no price.
    Price(PriceError),
}

/// Where the loop stands.
#[derive(Debug)]
pub enum Phase {
    /// Nothing is under way; the timer starts a cycle.
    Idle,
    /// A GET is out, for the document that the aggregation awaits.
    Fetching(Aggregation),
    /// A notification is out.
    Notifying,
    /// The cycle is over; the timer starts the next one.
    Sleeping,
}

pub enum PhaseView {
    Idle,
    Fetching(AggregationView),
    Notifying,
    Sleeping,
}

impl View for Phase {
    type V = PhaseView;

    open spec fn view(&self) -> PhaseView {
        match self {
            Phase::Idle => PhaseView::Idle,
            Phase::Fetching(aggregation) => PhaseView::Fetching(aggregation@),
            Phase::Notifying => PhaseView::Notifying,
            Phase::Sleeping => PhaseView::Sleeping,
        }
    }
}

/// What the caller reports.
#[derive(Debug, PartialEq, Eq)]
pub enum Event {
    /// The interval is over, or the loop has just been started.
    TimerElapsed,
    /// The GET that was asked for has ended.
    Replied(Reply),
    /// The message that was handed out has been sent.
    Delivered,
    /// The message that was handed out could not be sent.
    DeliveryFailed,
}

pub enum EventView {
    TimerElapsed,
    Replied(ReplyView),
    Delivered,
    DeliveryFailed,
}

impl View for Event {
    type V = EventView;

    open spec fn view(&self) -> EventView {
        match self {
            Event::TimerElapsed => EventView::TimerElapsed,
            Event::Replied(reply) => EventView::Replied(reply@),
            Event::Delivered => EventView::Delivered,
            Event::DeliveryFailed => EventView::DeliveryFailed,
        }
    }
}

/// What the caller is to do before it reports again.
#[derive(Debug, PartialEq, Eq)]
pub enum Action {
    /// GET this address, and report `Replied`.
    Fetch(String),
    /// Send this notification, and report `Delivered` or `DeliveryFailed`.
    Notify(String),
    /// Log the error, try to send the notice, and report `Delivered` or
    /// `DeliveryFailed`.
    ReportFailure { error: CycleError, notice: String },
    /// Wait for so many seconds, and report `TimerElapsed`.
    Sleep(u64),
}

pub enum ActionView {
    Fetch(Seq<char>),
    Notify(Seq<char>),
    ReportFailure { error: CycleError, notice: Seq<char> },
    Sleep(u64),
}

impl View for Action {
    type V = ActionView;

    open spec fn view(&self) -> ActionView {
        match self {
            Action::Fetch(url) => ActionView::Fetch(url@),
            Action::Notify(text) => ActionView::Notify(text@),
            Action::ReportFailure { error, notice } => ActionView::ReportFailure {
                error: *error,
                notice: notice@,
            },
            Action::Sleep(secs) => ActionView::Sleep(*secs),
        }
    }
}

/// The loop: what it remembers, where it stands, and how long it rests
/// between two cycles.
#[derive(Debug)]
pub struct Driver {
    pub state: PollState,
    pub phase: Phase,
    pub interval_secs: u64,
}

pub struct DriverView {
    pub state: PollView,
    pub phase: PhaseView,
    pub interval_secs: u64,
}

impl View for Driver {
    type V = DriverView;

    open spec fn view(&self) -> DriverView {
        DriverView {
            state: self.state@,
            phase: self.phase@,
            interval_secs: self.interval_secs,
        }
    }
}

/// The interval starts: the state stays as it is.
pub open spec fn resting_model(driver: DriverView) -> (DriverView, ActionView) {
    (
        DriverView { phase: PhaseView::Sleeping, ..driver },
        ActionView::Sleep(driver.interval_secs),
    )
}

/// A cycle given up: the state stays, the failure is reported, and the cycle
/// is over whatever becomes of the report.
pub open spec fn failed_model(driver: DriverView, error: CycleError) -> (DriverView, ActionView) {
    (
        DriverView { phase: PhaseView::Sleeping, ..driver },
        ActionView::ReportFailure { error, notice: "✗ - Error in processing update."@ },
    )
}

/// What follows from a step of the aggregation. Only a complete record whose
/// quote holds a price reaches the state.
pub open spec fn progress_model(driver: DriverView, progress: ProgressView) -> (
    DriverView,
    ActionView,
) {
    match progress {
        ProgressView::Fetch(aggregation, url) => (
            DriverView { phase: PhaseView::Fetching(aggregation), ..driver },
            ActionView::Fetch(url),
        ),
        ProgressView::Abort(error) => failed_model(driver, CycleError::Aggregate(error)),
        ProgressView::Complete(record) => match settle_model(driver.state, record) {
            Err(error) => failed_model(driver, CycleError::Price(error)),
            Ok((next, Some(notice))) => (
                DriverView { state: next, phase: PhaseView::Notifying, ..driver },
                ActionView::Notify(notice),
            ),
            Ok((next, None)) => resting_model(DriverView { state: next, ..driver }),
        },
    }
}

/// One step of the loop.
///
/// The timer starts a cycle when nothing is under way. A reply moves the
/// aggregation on. The end of a send, whether it went well or not, starts the
/// interval. An event that does not answer what was asked for abandons the
/// cycle: the state stays and the interval starts.
pub open spec fn step_model(driver: DriverView, event: EventView) -> (DriverView, ActionView) {
    match (driver.phase, event) {
        (PhaseView::Idle, EventView::TimerElapsed) | (
            PhaseView::Sleeping,
            EventView::TimerElapsed,
        ) => progress_model(driver, begin_model(driver.state.symbol)),
        (PhaseView::Fetching(aggregation), EventView::Replied(reply)) => progress_model(
            driver,
            advance_model(aggregation, reply_outcome(reply)),
        ),
        _ => resting_model(driver),
    }
}

impl Driver {
    /// A loop that has not yet run a cycle for `symbol`, and that rests
    /// `interval_secs` seconds between two cycles.
    pub fn new(symbol: String, interval_secs: u64) -> (driver: Driver)
        ensures
            driver@ == (DriverView {
                state: PollView { symbol: symbol@, calls: 0, last_price: 0 },
                phase: PhaseView::Idle,
                interval_secs,
            }),
    {
        Driver { state: PollState::new(symbol), phase: Phase::Idle, interval_secs }
    }

    /// Starts the interval.
    fn rest(&mut self) -> (action: Action)
        ensures
            (final(self)@, action@) == resting_model(old(self)@),
            final(self).state == old(self).state,
    {
        self.phase = Phase::Sleeping;
        Action::Sleep(self.interval_secs)
    }

    /// Gives the cycle up: the state stays as it is.
    fn fail(&mut self, error: CycleError) -> (action: Action)
        ensures
            (final(self)@, action@) == failed_model(old(self)@, error),
            final(self).state == old(self).state,
    {
        self.phase = Phase::Sleeping;
        Action::ReportFailure { error, notice: failure_notice() }
    }

    /// Acts on a step of the aggregation: goes on fetching, gives the cycle
    /// up, or takes the price of the finished record into the state.
    pub fn follow(&mut self, progress: Progress) -> (action: Action)
        ensures
            (final(self)@, action@) == progress_model(old(self)@, progress@),
            !(progress is Complete) ==> final(self).state == old(self).state,
            progress matches Progress::Fetch(aggregation, url) ==> final(self).phase
                == Phase::Fetching(aggregation) && action == Action::Fetch(url),
    {
        match progress {
            Progress::Fetch(aggregation, url) => {
                self.phase = Phase::Fetching(aggregation);
                Action::Fetch(url)
            },
            Progress::Abort(error) => self.fail(CycleError::Aggregate(error)),
            Progress::Complete(record) => match self.state.settle(&record) {
                Err(error) => self.fail(CycleError::Price(error)),
                Ok(Some(notice)) => {
                    self.phase = Phase::Notifying;
                    Action::Notify(notice)
                },
                Ok(None) => self.rest(),
            },
        }
    }

    /// Takes what the caller reports and says what it is to do next.
    ///
    /// The state changes only when the last of the four documents has
    /// arrived and the quote holds a price: a fetch that fails, at any stage,
    /// leaves it as it was, and nothing of what was fetched before is kept.
    /// While a cycle goes on, the documents gathered so far stay as they are.
    pub fn step(&mut self, event: Event) -> (action: Action)
        ensures
            (final(self)@, action@) == step_model(old(self)@, event@),
            final(self).state != old(self).state ==> {
                &&& old(self).phase matches Phase::Fetching(aggregation)
                &&& aggregation is Market
                &&& event matches Event::Replied(reply)
                &&& reply_outcome(reply@) is Ok
            },
            old(self).phase matches Phase::Fetching(before) ==> (final(self).phase matches
            Phase::Fetching(after) ==> {
                &&& gathered(after).len() == gathered(before).len() + 1
                &&& gathered(after).drop_last() == gathered(before)
            }),
            old(self).phase is Fetching && event is Replied && reply_outcome(
                event->Replied_0@,
            ) is Err ==> {
                &&& final(self).state == old(self).state
                &&& final(self).phase is Sleeping
                &&& action is ReportFailure
            },
    {
        let mut phase = Phase::Sleeping;
        core::mem::swap(&mut self.phase, &mut phase);
        match (phase, event) {
            (Phase::Idle, Event::TimerElapsed) | (Phase::Sleeping, Event::TimerElapsed) => {
                let progress = Aggregation::begin(self.state.symbol.as_str());
                self.follow(progress)
            },
            (Phase::Fetching(aggregation), Event::Replied(reply)) => {
                let progress = aggregation.advance(interpret_reply(&reply));
                self.follow(progress)
            },
            _ => self.rest(),
        }
    }
}

/// A reply that fails, at whichever of the four stages, leaves the state as it
/// was: the cycle ends with a failure report, and the documents gathered so
/// far are gone with the aggregation.
pub proof fn lemma_failed_fetch_leaves_state(driver: DriverView, reply: ReplyView)
    requires
        driver.phase is Fetching,
        reply_outcome(reply) is Err,
    ensures
        step_model(driver, EventView::Replied(reply)).0.state == driver.state,
        step_model(driver, EventView::Replied(reply)).0.phase == PhaseView::Sleeping,
        step_model(driver, EventView::Replied(reply)).1 is ReportFailure,
{
}

/// A whole cycle that goes well. The timer and four replies, each a document
/// that names what is fetched next, with a price in the quote, leave the price
/// remembered and the cycle counted. The last step sends the notification of
/// the move, or starts the interval where the rounded dollar value stayed.
pub proof fn lemma_cycle_takes_the_price(
    driver: DriverView,
    fundamentals: ReplyView,
    instrument: ReplyView,
    quote: ReplyView,
    market: ReplyView,
    cents: u64,
)
    requires
        driver.phase is Idle || driver.phase is Sleeping,
        begin_model(driver.state.symbol) is Fetch,
        reply_outcome(fundamentals) matches Ok(doc) && link_target(
            field_of(doc.remove("description"@), "instrument"@),
        ) is Ok,
        reply_outcome(instrument) matches Ok(doc) && link_target(
            field_of(doc.remove("description"@), "quote"@),
        ) is Ok && link_target(field_of(doc.remove("description"@), "market"@)) is Ok,
        reply_outcome(quote) matches Ok(doc) && field_of(
            doc.remove("instrument"@),
            "last_trade_price"@,
        ) matches Some(text) && price_cents(text) == Some(cents),
        reply_outcome(market) is Ok,
    ensures
        ({
            let started = step_model(driver, EventView::TimerElapsed).0;
            let at_instrument = step_model(started, EventView::Replied(fundamentals)).0;
            let at_quote = step_model(at_instrument, EventView::Replied(instrument)).0;
            let at_market = step_model(at_quote, EventView::Replied(quote)).0;
            let (ended, action) = step_model(at_market, EventView::Replied(market));
            let notice = notice_text(
                driver.state.symbol,
                delta_between(driver.state.last_price as int, cents as int),
                cents as nat,
            );
            &&& at_market.state == driver.state
            &&& ended.state == (PollView {
                symbol: driver.state.symbol,
                calls: next_count(driver.state.calls),
                last_price: cents,
            })
            &&& match notice {
                Some(text) => action == ActionView::Notify(text) && ended.phase
                    == PhaseView::Notifying,
                None => action == ActionView::Sleep(driver.interval_secs) && ended.phase
                    == PhaseView::Sleeping,
            }
        }),
{
}

/// The interval is the one the loop was made with, whatever happens.
pub proof fn lemma_interval_is_kept(driver: DriverView, event: EventView)
    ensures
        step_model(driver, event).0.interval_secs == driver.interval_secs,
        step_model(driver, event).1 matches ActionView::Sleep(secs) ==> secs
            == driver.interval_secs,
{
}

/// The state changes only on the step that completes a record.
pub proof fn lemma_state_changes_only_on_complete_record(driver: DriverView, event: EventView)
    requires
        step_model(driver, event).0.state != driver.state,
    ensures
        driver.phase matches PhaseView::Fetching(aggregation) && aggregation is Market,
        event matches EventView::Replied(reply) && reply_outcome(reply) is Ok,
{
}

} // verus!
