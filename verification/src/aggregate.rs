//! Building one record for a symbol out of four documents, each found through
//! the one before it.

use vstd::prelude::*;
use json::JsonValue;
use crate::document::{text_members, trimmed, without_member};
use crate::fetch::{fetched_view, FetchError};
use crate::link::{
    field_of, fundamentals_address, fundamentals_url, link_target, link_view, member_link,
    resolve_link, LinkError,
};

verus! {

/// The four documents, in the order in which they are fetched.
#[derive(Clone, Copy, Debug, PartialEq, Eq, Structural)]
pub enum Stage {
    Fundamentals,
    Instrument,
    Quote,
    Market,
}

/// What went wrong at a stage.
#[derive(Clone, Copy, Debug, PartialEq, Eq, Structural)]
pub enum Fault {
    /// The document could not be had.
    Fetch(FetchError),
    /// The address to fetch next could not be had.
    Link(LinkError),
}

/// Why no record was built, and at which stage.
#[derive(Clone, Copy, Debug, PartialEq, Eq, Structural)]
pub struct AggregateError {
    pub stage: Stage,
    pub fault: Fault,
}

/// Everything known about a symbol.
#[derive(Debug)]
pub struct QuoteRecord {
    pub fundamentals: JsonValue,
    pub instrument: JsonValue,
    pub quote: JsonValue,
    pub market: JsonValue,
}

/// A record as contracts see it: the text members of each document.
pub struct RecordView {
    pub fundamentals: Map<Seq<char>, Seq<char>>,
    pub instrument: Map<Seq<char>, Seq<char>>,
    pub quote: Map<Seq<char>, Seq<char>>,
    pub market: Map<Seq<char>, Seq<char>>,
}

impl View for QuoteRecord {
    type V = RecordView;

    open spec fn view(&self) -> RecordView {
        RecordView {
            fundamentals: text_members(self.fundamentals),
            instrument: text_members(self.instrument),
            quote: text_members(self.quote),
            market: text_members(self.market),
        }
    }
}

/// A record in the making: the document that is awaited, and what has been
/// gathered before it.
#[derive(Debug)]
pub enum Aggregation {
    Fundamentals,
    Instrument { fundamentals: JsonValue },
    Quote { fundamentals: JsonValue, instrument: JsonValue, market_url: String },
    Market { fundamentals: JsonValue, instrument: JsonValue, quote: JsonValue },
}

pub enum AggregationView {
    Fundamentals,
    Instrument { fundamentals: Map<Seq<char>, Seq<char>> },
    Quote {
        fundamentals: Map<Seq<char>, Seq<char>>,
        instrument: Map<Seq<char>, Seq<char>>,
        market_url: Seq<char>,
    },
    Market {
        fundamentals: Map<Seq<char>, Seq<char>>,
        instrument: Map<Seq<char>, Seq<char>>,
        quote: Map<Seq<char>, Seq<char>>,
    },
}

impl View for Aggregation {
    type V = AggregationView;

    open spec fn view(&self) -> AggregationView {
        match self {
            Aggregation::Fundamentals => AggregationView::Fundamentals,
            Aggregation::Instrument { fundamentals } => AggregationView::Instrument {
                fundamentals: text_members(*fundamentals),
            },
            Aggregation::Quote { fundamentals, instrument, market_url } => AggregationView::Quote {
                fundamentals: text_members(*fundamentals),
                instrument: text_members(*instrument),
                market_url: market_url@,
            },
            Aggregation::Market { fundamentals, instrument, quote } => AggregationView::Market {
                fundamentals: text_members(*fundamentals),
                instrument: text_members(*instrument),
                quote: text_members(*quote),
            },
        }
    }
}

/// The documents that a state holds, in the order of their stages.
pub open spec fn gathered(state: Aggregation) -> Seq<JsonValue> {
    match state {
        Aggregation::Fundamentals => seq![],
        Aggregation::Instrument { fundamentals } => seq![fundamentals],
        Aggregation::Quote { fundamentals, instrument, .. } => seq![fundamentals, instrument],
        Aggregation::Market { fundamentals, instrument, quote } => seq![
            fundamentals,
            instrument,
            quote,
        ],
    }
}

/// The member that a document loses when it is taken in: the `description`
/// of the fundamentals and of the instrument, and the `instrument` of the
/// quote. The market loses none.
pub open spec fn dropped_at(stage: Stage) -> Option<Seq<char>> {
    match stage {
        Stage::Fundamentals => Some("description"@),
        Stage::Instrument => Some("description"@),
        Stage::Quote => Some("instrument"@),
        Stage::Market => None,
    }
}

/// The documents of a record, in the order of their stages.
pub open spec fn documents(record: QuoteRecord) -> Seq<JsonValue> {
    seq![record.fundamentals, record.instrument, record.quote, record.market]
}

/// What to do next for a record: fetch one more address, hand out the record,
/// or give up. Giving up carries no document.
#[derive(Debug)]
pub enum Progress {
    Fetch(Aggregation, String),
    Complete(QuoteRecord),
    Abort(AggregateError),
}

pub enum ProgressView {
    Fetch(AggregationView, Seq<char>),
    Complete(RecordView),
    Abort(AggregateError),
}

impl View for Progress {
    type V = ProgressView;

    open spec fn view(&self) -> ProgressView {
        match self {
            Progress::Fetch(state, url) => ProgressView::Fetch(state@, url@),
            Progress::Complete(record) => ProgressView::Complete(record@),
            Progress::Abort(error) => ProgressView::Abort(*error),
        }
    }
}

/// The stage whose document a state awaits.
pub open spec fn stage_of(state: AggregationView) -> Stage {
    match state {
        AggregationView::Fundamentals => Stage::Fundamentals,
        AggregationView::Instrument { .. } => Stage::Instrument,
        AggregationView::Quote { .. } => Stage::Quote,
        AggregationView::Market { .. } => Stage::Market,
    }
}

/// The first step, given what the address of the fundamentals resolved to.
pub open spec fn begin_at_model(link: Result<Seq<char>, LinkError>) -> ProgressView {
    match link {
        Ok(url) => ProgressView::Fetch(AggregationView::Fundamentals, url),
        Err(e) => ProgressView::Abort(
            AggregateError { stage: Stage::Fundamentals, fault: Fault::Link(e) },
        ),
    }
}

/// The first step for a symbol.
pub open spec fn begin_model(symbol: Seq<char>) -> ProgressView {
    begin_at_model(link_target(Some(fundamentals_address(symbol))))
}

/// The step after the fundamentals, given what their `instrument` resolved to.
pub open spec fn after_fundamentals_model(
    fundamentals: Map<Seq<char>, Seq<char>>,
    instrument_link: Result<Seq<char>, LinkError>,
) -> ProgressView {
    match instrument_link {
        Ok(url) => ProgressView::Fetch(AggregationView::Instrument { fundamentals }, url),
        Err(e) => ProgressView::Abort(
            AggregateError { stage: Stage::Fundamentals, fault: Fault::Link(e) },
        ),
    }
}

/// The step after the instrument, given what its `quote` and `market` resolved
/// to. Both must resolve before anything more is fetched.
pub open spec fn after_instrument_model(
    fundamentals: Map<Seq<char>, Seq<char>>,
    instrument: Map<Seq<char>, Seq<char>>,
    quote_link: Result<Seq<char>, LinkError>,
    market_link: Result<Seq<char>, LinkError>,
) -> ProgressView {
    match quote_link {
        Err(e) => ProgressView::Abort(
            AggregateError { stage: Stage::Instrument, fault: Fault::Link(e) },
        ),
        Ok(quote_url) => match market_link {
            Err(e) => ProgressView::Abort(
                AggregateError { stage: Stage::Instrument, fault: Fault::Link(e) },
            ),
            Ok(market_url) => ProgressView::Fetch(
                AggregationView::Quote { fundamentals, instrument, market_url },
                quote_url,
            ),
        },
    }
}

/// One step of the aggregation: what follows from the outcome of the fetch
/// that `state` was waiting for.
///
/// A failed fetch ends the aggregation at that stage. The fundamentals and the
/// instrument lose their `description`, the quote its `instrument`. The
/// fundamentals must name the instrument, and the instrument the quote and the
/// market, each by an absolute URL.
pub open spec fn advance_model(
    state: AggregationView,
    fetched: Result<Map<Seq<char>, Seq<char>>, FetchError>,
) -> ProgressView {
    match fetched {
        Err(e) => ProgressView::Abort(
            AggregateError { stage: stage_of(state), fault: Fault::Fetch(e) },
        ),
        Ok(doc) => match state {
            AggregationView::Fundamentals => {
                let kept = doc.remove("description"@);
                after_fundamentals_model(kept, link_target(field_of(kept, "instrument"@)))
            },
            AggregationView::Instrument { fundamentals } => {
                let kept = doc.remove("description"@);
                after_instrument_model(
                    fundamentals,
                    kept,
                    link_target(field_of(kept, "quote"@)),
                    link_target(field_of(kept, "market"@)),
                )
            },
            AggregationView::Quote { fundamentals, instrument, market_url } => ProgressView::Fetch(
                AggregationView::Market {
                    fundamentals,
                    instrument,
                    quote: doc.remove("instrument"@),
                },
                market_url,
            ),
            AggregationView::Market { fundamentals, instrument, quote } => ProgressView::Complete(
                RecordView { fundamentals, instrument, quote, market: doc },
            ),
        },
    }
}

/// The stage that follows a stage.
pub open spec fn next_stage(stage: Stage) -> Option<Stage> {
    match stage {
        Stage::Fundamentals => Some(Stage::Instrument),
        Stage::Instrument => Some(Stage::Quote),
        Stage::Quote => Some(Stage::Market),
        Stage::Market => None,
    }
}

/// The documents are fetched in order. A step goes on to the stage that
/// follows and to no other, only the last stage completes a record, and a
/// step that gives up names the stage it was at.
pub proof fn lemma_stages_in_order(
    state: AggregationView,
    fetched: Result<Map<Seq<char>, Seq<char>>, FetchError>,
)
    ensures
        match advance_model(state, fetched) {
            ProgressView::Fetch(next, _) => next_stage(stage_of(state)) == Some(stage_of(next)),
            ProgressView::Complete(_) => stage_of(state) == Stage::Market && fetched is Ok,
            ProgressView::Abort(error) => error.stage == stage_of(state),
        },
{
}

/// Four documents whose links resolve make the record: each is fetched from
/// the address that the one before it names, and the record holds them as
/// they came, but for the members that are dropped.
pub proof fn lemma_four_fetches_make_the_record(
    fundamentals: Map<Seq<char>, Seq<char>>,
    instrument: Map<Seq<char>, Seq<char>>,
    quote: Map<Seq<char>, Seq<char>>,
    market: Map<Seq<char>, Seq<char>>,
)
    requires
        link_target(field_of(fundamentals.remove("description"@), "instrument"@)) is Ok,
        link_target(field_of(instrument.remove("description"@), "quote"@)) is Ok,
        link_target(field_of(instrument.remove("description"@), "market"@)) is Ok,
    ensures
        ({
            let first = advance_model(AggregationView::Fundamentals, Ok(fundamentals));
            &&& first matches ProgressView::Fetch(at_instrument, instrument_url)
            &&& Ok::<Seq<char>, LinkError>(instrument_url) == link_target(
                field_of(fundamentals.remove("description"@), "instrument"@),
            )
            &&& advance_model(at_instrument, Ok(instrument)) matches ProgressView::Fetch(
                at_quote,
                quote_url,
            )
            &&& Ok::<Seq<char>, LinkError>(quote_url) == link_target(
                field_of(instrument.remove("description"@), "quote"@),
            )
            &&& advance_model(at_quote, Ok(quote)) matches ProgressView::Fetch(
                at_market,
                market_url,
            )
            &&& Ok::<Seq<char>, LinkError>(market_url) == link_target(
                field_of(instrument.remove("description"@), "market"@),
            )
            &&& advance_model(at_market, Ok(market)) == ProgressView::Complete(
                RecordView {
                    fundamentals: fundamentals.remove("description"@),
                    instrument: instrument.remove("description"@),
                    quote: quote.remove("instrument"@),
                    market,
                },
            )
        }),
{
}

impl Aggregation {
    /// The stage whose document is awaited.
    pub fn stage(&self) -> (stage: Stage)
        ensures
            stage == stage_of(self@),
    {
        match self {
            Aggregation::Fundamentals => Stage::Fundamentals,
            Aggregation::Instrument { .. } => Stage::Instrument,
            Aggregation::Quote { .. } => Stage::Quote,
            Aggregation::Market { .. } => Stage::Market,
        }
    }

    /// Starts an aggregation where the address of the fundamentals is known
    /// to be well formed or not.
    pub fn begin_at(link: Result<String, LinkError>) -> (progress: Progress)
        ensures
            progress@ == begin_at_model(link_view(link)),
    {
        match link {
            Ok(url) => Progress::Fetch(Aggregation::Fundamentals, url),
            Err(e) => Progress::Abort(
                AggregateError { stage: Stage::Fundamentals, fault: Fault::Link(e) },
            ),
        }
    }

    /// Starts an aggregation for `symbol`: the fundamentals are fetched first,
    /// unless the symbol makes no address.
    pub fn begin(symbol: &str) -> (progress: Progress)
        ensures
            progress@ == begin_model(symbol@),
            !(progress is Complete),
    {
        Self::begin_at(resolve_link(Some(fundamentals_url(symbol))))
    }

    /// Goes on from the fundamentals, trimmed, and the address they name.
    pub fn after_fundamentals(
        fundamentals: JsonValue,
        instrument_link: Result<String, LinkError>,
    ) -> (progress: Progress)
        ensures
            progress@ == after_fundamentals_model(
                text_members(fundamentals),
                link_view(instrument_link),
            ),
            progress matches Progress::Fetch(next, _) ==> gathered(next) == seq![fundamentals],
    {
        match instrument_link {
            Ok(url) => Progress::Fetch(Aggregation::Instrument { fundamentals }, url),
            Err(e) => Progress::Abort(
                AggregateError { stage: Stage::Fundamentals, fault: Fault::Link(e) },
            ),
        }
    }

    /// Goes on from the instrument, trimmed, and the two addresses it names.
    pub fn after_instrument(
        fundamentals: JsonValue,
        instrument: JsonValue,
        quote_link: Result<String, LinkError>,
        market_link: Result<String, LinkError>,
    ) -> (progress: Progress)
        ensures
            progress@ == after_instrument_model(
                text_members(fundamentals),
                text_members(instrument),
                link_view(quote_link),
                link_view(market_link),
            ),
            progress matches Progress::Fetch(next, _) ==> gathered(next) == seq![
                fundamentals,
                instrument,
            ],
    {
        match quote_link {
            Err(e) => Progress::Abort(
                AggregateError { stage: Stage::Instrument, fault: Fault::Link(e) },
            ),
            Ok(quote_url) => match market_link {
                Err(e) => Progress::Abort(
                    AggregateError { stage: Stage::Instrument, fault: Fault::Link(e) },
                ),
                Ok(market_url) => Progress::Fetch(
                    Aggregation::Quote { fundamentals, instrument, market_url },
                    quote_url,
                ),
            },
        }
    }

    /// Takes the outcome of the fetch that was asked for, and says what to do
    /// next. A failed fetch at any stage gives up, with nothing kept.
    ///
    /// The documents gathered before stay as they are, members of every kind
    /// included: a step adds the new document behind them, less the one
    /// member it drops, and the record holds the three gathered and the
    /// market as it was fetched.
    pub fn advance(self, fetched: Result<JsonValue, FetchError>) -> (progress: Progress)
        ensures
            progress@ == advance_model(self@, fetched_view(fetched)),
            fetched matches Err(e) ==> progress@ == ProgressView::Abort(
                AggregateError { stage: stage_of(self@), fault: Fault::Fetch(e) },
            ),
            progress is Complete ==> self is Market && fetched is Ok,
            progress matches Progress::Fetch(next, _) ==> gathered(next).len() == gathered(
                self,
            ).len() + 1 && gathered(next).drop_last() == gathered(self),
            progress matches Progress::Complete(record) ==> (fetched matches Ok(doc)
                ==> documents(record) == gathered(self).push(doc)),
            progress matches Progress::Fetch(next, _) ==> (fetched matches Ok(doc) ==> (
            dropped_at(stage_of(self@)) matches Some(key) ==> trimmed(
                doc,
                gathered(next).last(),
                key,
            ))),
    {
        let doc = match fetched {
            Err(e) => {
                return Progress::Abort(
                    AggregateError { stage: self.stage(), fault: Fault::Fetch(e) },
                );
            },
            Ok(doc) => doc,
        };
        match self {
            Aggregation::Fundamentals => {
                let kept = without_member(doc, "description");
                let link = member_link(&kept, "instrument");
                Self::after_fundamentals(kept, link)
            },
            Aggregation::Instrument { fundamentals } => {
                let kept = without_member(doc, "description");
                let quote_link = member_link(&kept, "quote");
                let market_link = member_link(&kept, "market");
                Self::after_instrument(fundamentals, kept, quote_link, market_link)
            },
            Aggregation::Quote { fundamentals, instrument, market_url } => Progress::Fetch(
                Aggregation::Market {
                    fundamentals,
                    instrument,
                    quote: without_member(doc, "instrument"),
                },
                market_url,
            ),
            Aggregation::Market { fundamentals, instrument, quote } => Progress::Complete(
                QuoteRecord { fundamentals, instrument, quote, market: doc },
            ),
        }
    }
}

} // verus!
