//! The conversation between the cache and whoever talks to the rate service.
//!
//! The cache never performs a request. An operation that may need one is
//! called once with `Event::Begin` and then, for as long as it answers with a
//! request, once more with what came of that request.

use crate::api_response::{APIResponse, RateTable};
use crate::failure::Failure;
use crate::quote::{Quote, QuoteView};
use crate::rates::Rates;
use vstd::prelude::*;

verus! {

/// The status with which the rate service sends a table.
pub const STATUS_OK: u16 = 200;

/// The status with which the rate service rejects a credential.
pub const STATUS_UNAUTHORIZED: u16 = 401;

/// What the caller reports to the cache.
#[derive(Debug)]
pub enum Event {
    /// Nothing yet: the operation starts.
    Begin,
    /// The request got no answer: no connection, or none in time.
    Unreachable,
    /// The request was answered with this status.
    Status(u16),
    /// The body of the answer was read: the table that it holds, or `None`
    /// where it holds none.
    Body(Option<APIResponse>),
}

/// An `Event` as a plain value.
pub enum EventView {
    Begin,
    Unreachable,
    Status(u16),
    Body(Option<RateTable>),
}

impl View for Event {
    type V = EventView;

    open spec fn view(&self) -> EventView {
        match self {
            Event::Begin => EventView::Begin,
            Event::Unreachable => EventView::Unreachable,
            Event::Status(status) => EventView::Status(*status),
            Event::Body(Some(table)) => EventView::Body(Some(table@)),
            Event::Body(None) => EventView::Body(None),
        }
    }
}

/// What the cache asks of the caller: a request to perform, or nothing more,
/// with the operation's result.
#[derive(Debug)]
pub enum Step<T> {
    /// Send a GET request to this URL and report `Event::Status` or
    /// `Event::Unreachable`.
    Get(String),
    /// Read the body of the answer as a table and report `Event::Body`.
    ReadBody,
    /// The operation has ended with this result.
    Done(T),
}

/// A `Step` as a plain value.
pub enum StepView<T> {
    Get(Seq<char>),
    ReadBody,
    Done(T),
}

impl View for Step<Result<(), Failure>> {
    type V = StepView<Result<(), Failure>>;

    open spec fn view(&self) -> StepView<Result<(), Failure>> {
        match self {
            Step::Get(url) => StepView::Get(url@),
            Step::ReadBody => StepView::ReadBody,
            Step::Done(result) => StepView::Done(*result),
        }
    }
}

impl View for Step<Result<Quote, Failure>> {
    type V = StepView<Result<QuoteView, Failure>>;

    open spec fn view(&self) -> StepView<Result<QuoteView, Failure>> {
        match self {
            Step::Get(url) => StepView::Get(url@),
            Step::ReadBody => StepView::ReadBody,
            Step::Done(Ok(quote)) => StepView::Done(Ok(quote@)),
            Step::Done(Err(failure)) => StepView::Done(Err(*failure)),
        }
    }
}

impl View for Step<Result<Rates, Failure>> {
    type V = StepView<Result<Seq<(Seq<char>, u32)>, Failure>>;

    open spec fn view(&self) -> StepView<Result<Seq<(Seq<char>, u32)>, Failure>> {
        match self {
            Step::Get(url) => StepView::Get(url@),
            Step::ReadBody => StepView::ReadBody,
            Step::Done(Ok(rates)) => StepView::Done(Ok(rates@)),
            Step::Done(Err(failure)) => StepView::Done(Err(*failure)),
        }
    }
}

} // verus!
