//! The cache and the queries that it answers.

use crate::api_response::{APIResponse, RateTable};
use crate::failure::Failure;
use crate::quote::{Quote, QuoteView};
use crate::rates::{distinct_codes, rate_of, Rates};
use crate::step::{Event, EventView, Step, StepView, STATUS_OK, STATUS_UNAUTHORIZED};
use crate::text::{normalize, normalized, same_text};
use vstd::prelude::*;
use vstd::string::*;

verus! {

/// The address from which the table for `currency` is fetched with the
/// credential `api_key`.
pub open spec fn fetch_url(api_key: Seq<char>, currency: Seq<char>) -> Seq<char> {
    "https://v6.exchangerate-api.com/v6/"@ + api_key + "/latest/"@ + currency
}

/// The currency to which the listing of all rates is relative.
pub open spec fn listing_base() -> Seq<char> {
    "USD"@
}

/// The state of the cache as a plain value: the credential, and the one
/// table that is held, if any.
pub struct CacheState {
    pub api_key: Seq<char>,
    pub cache: Option<RateTable>,
}

impl CacheState {
    /// Whether the table that is held has `currency` as its base, so that a
    /// query for it needs no request.
    pub open spec fn holds(self, currency: Seq<char>) -> bool {
        self.cache matches Some(table) && table.base_code == currency
    }

    /// The state with the credential replaced.
    pub open spec fn with_api_key(self, api_key: Seq<char>) -> CacheState {
        CacheState { api_key, cache: self.cache }
    }

    /// The state after `event` has been reported: a table that arrived
    /// replaces whatever was held, and nothing else changes anything.
    pub open spec fn after(self, event: EventView) -> CacheState {
        match event {
            EventView::Body(Some(table)) => CacheState { api_key: self.api_key, cache: Some(table) },
            _ => self,
        }
    }

    /// What `set_up` answers to `event` in a call for `currency`.
    pub open spec fn set_up(self, currency: Seq<char>, event: EventView) -> StepView<
        Result<(), Failure>,
    > {
        match event {
            EventView::Begin => if self.holds(currency) {
                StepView::Done(Ok(()))
            } else {
                StepView::Get(fetch_url(self.api_key, currency))
            },
            EventView::Unreachable => StepView::Done(Err(Failure::Fetch)),
            EventView::Status(status) => if status == STATUS_OK {
                StepView::ReadBody
            } else if status == STATUS_UNAUTHORIZED {
                StepView::Done(Err(Failure::Auth))
            } else {
                StepView::Done(Err(Failure::Fetch))
            },
            EventView::Body(Some(_)) => StepView::Done(Ok(())),
            EventView::Body(None) => StepView::Done(Err(Failure::Fetch)),
        }
    }

    /// The quote that the table held gives for `target`.
    pub open spec fn quote(self, source: Seq<char>, target: Seq<char>) -> Result<
        QuoteView,
        Failure,
    > {
        match self.cache {
            Some(table) => match rate_of(table.conversion_rates, target) {
                Some(rate) => Ok(QuoteView { source, target, rate }),
                None => Err(Failure::Lookup),
            },
            None => Err(Failure::Lookup),
        }
    }

    /// What `exchange_normalized` answers to `event`.
    pub open spec fn exchange_normalized(
        self,
        source: Seq<char>,
        target: Seq<char>,
        event: EventView,
    ) -> StepView<Result<QuoteView, Failure>> {
        match self.set_up(source, event) {
            StepView::Get(url) => StepView::Get(url),
            StepView::ReadBody => StepView::ReadBody,
            StepView::Done(Err(failure)) => StepView::Done(Err(failure)),
            StepView::Done(Ok(_)) => StepView::Done(self.after(event).quote(source, target)),
        }
    }

    /// What `exchange` answers to `event`.
    pub open spec fn exchange(
        self,
        source_currency: Seq<char>,
        target_currency: Seq<char>,
        event: EventView,
    ) -> StepView<Result<QuoteView, Failure>> {
        self.exchange_normalized(normalized(source_currency), normalized(target_currency), event)
    }

    /// Every pair of the table that is held.
    pub open spec fn listing(self) -> Seq<(Seq<char>, u32)> {
        match self.cache {
            Some(table) => table.conversion_rates,
            None => Seq::empty(),
        }
    }

    /// What `rates` answers to `event`.
    pub open spec fn rates(self, event: EventView) -> StepView<
        Result<Seq<(Seq<char>, u32)>, Failure>,
    > {
        match self.set_up(listing_base(), event) {
            StepView::Get(url) => StepView::Get(url),
            StepView::ReadBody => StepView::ReadBody,
            StepView::Done(Err(failure)) => StepView::Done(Err(failure)),
            StepView::Done(Ok(_)) => StepView::Done(Ok(self.after(event).listing())),
        }
    }
}

/// The credential for the rate service and the table that was fetched last.
#[derive(Debug)]
pub struct Data {
    api_key: String,
    cache: Option<APIResponse>,
}

/// The table of a cache as a plain value.
pub open spec fn table_view(cache: Option<APIResponse>) -> Option<RateTable> {
    match cache {
        Some(table) => Some(table@),
        None => None,
    }
}

impl View for Data {
    type V = CacheState;

    closed spec fn view(&self) -> CacheState {
        CacheState { api_key: self.api_key@, cache: table_view(self.cache) }
    }
}

impl Data {
    /// A cache with the credential `api_key` that holds `cache`.
    pub fn new(api_key: String, cache: Option<APIResponse>) -> (data: Data)
        ensures
            data@ == (CacheState { api_key: api_key@, cache: table_view(cache) }),
    {
        Data { api_key, cache }
    }

    /// Replaces the credential. The table that is held stays; the new
    /// credential is used from the next request on.
    pub fn set_api_key(&mut self, api_key: String)
        ensures
            final(self)@ == old(self)@.with_api_key(api_key@),
    {
        self.api_key = api_key;
    }

    /// The credential.
    pub fn api_key(&self) -> (api_key: &str)
        ensures
            api_key@ == self@.api_key,
    {
        self.api_key.as_str()
    }

    /// The table that is held.
    pub fn cache(&self) -> (cache: Option<&APIResponse>)
        ensures
            match cache {
                Some(table) => self@.cache == Some(table@),
                None => self@.cache is None,
            },
    {
        self.cache.as_ref()
    }

    /// Whether the table that is held has `currency` as its base.
    pub fn holds(&self, currency: &str) -> (held: bool)
        ensures
            held == self@.holds(currency@),
    {
        match &self.cache {
            Some(table) => same_text(table.base_code.as_str(), currency),
            None => false,
        }
    }

    /// The address from which the table for `currency` is fetched.
    fn request_url(&self, currency: &str) -> (url: String)
        ensures
            url@ == fetch_url(self@.api_key, currency@),
    {
        let mut url = String::from_str("https://v6.exchangerate-api.com/v6/");
        url.append(self.api_key.as_str());
        url.append("/latest/");
        url.append(currency);
        url
    }

    /// Makes sure that the table for `currency` is held: one step of it.
    ///
    /// `currency` is compared as it is; trimming and upper-casing are the
    /// caller's. A call begins with `Event::Begin`. Where the table is held
    /// already, it ends at once in success, and no request is made. Otherwise
    /// the cache asks for one request and then, where the service answers
    /// with success, for the body. A table that arrives replaces the one
    /// held. Every other end leaves the cache as it was: a rejected
    /// credential is reported as `Failure::Auth`, and any other status, no
    /// answer, or a body that holds no table as `Failure::Fetch`.
    pub fn set_up(&mut self, currency: &str, event: Event) -> (step: Step<Result<(), Failure>>)
        ensures
            final(self)@ == old(self)@.after(event@),
            step@ == old(self)@.set_up(currency@, event@),
    {
        match event {
            Event::Begin => {
                if self.holds(currency) {
                    Step::Done(Ok(()))
                } else {
                    Step::Get(self.request_url(currency))
                }
            },
            Event::Unreachable => Step::Done(Err(Failure::Fetch)),
            Event::Status(status) => {
                if status == STATUS_OK {
                    Step::ReadBody
                } else if status == STATUS_UNAUTHORIZED {
                    Step::Done(Err(Failure::Auth))
                } else {
                    Step::Done(Err(Failure::Fetch))
                }
            },
            Event::Body(Some(table)) => {
                self.cache = Some(table);
                Step::Done(Ok(()))
            },
            Event::Body(None) => Step::Done(Err(Failure::Fetch)),
        }
    }

    /// The quote for a conversion from `source` into `target` by the table
    /// that is held, whatever its base: `Failure::Lookup` where it has no
    /// rate for `target`, or where no table is held.
    pub fn quote(&self, source: String, target: String) -> (quote: Result<Quote, Failure>)
        ensures
            match quote {
                Ok(found) => self@.quote(source@, target@) == Ok::<QuoteView, Failure>(found@),
                Err(failure) => self@.quote(source@, target@) == Err::<QuoteView, Failure>(failure),
            },
    {
        match &self.cache {
            Some(table) => match table.conversion_rates.get(target.as_str()) {
                Some(rate) => Ok(Quote { source, target, rate }),
                None => Err(Failure::Lookup),
            },
            None => Err(Failure::Lookup),
        }
    }

    /// One step of a conversion between two codes that are in their
    /// normal form already: `set_up` for `source`, and, once that has ended
    /// in success, the quote for `target`. A failure of `set_up` ends the
    /// conversion with that failure.
    pub fn exchange_normalized(&mut self, source: String, target: String, event: Event) -> (step:
        Step<Result<Quote, Failure>>)
        ensures
            final(self)@ == old(self)@.after(event@),
            step@ == old(self)@.exchange_normalized(source@, target@, event@),
    {
        match self.set_up(source.as_str(), event) {
            Step::Get(url) => Step::Get(url),
            Step::ReadBody => Step::ReadBody,
            Step::Done(Err(failure)) => Step::Done(Err(failure)),
            Step::Done(Ok(_)) => Step::Done(self.quote(source, target)),
        }
    }

    /// One step of a conversion from `source_currency` into
    /// `target_currency`. Both codes are trimmed and upper-cased first, so
    /// that ` usd ` and `USD` name the same currency.
    pub fn exchange(&mut self, source_currency: &str, target_currency: &str, event: Event) -> (step:
        Step<Result<Quote, Failure>>)
        ensures
            final(self)@ == old(self)@.after(event@),
            step@ == old(self)@.exchange(source_currency@, target_currency@, event@),
    {
        let source = normalize(source_currency);
        let target = normalize(target_currency);
        self.exchange_normalized(source, target, event)
    }

    /// Every pair of the table that is held, in the table's order.
    fn listing(&self) -> (listing: Rates)
        ensures
            listing@ == self@.listing(),
            distinct_codes(listing@),
    {
        match &self.cache {
            Some(table) => table.conversion_rates.clone(),
            None => Rates::new(),
        }
    }

    /// One step of listing every rate: `set_up` for the dollar, to which the
    /// listing is always relative, and, once that has ended in success,
    /// every pair of the table. The pairs come in the table's own order,
    /// which is the order in which the table was filled and no sorted one.
    pub fn rates(&mut self, event: Event) -> (step: Step<Result<Rates, Failure>>)
        ensures
            final(self)@ == old(self)@.after(event@),
            step@ == old(self)@.rates(event@),
            step matches Step::Done(Ok(listing)) ==> distinct_codes(listing@),
    {
        match self.set_up("USD", event) {
            Step::Get(url) => Step::Get(url),
            Step::ReadBody => Step::ReadBody,
            Step::Done(Err(failure)) => Step::Done(Err(failure)),
            Step::Done(Ok(_)) => Step::Done(Ok(self.listing())),
        }
    }
}

} // verus!
