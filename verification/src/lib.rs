//! The data layer of a currency converter: a cache that holds at most one
//! table of exchange rates, the rules that decide when that table can answer
//! a query and when a new one has to be fetched, and the queries themselves.
//!
//! The library performs no input or output. Each operation that may need the
//! rate service is a step function: it is handed what the transport last
//! reported and answers with what the caller has to do next.

pub mod text;
pub mod rates;
pub mod api_response;
pub mod failure;
pub mod quote;
pub mod step;
pub mod data;
pub mod laws;

pub use api_response::APIResponse;
pub use data::Data;
pub use failure::Failure;
pub use quote::Quote;
pub use rates::Rates;
pub use step::{Event, Step};
