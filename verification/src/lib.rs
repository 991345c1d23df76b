//! Typed client library for a weather-data HTTP API.
//!
//! The heart of the crate is the request-construction layer: strongly
//! typed request parameters are turned into a canonical URL (path plus
//! query string), and closed enumerations are mapped to and from their
//! wire-format string tokens.  Everything that computes is specified and
//! verified; the HTTP transport itself lives outside this crate.

pub mod codec;
pub mod forecast;
pub mod query;
pub mod response;
pub mod strutil;
pub mod time_machine;

pub use codec::DecodeError;
pub use codec::ExcludeBlock;
pub use codec::ExtendBy;
pub use codec::Icon;
pub use codec::Lang;
pub use codec::PrecipType;
pub use codec::Severity;
pub use codec::Units;
pub use forecast::ForecastRequest;
pub use forecast::ForecastRequestBuilder;
pub use response::Alert;
pub use response::Flags;
pub use time_machine::TimeMachineRequest;
pub use time_machine::TimeMachineRequestBuilder;
