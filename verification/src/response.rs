//! The parts of the response data model that carry plain values: a
//! severe-weather alert and the metadata flags attached to a response.
//!
//! The full response body (the numeric weather readings) lives outside
//! this crate; these shapes are the ones other components inspect.

use vstd::prelude::*;
use crate::codec::Severity;
use crate::codec::Units;

verus! {

/// A severe weather warning issued by a government authority for the
/// requested location.
#[derive(Clone, PartialEq, Eq, Debug)]
pub struct Alert {
    pub description: String,
    pub expires: u64,
    pub regions: Vec<String>,
    pub severity: Severity,
    pub time: u64,
    pub title: String,
    pub uri: String,
}

/// Miscellaneous metadata about a request.
#[derive(Clone, PartialEq, Eq, Debug)]
pub struct Flags {
    pub darksky_unavailable: Option<String>,
    pub sources: Vec<String>,
    pub units: Units,
}

} // verus!
