//! The historical (point-in-time) endpoint: request value and its
//! builder.
//!
//! Identical in shape to the forecast endpoint, with two differences: a
//! required epoch timestamp joins the coordinates in the path, and the
//! widened hourly window (`extend`) is not offered.

use vstd::prelude::*;
use vstd::string::StrSliceExecFns;
use vstd::string::StringExecFns;
use crate::codec::ExcludeBlock;
use crate::codec::Lang;
use crate::codec::Units;
use crate::query::spec_time_machine_query;
use crate::query::time_machine_query;
use crate::strutil::dec_str;
use crate::strutil::u64_to_string;

verus! {

/// The mathematical content of a [`TimeMachineRequest`].
pub ghost struct TimeMachineRequestView {
    pub api_key: Seq<char>,
    pub latitude: Seq<char>,
    pub longitude: Seq<char>,
    pub time: nat,
    pub url: Seq<char>,
    pub exclude: Seq<ExcludeBlock>,
    pub lang: Option<Lang>,
    pub units: Option<Units>,
}

/// The mathematical content of a [`TimeMachineRequestBuilder`].
pub ghost struct TimeMachineRequestBuilderView {
    pub api_key: Seq<char>,
    pub latitude: Seq<char>,
    pub longitude: Seq<char>,
    pub time: nat,
    pub exclude: Seq<ExcludeBlock>,
    pub lang: Option<Lang>,
    pub units: Option<Units>,
}

/// The path of a historical URL: base, API key, the two coordinates
/// and the decimal epoch timestamp.
pub open spec fn spec_time_machine_path(
    api_key: Seq<char>,
    latitude: Seq<char>,
    longitude: Seq<char>,
    time: nat,
) -> Seq<char> {
    "https://api.pirateweather.net/forecast"@ + "/"@ + api_key + "/"@ + latitude + ","@
        + longitude + ","@ + dec_str(time)
}

/// The complete historical URL for the given builder state: the path,
/// followed by `?` and the query string only when at least one optional
/// parameter is present.
pub open spec fn spec_time_machine_url(b: TimeMachineRequestBuilderView) -> Seq<char> {
    let path = spec_time_machine_path(b.api_key, b.latitude, b.longitude, b.time);
    let q = spec_time_machine_query(b.exclude, b.lang, b.units);
    if q.len() == 0 {
        path
    } else {
        path + "?"@ + q
    }
}

/// An immutable, fully-formed request to the historical endpoint,
/// including its precomputed URL.
#[derive(Clone, Debug, PartialEq)]
pub struct TimeMachineRequest {
    api_key: String,
    latitude: String,
    longitude: String,
    time: u64,
    url: String,
    exclude: Vec<ExcludeBlock>,
    lang: Option<Lang>,
    units: Option<Units>,
}

impl View for TimeMachineRequest {
    type V = TimeMachineRequestView;

    closed spec fn view(&self) -> TimeMachineRequestView {
        TimeMachineRequestView {
            api_key: self.api_key@,
            latitude: self.latitude@,
            longitude: self.longitude@,
            time: self.time as nat,
            url: self.url@,
            exclude: self.exclude@,
            lang: self.lang,
            units: self.units,
        }
    }
}

impl TimeMachineRequest {
    /// Assemble a request value from its parts.
    pub fn new(
        api_key: String,
        latitude: String,
        longitude: String,
        time: u64,
        url: String,
        exclude: Vec<ExcludeBlock>,
        lang: Option<Lang>,
        units: Option<Units>,
    ) -> (r: TimeMachineRequest)
        ensures
            r@ == (TimeMachineRequestView {
                api_key: api_key@,
                latitude: latitude@,
                longitude: longitude@,
                time: time as nat,
                url: url@,
                exclude: exclude@,
                lang: lang,
                units: units,
            }),
    {
        TimeMachineRequest { api_key, latitude, longitude, time, url, exclude, lang, units }
    }

    /// The API key this request authenticates with.
    pub fn api_key(&self) -> (r: &str)
        ensures
            r@ == self@.api_key,
    {
        self.api_key.as_str()
    }

    /// The latitude, as the decimal string carried in the URL.
    pub fn latitude(&self) -> (r: &str)
        ensures
            r@ == self@.latitude,
    {
        self.latitude.as_str()
    }

    /// The longitude, as the decimal string carried in the URL.
    pub fn longitude(&self) -> (r: &str)
        ensures
            r@ == self@.longitude,
    {
        self.longitude.as_str()
    }

    /// The epoch timestamp the request asks about.
    pub fn time(&self) -> (r: u64)
        ensures
            r as nat == self@.time,
    {
        self.time
    }

    /// The URL computed when the request was built.
    pub fn url(&self) -> (r: &str)
        ensures
            r@ == self@.url,
    {
        self.url.as_str()
    }

    /// The response sections the caller asked to omit, in the order
    /// they were supplied.
    pub fn exclude(&self) -> (r: &Vec<ExcludeBlock>)
        ensures
            r@ == self@.exclude,
    {
        &self.exclude
    }

    /// The requested response language, if any.
    pub fn lang(&self) -> (r: Option<Lang>)
        ensures
            r == self@.lang,
    {
        self.lang
    }

    /// The requested measurement units, if any.
    pub fn units(&self) -> (r: Option<Units>)
        ensures
            r == self@.units,
    {
        self.units
    }
}

/// Accumulates the parameters of a historical request; `build`
/// finalizes it into a [`TimeMachineRequest`].
#[derive(Clone, Debug, PartialEq)]
pub struct TimeMachineRequestBuilder {
    api_key: String,
    latitude: String,
    longitude: String,
    time: u64,
    exclude: Vec<ExcludeBlock>,
    lang: Option<Lang>,
    units: Option<Units>,
}

impl View for TimeMachineRequestBuilder {
    type V = TimeMachineRequestBuilderView;

    closed spec fn view(&self) -> TimeMachineRequestBuilderView {
        TimeMachineRequestBuilderView {
            api_key: self.api_key@,
            latitude: self.latitude@,
            longitude: self.longitude@,
            time: self.time as nat,
            exclude: self.exclude@,
            lang: self.lang,
            units: self.units,
        }
    }
}

impl TimeMachineRequestBuilder {
    /// Start a builder from the required fields: API key, the two
    /// coordinates (each already rendered as the decimal string that
    /// the URL carries) and the epoch timestamp.
    pub fn new(api_key: &str, latitude: &str, longitude: &str, time: u64) -> (r:
        TimeMachineRequestBuilder)
        ensures
            r@ == (TimeMachineRequestBuilderView {
                api_key: api_key@,
                latitude: latitude@,
                longitude: longitude@,
                time: time as nat,
                exclude: Seq::<ExcludeBlock>::empty(),
                lang: None,
                units: None,
            }),
    {
        TimeMachineRequestBuilder {
            api_key: api_key.to_owned(),
            latitude: latitude.to_owned(),
            longitude: longitude.to_owned(),
            time,
            exclude: Vec::new(),
            lang: None,
            units: None,
        }
    }

    /// Append one response section to exclude; may be called repeatedly
    /// and keeps duplicates.
    pub fn exclude_block(self, exclude_block: ExcludeBlock) -> (r: TimeMachineRequestBuilder)
        ensures
            r@ == (TimeMachineRequestBuilderView {
                exclude: self@.exclude.push(exclude_block),
                ..self@
            }),
    {
        let mut b = self;
        b.exclude.push(exclude_block);
        b
    }

    /// Append many response sections to exclude, consuming the source
    /// vector: afterwards it is empty.
    pub fn exclude_blocks(self, exclude_blocks: &mut Vec<ExcludeBlock>) -> (r:
        TimeMachineRequestBuilder)
        ensures
            r@ == (TimeMachineRequestBuilderView {
                exclude: self@.exclude + old(exclude_blocks)@,
                ..self@
            }),
            final(exclude_blocks)@ == Seq::<ExcludeBlock>::empty(),
    {
        let mut b = self;
        b.exclude.append(exclude_blocks);
        proof {
            assert(final(exclude_blocks)@ =~= Seq::<ExcludeBlock>::empty());
        }
        b
    }

    /// Set the response language; the last call wins.
    pub fn lang(self, lang: Lang) -> (r: TimeMachineRequestBuilder)
        ensures
            r@ == (TimeMachineRequestBuilderView { lang: Some(lang), ..self@ }),
    {
        let mut b = self;
        b.lang = Some(lang);
        b
    }

    /// Set the measurement units; the last call wins.
    pub fn units(self, units: Units) -> (r: TimeMachineRequestBuilder)
        ensures
            r@ == (TimeMachineRequestBuilderView { units: Some(units), ..self@ }),
    {
        let mut b = self;
        b.units = Some(units);
        b
    }

    /// Finalize: compute the URL once and produce the immutable
    /// request.  Every field of the builder is carried over unchanged.
    pub fn build(self) -> (r: TimeMachineRequest)
        ensures
            r@.api_key == self@.api_key,
            r@.latitude == self@.latitude,
            r@.longitude == self@.longitude,
            r@.time == self@.time,
            r@.exclude == self@.exclude,
            r@.lang == self@.lang,
            r@.units == self@.units,
            r@.url == spec_time_machine_url(self@),
    {
        let url = self.build_url();
        TimeMachineRequest::new(
            self.api_key,
            self.latitude,
            self.longitude,
            self.time,
            url,
            self.exclude,
            self.lang,
            self.units,
        )
    }

    fn build_url(&self) -> (url: String)
        ensures
            url@ == spec_time_machine_url(self@),
    {
        let mut url = "https://api.pirateweather.net/forecast".to_owned();
        url.append("/");
        url.append(self.api_key.as_str());
        url.append("/");
        url.append(self.latitude.as_str());
        url.append(",");
        url.append(self.longitude.as_str());
        url.append(",");
        let ts = u64_to_string(self.time);
        url.append(ts.as_str());
        let q = time_machine_query(&self.exclude, &self.lang, &self.units);
        if !q.as_str().is_empty() {
            url.append("?");
            url.append(q.as_str());
        }
        url
    }
}

/// Law: building is deterministic -- two builders in identical states
/// yield byte-identical URLs.
pub proof fn lemma_time_machine_build_deterministic(
    a: TimeMachineRequestBuilderView,
    b: TimeMachineRequestBuilderView,
)
    requires
        a == b,
    ensures
        spec_time_machine_url(a) == spec_time_machine_url(b),
{
}

/// Law: with no optional field set, the URL is exactly the path -- no
/// `?` and no `exclude`, `lang` or `units` parameter.
pub proof fn lemma_time_machine_url_without_optionals(b: TimeMachineRequestBuilderView)
    requires
        b.exclude.len() == 0,
        b.lang is None,
        b.units is None,
    ensures
        spec_time_machine_url(b) == spec_time_machine_path(
            b.api_key,
            b.latitude,
            b.longitude,
            b.time,
        ),
{
}

} // verus!
