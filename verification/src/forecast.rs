//! The forecast endpoint: request value and its builder.
//!
//! A builder is created from the required identity fields (API key and
//! the two coordinates, each already rendered as the decimal string
//! that the URL carries), accumulates optional parameters through
//! chained calls, and on `build` produces an immutable request whose
//! URL is computed exactly once.

use vstd::prelude::*;
use vstd::string::StrSliceExecFns;
use vstd::string::StringExecFns;
use crate::codec::ExcludeBlock;
use crate::codec::ExtendBy;
use crate::codec::Lang;
use crate::codec::Units;
use crate::query::forecast_query;
use crate::query::spec_forecast_query;

verus! {

/// The mathematical content of a [`ForecastRequest`].
pub ghost struct ForecastRequestView {
    pub api_key: Seq<char>,
    pub latitude: Seq<char>,
    pub longitude: Seq<char>,
    pub url: Seq<char>,
    pub exclude: Seq<ExcludeBlock>,
    pub extend: Option<ExtendBy>,
    pub lang: Option<Lang>,
    pub units: Option<Units>,
}

/// The mathematical content of a [`ForecastRequestBuilder`].
pub ghost struct ForecastRequestBuilderView {
    pub api_key: Seq<char>,
    pub latitude: Seq<char>,
    pub longitude: Seq<char>,
    pub exclude: Seq<ExcludeBlock>,
    pub extend: Option<ExtendBy>,
    pub lang: Option<Lang>,
    pub units: Option<Units>,
}

/// The path of a forecast URL: base, API key and the two coordinates.
pub open spec fn spec_forecast_path(
    api_key: Seq<char>,
    latitude: Seq<char>,
    longitude: Seq<char>,
) -> Seq<char> {
    "https://api.pirateweather.net/forecast"@ + "/"@ + api_key + "/"@ + latitude + ","@
        + longitude
}

/// The complete forecast URL for the given builder state: the path,
/// followed by `?` and the query string only when at least one optional
/// parameter is present.
pub open spec fn spec_forecast_url(b: ForecastRequestBuilderView) -> Seq<char> {
    let path = spec_forecast_path(b.api_key, b.latitude, b.longitude);
    let q = spec_forecast_query(b.exclude, b.extend, b.lang, b.units);
    if q.len() == 0 {
        path
    } else {
        path + "?"@ + q
    }
}

/// An immutable, fully-formed request to the forecast endpoint,
/// including its precomputed URL.
#[derive(Clone, Debug, PartialEq)]
pub struct ForecastRequest {
    api_key: String,
    latitude: String,
    longitude: String,
    url: String,
    exclude: Vec<ExcludeBlock>,
    extend: Option<ExtendBy>,
    lang: Option<Lang>,
    units: Option<Units>,
}

impl View for ForecastRequest {
    type V = ForecastRequestView;

    closed spec fn view(&self) -> ForecastRequestView {
        ForecastRequestView {
            api_key: self.api_key@,
            latitude: self.latitude@,
            longitude: self.longitude@,
            url: self.url@,
            exclude: self.exclude@,
            extend: self.extend,
            lang: self.lang,
            units: self.units,
        }
    }
}

impl ForecastRequest {
    /// Assemble a request value from its parts.
    pub fn new(
        api_key: String,
        latitude: String,
        longitude: String,
        url: String,
        exclude: Vec<ExcludeBlock>,
        extend: Option<ExtendBy>,
        lang: Option<Lang>,
        units: Option<Units>,
    ) -> (r: ForecastRequest)
        ensures
            r@ == (ForecastRequestView {
                api_key: api_key@,
                latitude: latitude@,
                longitude: longitude@,
                url: url@,
                exclude: exclude@,
                extend: extend,
                lang: lang,
                units: units,
            }),
    {
        ForecastRequest { api_key, latitude, longitude, url, exclude, extend, lang, units }
    }

    /// The API key this request authenticates with.
    pub fn api_key(&self) -> (r: &str)
        ensures
            r@ == self@.api_key,
    {
        self.api_key.as_str()
    }

    /// The latitude, as the decimal string carried in the URL.
    pub fn latitude(&self) -> (r: &str)
        ensures
            r@ == self@.latitude,
    {
        self.latitude.as_str()
    }

    /// The longitude, as the decimal string carried in the URL.
    pub fn longitude(&self) -> (r: &str)
        ensures
            r@ == self@.longitude,
    {
        self.longitude.as_str()
    }

    /// The URL computed when the request was built.
    pub fn url(&self) -> (r: &str)
        ensures
            r@ == self@.url,
    {
        self.url.as_str()
    }

    /// The response sections the caller asked to omit, in the order
    /// they were supplied.
    pub fn exclude(&self) -> (r: &Vec<ExcludeBlock>)
        ensures
            r@ == self@.exclude,
    {
        &self.exclude
    }

    /// The requested widening of the hourly window, if any.
    pub fn extend(&self) -> (r: Option<ExtendBy>)
        ensures
            r == self@.extend,
    {
        self.extend
    }

    /// The requested response language, if any.
    pub fn lang(&self) -> (r: Option<Lang>)
        ensures
            r == self@.lang,
    {
        self.lang
    }

    /// The requested measurement units, if any.
    pub fn units(&self) -> (r: Option<Units>)
        ensures
            r == self@.units,
    {
        self.units
    }
}

/// Accumulates the parameters of a forecast request; `build` finalizes
/// it into a [`ForecastRequest`].
#[derive(Clone, Debug, PartialEq)]
pub struct ForecastRequestBuilder {
    api_key: String,
    latitude: String,
    longitude: String,
    exclude: Vec<ExcludeBlock>,
    extend: Option<ExtendBy>,
    lang: Option<Lang>,
    units: Option<Units>,
}

impl View for ForecastRequestBuilder {
    type V = ForecastRequestBuilderView;

    closed spec fn view(&self) -> ForecastRequestBuilderView {
        ForecastRequestBuilderView {
            api_key: self.api_key@,
            latitude: self.latitude@,
            longitude: self.longitude@,
            exclude: self.exclude@,
            extend: self.extend,
            lang: self.lang,
            units: self.units,
        }
    }
}

impl ForecastRequestBuilder {
    /// Start a builder from the required fields: API key and the two
    /// coordinates, each already rendered as the decimal string that
    /// the URL carries.
    pub fn new(api_key: &str, latitude: &str, longitude: &str) -> (r: ForecastRequestBuilder)
        ensures
            r@ == (ForecastRequestBuilderView {
                api_key: api_key@,
                latitude: latitude@,
                longitude: longitude@,
                exclude: Seq::<ExcludeBlock>::empty(),
                extend: None,
                lang: None,
                units: None,
            }),
    {
        ForecastRequestBuilder {
            api_key: api_key.to_owned(),
            latitude: latitude.to_owned(),
            longitude: longitude.to_owned(),
            exclude: Vec::new(),
            extend: None,
            lang: None,
            units: None,
        }
    }

    /// Append one response section to exclude; may be called repeatedly
    /// and keeps duplicates.
    pub fn exclude_block(self, exclude_block: ExcludeBlock) -> (r: ForecastRequestBuilder)
        ensures
            r@ == (ForecastRequestBuilderView {
                exclude: self@.exclude.push(exclude_block),
                ..self@
            }),
    {
        let mut b = self;
        b.exclude.push(exclude_block);
        b
    }

    /// Append many response sections to exclude, consuming the source
    /// vector: afterwards it is empty.
    pub fn exclude_blocks(self, exclude_blocks: &mut Vec<ExcludeBlock>) -> (r:
        ForecastRequestBuilder)
        ensures
            r@ == (ForecastRequestBuilderView {
                exclude: self@.exclude + old(exclude_blocks)@,
                ..self@
            }),
            final(exclude_blocks)@ == Seq::<ExcludeBlock>::empty(),
    {
        let mut b = self;
        b.exclude.append(exclude_blocks);
        proof {
            assert(final(exclude_blocks)@ =~= Seq::<ExcludeBlock>::empty());
        }
        b
    }

    /// Ask for the widened hourly window; the last call wins.
    pub fn extend(self, extend: ExtendBy) -> (r: ForecastRequestBuilder)
        ensures
            r@ == (ForecastRequestBuilderView { extend: Some(extend), ..self@ }),
    {
        let mut b = self;
        b.extend = Some(extend);
        b
    }

    /// Set the response language; the last call wins.
    pub fn lang(self, lang: Lang) -> (r: ForecastRequestBuilder)
        ensures
            r@ == (ForecastRequestBuilderView { lang: Some(lang), ..self@ }),
    {
        let mut b = self;
        b.lang = Some(lang);
        b
    }

    /// Set the measurement units; the last call wins.
    pub fn units(self, units: Units) -> (r: ForecastRequestBuilder)
        ensures
            r@ == (ForecastRequestBuilderView { units: Some(units), ..self@ }),
    {
        let mut b = self;
        b.units = Some(units);
        b
    }

    /// Finalize: compute the URL once and produce the immutable
    /// request.  Every field of the builder is carried over unchanged.
    pub fn build(self) -> (r: ForecastRequest)
        ensures
            r@.api_key == self@.api_key,
            r@.latitude == self@.latitude,
            r@.longitude == self@.longitude,
            r@.exclude == self@.exclude,
            r@.extend == self@.extend,
            r@.lang == self@.lang,
            r@.units == self@.units,
            r@.url == spec_forecast_url(self@),
    {
        let url = self.build_url();
        ForecastRequest::new(
            self.api_key,
            self.latitude,
            self.longitude,
            url,
            self.exclude,
            self.extend,
            self.lang,
            self.units,
        )
    }

    fn build_url(&self) -> (url: String)
        ensures
            url@ == spec_forecast_url(self@),
    {
        let mut url = "https://api.pirateweather.net/forecast".to_owned();
        url.append("/");
        url.append(self.api_key.as_str());
        url.append("/");
        url.append(self.latitude.as_str());
        url.append(",");
        url.append(self.longitude.as_str());
        let q = forecast_query(&self.exclude, &self.extend, &self.lang, &self.units);
        if !q.as_str().is_empty() {
            url.append("?");
            url.append(q.as_str());
        }
        url
    }
}

/// Law: building is deterministic -- two builders in identical states
/// yield byte-identical URLs.
pub proof fn lemma_forecast_build_deterministic(
    a: ForecastRequestBuilderView,
    b: ForecastRequestBuilderView,
)
    requires
        a == b,
    ensures
        spec_forecast_url(a) == spec_forecast_url(b),
{
}

/// Law: with no optional field set, the URL is exactly the path -- no
/// `?` and no `exclude`, `extend`, `lang` or `units` parameter.
pub proof fn lemma_forecast_url_without_optionals(b: ForecastRequestBuilderView)
    requires
        b.exclude.len() == 0,
        b.extend is None,
        b.lang is None,
        b.units is None,
    ensures
        spec_forecast_url(b) == spec_forecast_path(b.api_key, b.latitude, b.longitude),
{
}

} // verus!
