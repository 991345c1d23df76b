//! Bidirectional mapping between the closed wire enumerations and their
//! string tokens.
//!
//! Every enumeration here is wire-stable: `encode` is a total pure
//! function yielding exactly one bare token per variant (no surrounding
//! quoting), and `decode` accepts exactly the documented token set,
//! failing with [`DecodeError::UnrecognizedToken`] on anything else.

use vstd::prelude::*;
use crate::strutil::str_eq;

verus! {

/// Error raised when a wire token does not belong to the documented
/// token set of the enumeration being decoded.
#[derive(Clone, Copy, PartialEq, Eq, Debug)]
pub enum DecodeError {
    UnrecognizedToken,
}

/// Sections of the response body that a request can ask the server to
/// omit.
#[derive(Clone, Copy, PartialEq, Eq, Debug)]
pub enum ExcludeBlock {
    Currently,
    Minutely,
    Hourly,
    Daily,
    Alerts,
    Flags,
}

/// The wire token emitted for an [`ExcludeBlock`].
pub open spec fn exclude_block_token(b: ExcludeBlock) -> Seq<char> {
    match b {
        ExcludeBlock::Currently => "currently"@,
        ExcludeBlock::Minutely => "minutely"@,
        ExcludeBlock::Hourly => "hourly"@,
        ExcludeBlock::Daily => "daily"@,
        ExcludeBlock::Alerts => "alerts"@,
        ExcludeBlock::Flags => "flags"@,
    }
}

/// The variant an [`ExcludeBlock`] wire token decodes to, if any.
pub open spec fn spec_decode_exclude_block(s: Seq<char>) -> Option<ExcludeBlock> {
    if s == "currently"@ {
        Some(ExcludeBlock::Currently)
    } else if s == "minutely"@ {
        Some(ExcludeBlock::Minutely)
    } else if s == "hourly"@ {
        Some(ExcludeBlock::Hourly)
    } else if s == "daily"@ {
        Some(ExcludeBlock::Daily)
    } else if s == "alerts"@ {
        Some(ExcludeBlock::Alerts)
    } else if s == "flags"@ {
        Some(ExcludeBlock::Flags)
    } else {
        None
    }
}

impl ExcludeBlock {
    /// Emit the bare wire token for this variant.
    pub fn encode(&self) -> (r: &'static str)
        ensures
            r@ == exclude_block_token(*self),
    {
        match self {
            ExcludeBlock::Currently => "currently",
            ExcludeBlock::Minutely => "minutely",
            ExcludeBlock::Hourly => "hourly",
            ExcludeBlock::Daily => "daily",
            ExcludeBlock::Alerts => "alerts",
            ExcludeBlock::Flags => "flags",
        }
    }

    /// Decode a wire token; fails on anything outside the token set.
    pub fn decode(token: &str) -> (r: Result<ExcludeBlock, DecodeError>)
        ensures
            (match spec_decode_exclude_block(token@) {
                Some(v) => r == Ok::<ExcludeBlock, DecodeError>(v),
                None => r == Err::<ExcludeBlock, DecodeError>(DecodeError::UnrecognizedToken),
            }),
    {
        if str_eq(token, "currently") {
            Ok(ExcludeBlock::Currently)
        } else if str_eq(token, "minutely") {
            Ok(ExcludeBlock::Minutely)
        } else if str_eq(token, "hourly") {
            Ok(ExcludeBlock::Hourly)
        } else if str_eq(token, "daily") {
            Ok(ExcludeBlock::Daily)
        } else if str_eq(token, "alerts") {
            Ok(ExcludeBlock::Alerts)
        } else if str_eq(token, "flags") {
            Ok(ExcludeBlock::Flags)
        } else {
            Err(DecodeError::UnrecognizedToken)
        }
    }
}

/// Law: for every exclude block, decoding its encoding yields the
/// variant back.
pub proof fn lemma_exclude_block_round_trip(b: ExcludeBlock)
    ensures
        spec_decode_exclude_block(exclude_block_token(b)) == Some(b),
{
    reveal_strlit("currently");
    reveal_strlit("minutely");
    reveal_strlit("hourly");
    reveal_strlit("daily");
    reveal_strlit("alerts");
    reveal_strlit("flags");
    assert("currently"@.len() == 9);
    assert("minutely"@.len() == 8);
    assert("hourly"@.len() == 6);
    assert("daily"@.len() == 5);
    assert("alerts"@.len() == 6);
    assert("flags"@.len() == 5);
    assert("hourly"@[0] == 'h');
    assert("alerts"@[0] == 'a');
    assert("daily"@[0] == 'd');
    assert("flags"@[0] == 'f');
    match b {
        ExcludeBlock::Currently => {
            assert(spec_decode_exclude_block("currently"@) == Some(ExcludeBlock::Currently));
        },
        ExcludeBlock::Minutely => {
            assert(spec_decode_exclude_block("minutely"@) == Some(ExcludeBlock::Minutely));
        },
        ExcludeBlock::Hourly => {
            assert(spec_decode_exclude_block("hourly"@) == Some(ExcludeBlock::Hourly));
        },
        ExcludeBlock::Daily => {
            assert(spec_decode_exclude_block("daily"@) == Some(ExcludeBlock::Daily));
        },
        ExcludeBlock::Alerts => {
            assert(spec_decode_exclude_block("alerts"@) == Some(ExcludeBlock::Alerts));
        },
        ExcludeBlock::Flags => {
            assert(spec_decode_exclude_block("flags"@) == Some(ExcludeBlock::Flags));
        },
    }
}

/// The kind of precipitation occurring at a particular time.
#[derive(Clone, Copy, PartialEq, Eq, Debug)]
pub enum PrecipType {
    Rain,
    Snow,
    Sleet,
}

/// The wire token emitted for a [`PrecipType`].
pub open spec fn precip_type_token(v: PrecipType) -> Seq<char> {
    match v {
        PrecipType::Rain => "rain"@,
        PrecipType::Snow => "snow"@,
        PrecipType::Sleet => "sleet"@,
    }
}

/// The variant a [`PrecipType`] wire token decodes to, if any.
pub open spec fn spec_decode_precip_type(s: Seq<char>) -> Option<PrecipType> {
    if s == "rain"@ {
        Some(PrecipType::Rain)
    } else if s == "snow"@ {
        Some(PrecipType::Snow)
    } else if s == "sleet"@ {
        Some(PrecipType::Sleet)
    } else {
        None
    }
}

impl PrecipType {
    /// Emit the bare wire token for this variant.
    pub fn encode(&self) -> (r: &'static str)
        ensures
            r@ == precip_type_token(*self),
    {
        match self {
            PrecipType::Rain => "rain",
            PrecipType::Snow => "snow",
            PrecipType::Sleet => "sleet",
        }
    }

    /// Decode a wire token; fails on anything outside the token set.
    pub fn decode(token: &str) -> (r: Result<PrecipType, DecodeError>)
        ensures
            (match spec_decode_precip_type(token@) {
                Some(v) => r == Ok::<PrecipType, DecodeError>(v),
                None => r == Err::<PrecipType, DecodeError>(DecodeError::UnrecognizedToken),
            }),
    {
        if str_eq(token, "rain") {
            Ok(PrecipType::Rain)
        } else if str_eq(token, "snow") {
            Ok(PrecipType::Snow)
        } else if str_eq(token, "sleet") {
            Ok(PrecipType::Sleet)
        } else {
            Err(DecodeError::UnrecognizedToken)
        }
    }
}

/// Law: for every variant of [`PrecipType`], decoding its encoding yields
/// the variant back.
pub proof fn lemma_precip_type_round_trip(v: PrecipType)
    ensures
        spec_decode_precip_type(precip_type_token(v)) == Some(v),
{
    reveal_strlit("rain");
    reveal_strlit("snow");
    reveal_strlit("sleet");
    assert("rain"@.len() == 4);
    assert("snow"@.len() == 4);
    assert("sleet"@.len() == 5);
    assert("rain"@[0] == 'r');
    assert("snow"@[0] == 's');
    assert("sleet"@[0] == 's');
    match v {
        PrecipType::Rain => {
            assert(spec_decode_precip_type("rain"@) == Some(PrecipType::Rain));
        },
        PrecipType::Snow => {
            assert(spec_decode_precip_type("snow"@) == Some(PrecipType::Snow));
        },
        PrecipType::Sleet => {
            assert(spec_decode_precip_type("sleet"@) == Some(PrecipType::Sleet));
        },
    }
}

/// When present in a request, widens the time window of the hourly response data.
#[derive(Clone, Copy, PartialEq, Eq, Debug)]
pub enum ExtendBy {
    Hourly,
}

/// The wire token emitted for a [`ExtendBy`].
pub open spec fn extend_by_token(v: ExtendBy) -> Seq<char> {
    match v {
        ExtendBy::Hourly => "hourly"@,
    }
}

/// The variant a [`ExtendBy`] wire token decodes to, if any.
pub open spec fn spec_decode_extend_by(s: Seq<char>) -> Option<ExtendBy> {
    if s == "hourly"@ {
        Some(ExtendBy::Hourly)
    } else {
        None
    }
}

impl ExtendBy {
    /// Emit the bare wire token for this variant.
    pub fn encode(&self) -> (r: &'static str)
        ensures
            r@ == extend_by_token(*self),
    {
        match self {
            ExtendBy::Hourly => "hourly",
        }
    }

    /// Decode a wire token; fails on anything outside the token set.
    pub fn decode(token: &str) -> (r: Result<ExtendBy, DecodeError>)
        ensures
            (match spec_decode_extend_by(token@) {
                Some(v) => r == Ok::<ExtendBy, DecodeError>(v),
                None => r == Err::<ExtendBy, DecodeError>(DecodeError::UnrecognizedToken),
            }),
    {
        if str_eq(token, "hourly") {
            Ok(ExtendBy::Hourly)
        } else {
            Err(DecodeError::UnrecognizedToken)
        }
    }
}

/// Law: for every variant of [`ExtendBy`], decoding its encoding yields
/// the variant back.
pub proof fn lemma_extend_by_round_trip(v: ExtendBy)
    ensures
        spec_decode_extend_by(extend_by_token(v)) == Some(v),
{
    reveal_strlit("hourly");
    assert("hourly"@.len() == 6);
    assert("hourly"@[0] == 'h');
    match v {
        ExtendBy::Hourly => {
            assert(spec_decode_extend_by("hourly"@) == Some(ExtendBy::Hourly));
        },
    }
}

/// The measurement units requested for response data.
#[derive(Clone, Copy, PartialEq, Eq, Debug)]
pub enum Units {
    Auto,
    CA,
    UK,
    Imperial,
    SI,
}

/// The wire token emitted for a [`Units`].
pub open spec fn units_token(v: Units) -> Seq<char> {
    match v {
        Units::Auto => "auto"@,
        Units::CA => "ca"@,
        Units::UK => "uk2"@,
        Units::Imperial => "us"@,
        Units::SI => "si"@,
    }
}

/// The variant a [`Units`] wire token decodes to, if any.
pub open spec fn spec_decode_units(s: Seq<char>) -> Option<Units> {
    if s == "auto"@ {
        Some(Units::Auto)
    } else if s == "ca"@ {
        Some(Units::CA)
    } else if s == "uk2"@ {
        Some(Units::UK)
    } else if s == "us"@ {
        Some(Units::Imperial)
    } else if s == "si"@ {
        Some(Units::SI)
    } else {
        None
    }
}

impl Units {
    /// Emit the bare wire token for this variant.
    pub fn encode(&self) -> (r: &'static str)
        ensures
            r@ == units_token(*self),
    {
        match self {
            Units::Auto => "auto",
            Units::CA => "ca",
            Units::UK => "uk2",
            Units::Imperial => "us",
            Units::SI => "si",
        }
    }

    /// Decode a wire token; fails on anything outside the token set.
    pub fn decode(token: &str) -> (r: Result<Units, DecodeError>)
        ensures
            (match spec_decode_units(token@) {
                Some(v) => r == Ok::<Units, DecodeError>(v),
                None => r == Err::<Units, DecodeError>(DecodeError::UnrecognizedToken),
            }),
    {
        if str_eq(token, "auto") {
            Ok(Units::Auto)
        } else if str_eq(token, "ca") {
            Ok(Units::CA)
        } else if str_eq(token, "uk2") {
            Ok(Units::UK)
        } else if str_eq(token, "us") {
            Ok(Units::Imperial)
        } else if str_eq(token, "si") {
            Ok(Units::SI)
        } else {
            Err(DecodeError::UnrecognizedToken)
        }
    }
}

/// Law: for every variant of [`Units`], decoding its encoding yields
/// the variant back.
pub proof fn lemma_units_round_trip(v: Units)
    ensures
        spec_decode_units(units_token(v)) == Some(v),
{
    reveal_strlit("auto");
    reveal_strlit("ca");
    reveal_strlit("uk2");
    reveal_strlit("us");
    reveal_strlit("si");
    assert("auto"@.len() == 4);
    assert("ca"@.len() == 2);
    assert("uk2"@.len() == 3);
    assert("us"@.len() == 2);
    assert("si"@.len() == 2);
    assert("auto"@[0] == 'a');
    assert("ca"@[0] == 'c');
    assert("uk2"@[0] == 'u');
    assert("us"@[0] == 'u');
    assert("si"@[0] == 's');
    match v {
        Units::Auto => {
            assert(spec_decode_units("auto"@) == Some(Units::Auto));
        },
        Units::CA => {
            assert(spec_decode_units("ca"@) == Some(Units::CA));
        },
        Units::UK => {
            assert(spec_decode_units("uk2"@) == Some(Units::UK));
        },
        Units::Imperial => {
            assert(spec_decode_units("us"@) == Some(Units::Imperial));
        },
        Units::SI => {
            assert(spec_decode_units("si"@) == Some(Units::SI));
        },
    }
}

/// The severity of a weather alert.
#[derive(Clone, Copy, PartialEq, Eq, Debug)]
pub enum Severity {
    Advisory,
    Watch,
    Warning,
}

/// The wire token emitted for a [`Severity`].
pub open spec fn severity_token(v: Severity) -> Seq<char> {
    match v {
        Severity::Advisory => "advisory"@,
        Severity::Watch => "watch"@,
        Severity::Warning => "warning"@,
    }
}

/// The variant a [`Severity`] wire token decodes to, if any.
pub open spec fn spec_decode_severity(s: Seq<char>) -> Option<Severity> {
    if s == "advisory"@ {
        Some(Severity::Advisory)
    } else if s == "watch"@ {
        Some(Severity::Watch)
    } else if s == "warning"@ {
        Some(Severity::Warning)
    } else {
        None
    }
}

impl Severity {
    /// Emit the bare wire token for this variant.
    pub fn encode(&self) -> (r: &'static str)
        ensures
            r@ == severity_token(*self),
    {
        match self {
            Severity::Advisory => "advisory",
            Severity::Watch => "watch",
            Severity::Warning => "warning",
        }
    }

    /// Decode a wire token; fails on anything outside the token set.
    pub fn decode(token: &str) -> (r: Result<Severity, DecodeError>)
        ensures
            (match spec_decode_severity(token@) {
                Some(v) => r == Ok::<Severity, DecodeError>(v),
                None => r == Err::<Severity, DecodeError>(DecodeError::UnrecognizedToken),
            }),
    {
        if str_eq(token, "advisory") {
            Ok(Severity::Advisory)
        } else if str_eq(token, "watch") {
            Ok(Severity::Watch)
        } else if str_eq(token, "warning") {
            Ok(Severity::Warning)
        } else {
            Err(DecodeError::UnrecognizedToken)
        }
    }
}

/// Law: for every variant of [`Severity`], decoding its encoding yields
/// the variant back.
pub proof fn lemma_severity_round_trip(v: Severity)
    ensures
        spec_decode_severity(severity_token(v)) == Some(v),
{
    reveal_strlit("advisory");
    reveal_strlit("watch");
    reveal_strlit("warning");
    assert("advisory"@.len() == 8);
    assert("watch"@.len() == 5);
    assert("warning"@.len() == 7);
    assert("advisory"@[0] == 'a');
    assert("watch"@[0] == 'w');
    assert("warning"@[0] == 'w');
    match v {
        Severity::Advisory => {
            assert(spec_decode_severity("advisory"@) == Some(Severity::Advisory));
        },
        Severity::Watch => {
            assert(spec_decode_severity("watch"@) == Some(Severity::Watch));
        },
        Severity::Warning => {
            assert(spec_decode_severity("warning"@) == Some(Severity::Warning));
        },
    }
}

/// An icon summarising the weather for display.
#[derive(Clone, Copy, PartialEq, Eq, Debug)]
pub enum Icon {
    ClearDay,
    ClearNight,
    Rain,
    Snow,
    Sleet,
    Wind,
    Fog,
    Cloudy,
    PartlyCloudyDay,
    PartlyCloudyNight,
    Hail,
    Thunderstorm,
    Tornado,
}

/// The wire token emitted for a [`Icon`].
pub open spec fn icon_token(v: Icon) -> Seq<char> {
    match v {
        Icon::ClearDay => "clear-day"@,
        Icon::ClearNight => "clear-night"@,
        Icon::Rain => "rain"@,
        Icon::Snow => "snow"@,
        Icon::Sleet => "sleet"@,
        Icon::Wind => "wind"@,
        Icon::Fog => "fog"@,
        Icon::Cloudy => "cloudy"@,
        Icon::PartlyCloudyDay => "partly-cloudy-day"@,
        Icon::PartlyCloudyNight => "partly-cloudy-night"@,
        Icon::Hail => "hail"@,
        Icon::Thunderstorm => "thunderstorm"@,
        Icon::Tornado => "tornado"@,
    }
}

/// The variant a [`Icon`] wire token decodes to, if any.
pub open spec fn spec_decode_icon(s: Seq<char>) -> Option<Icon> {
    if s == "clear-day"@ {
        Some(Icon::ClearDay)
    } else if s == "clear-night"@ {
        Some(Icon::ClearNight)
    } else if s == "rain"@ {
        Some(Icon::Rain)
    } else if s == "snow"@ {
        Some(Icon::Snow)
    } else if s == "sleet"@ {
        Some(Icon::Sleet)
    } else if s == "wind"@ {
        Some(Icon::Wind)
    } else if s == "fog"@ {
        Some(Icon::Fog)
    } else if s == "cloudy"@ {
        Some(Icon::Cloudy)
    } else if s == "partly-cloudy-day"@ {
        Some(Icon::PartlyCloudyDay)
    } else if s == "partly-cloudy-night"@ {
        Some(Icon::PartlyCloudyNight)
    } else if s == "hail"@ {
        Some(Icon::Hail)
    } else if s == "thunderstorm"@ {
        Some(Icon::Thunderstorm)
    } else if s == "tornado"@ {
        Some(Icon::Tornado)
    } else {
        None
    }
}

impl Icon {
    /// Emit the bare wire token for this variant.
    pub fn encode(&self) -> (r: &'static str)
        ensures
            r@ == icon_token(*self),
    {
        match self {
            Icon::ClearDay => "clear-day",
            Icon::ClearNight => "clear-night",
            Icon::Rain => "rain",
            Icon::Snow => "snow",
            Icon::Sleet => "sleet",
            Icon::Wind => "wind",
            Icon::Fog => "fog",
            Icon::Cloudy => "cloudy",
            Icon::PartlyCloudyDay => "partly-cloudy-day",
            Icon::PartlyCloudyNight => "partly-cloudy-night",
            Icon::Hail => "hail",
            Icon::Thunderstorm => "thunderstorm",
            Icon::Tornado => "tornado",
        }
    }

    /// Decode a wire token; fails on anything outside the token set.
    pub fn decode(token: &str) -> (r: Result<Icon, DecodeError>)
        ensures
            (match spec_decode_icon(token@) {
                Some(v) => r == Ok::<Icon, DecodeError>(v),
                None => r == Err::<Icon, DecodeError>(DecodeError::UnrecognizedToken),
            }),
    {
        if str_eq(token, "clear-day") {
            Ok(Icon::ClearDay)
        } else if str_eq(token, "clear-night") {
            Ok(Icon::ClearNight)
        } else if str_eq(token, "rain") {
            Ok(Icon::Rain)
        } else if str_eq(token, "snow") {
            Ok(Icon::Snow)
        } else if str_eq(token, "sleet") {
            Ok(Icon::Sleet)
        } else if str_eq(token, "wind") {
            Ok(Icon::Wind)
        } else if str_eq(token, "fog") {
            Ok(Icon::Fog)
        } else if str_eq(token, "cloudy") {
            Ok(Icon::Cloudy)
        } else if str_eq(token, "partly-cloudy-day") {
            Ok(Icon::PartlyCloudyDay)
        } else if str_eq(token, "partly-cloudy-night") {
            Ok(Icon::PartlyCloudyNight)
        } else if str_eq(token, "hail") {
            Ok(Icon::Hail)
        } else if str_eq(token, "thunderstorm") {
            Ok(Icon::Thunderstorm)
        } else if str_eq(token, "tornado") {
            Ok(Icon::Tornado)
        } else {
            Err(DecodeError::UnrecognizedToken)
        }
    }
}

/// Law: for every variant of [`Icon`], decoding its encoding yields
/// the variant back.
pub proof fn lemma_icon_round_trip(v: Icon)
    ensures
        spec_decode_icon(icon_token(v)) == Some(v),
{
    reveal_strlit("clear-day");
    reveal_strlit("clear-night");
    reveal_strlit("rain");
    reveal_strlit("snow");
    reveal_strlit("sleet");
    reveal_strlit("wind");
    reveal_strlit("fog");
    reveal_strlit("cloudy");
    reveal_strlit("partly-cloudy-day");
    reveal_strlit("partly-cloudy-night");
    reveal_strlit("hail");
    reveal_strlit("thunderstorm");
    reveal_strlit("tornado");
    assert("clear-day"@.len() == 9);
    assert("clear-night"@.len() == 11);
    assert("rain"@.len() == 4);
    assert("snow"@.len() == 4);
    assert("sleet"@.len() == 5);
    assert("wind"@.len() == 4);
    assert("fog"@.len() == 3);
    assert("cloudy"@.len() == 6);
    assert("partly-cloudy-day"@.len() == 17);
    assert("partly-cloudy-night"@.len() == 19);
    assert("hail"@.len() == 4);
    assert("thunderstorm"@.len() == 12);
    assert("tornado"@.len() == 7);
    assert("clear-day"@[0] == 'c');
    assert("clear-night"@[0] == 'c');
    assert("rain"@[0] == 'r');
    assert("snow"@[0] == 's');
    assert("sleet"@[0] == 's');
    assert("wind"@[0] == 'w');
    assert("fog"@[0] == 'f');
    assert("cloudy"@[0] == 'c');
    assert("partly-cloudy-day"@[0] == 'p');
    assert("partly-cloudy-night"@[0] == 'p');
    assert("hail"@[0] == 'h');
    assert("thunderstorm"@[0] == 't');
    assert("tornado"@[0] == 't');
    match v {
        Icon::ClearDay => {
            assert(spec_decode_icon("clear-day"@) == Some(Icon::ClearDay));
        },
        Icon::ClearNight => {
            assert(spec_decode_icon("clear-night"@) == Some(Icon::ClearNight));
        },
        Icon::Rain => {
            assert(spec_decode_icon("rain"@) == Some(Icon::Rain));
        },
        Icon::Snow => {
            assert(spec_decode_icon("snow"@) == Some(Icon::Snow));
        },
        Icon::Sleet => {
            assert(spec_decode_icon("sleet"@) == Some(Icon::Sleet));
        },
        Icon::Wind => {
            assert(spec_decode_icon("wind"@) == Some(Icon::Wind));
        },
        Icon::Fog => {
            assert(spec_decode_icon("fog"@) == Some(Icon::Fog));
        },
        Icon::Cloudy => {
            assert(spec_decode_icon("cloudy"@) == Some(Icon::Cloudy));
        },
        Icon::PartlyCloudyDay => {
            assert(spec_decode_icon("partly-cloudy-day"@) == Some(Icon::PartlyCloudyDay));
        },
        Icon::PartlyCloudyNight => {
            assert(spec_decode_icon("partly-cloudy-night"@) == Some(Icon::PartlyCloudyNight));
        },
        Icon::Hail => {
            assert(spec_decode_icon("hail"@) == Some(Icon::Hail));
        },
        Icon::Thunderstorm => {
            assert(spec_decode_icon("thunderstorm"@) == Some(Icon::Thunderstorm));
        },
        Icon::Tornado => {
            assert(spec_decode_icon("tornado"@) == Some(Icon::Tornado));
        },
    }
}

/// The language for summaries in the response data.
#[derive(Clone, Copy, PartialEq, Eq, Debug)]
pub enum Lang {
    Arabic,
    Azerbaijani,
    Belarusian,
    Bulgarian,
    Bosnian,
    Catalan,
    Czech,
    Danish,
    German,
    Greek,
    English,
    Spanish,
    Estonian,
    Finnish,
    French,
    Croatian,
    Hungarian,
    Indonesian,
    Icelandic,
    Italian,
    Japanese,
    Georgian,
    Korean,
    Cornish,
    NorwegianBokmal,
    Dutch,
    Polish,
    Portuguese,
    Romanian,
    Russian,
    Slovak,
    Slovenian,
    Serbian,
    Swedish,
    Tetum,
    Turkish,
    Ukranian,
    IgpayAtinlay,
    SimplifiedChinese,
    TraditionalChinese,
}

/// The wire token emitted for a [`Lang`].
pub open spec fn lang_token(v: Lang) -> Seq<char> {
    match v {
        Lang::Arabic => "ar"@,
        Lang::Azerbaijani => "az"@,
        Lang::Belarusian => "be"@,
        Lang::Bulgarian => "bg"@,
        Lang::Bosnian => "bs"@,
        Lang::Catalan => "ca"@,
        Lang::Czech => "cz"@,
        Lang::Danish => "da"@,
        Lang::German => "de"@,
        Lang::Greek => "el"@,
        Lang::English => "en"@,
        Lang::Spanish => "es"@,
        Lang::Estonian => "et"@,
        Lang::Finnish => "fi"@,
        Lang::French => "fr"@,
        Lang::Croatian => "hr"@,
        Lang::Hungarian => "hu"@,
        Lang::Indonesian => "id"@,
        Lang::Icelandic => "is"@,
        Lang::Italian => "it"@,
        Lang::Japanese => "ja"@,
        Lang::Georgian => "ka"@,
        Lang::Korean => "ko"@,
        Lang::Cornish => "kw"@,
        Lang::NorwegianBokmal => "nb"@,
        Lang::Dutch => "nl"@,
        Lang::Polish => "pl"@,
        Lang::Portuguese => "pt"@,
        Lang::Romanian => "ro"@,
        Lang::Russian => "ru"@,
        Lang::Slovak => "sk"@,
        Lang::Slovenian => "sl"@,
        Lang::Serbian => "sr"@,
        Lang::Swedish => "sv"@,
        Lang::Tetum => "tet"@,
        Lang::Turkish => "tr"@,
        Lang::Ukranian => "uk"@,
        Lang::IgpayAtinlay => "x-pig-latin"@,
        Lang::SimplifiedChinese => "zh"@,
        Lang::TraditionalChinese => "zh-tw"@,
    }
}

/// The variant a [`Lang`] wire token decodes to, if any.  The token
/// `"no"` is an input-only alias accepted for the same variant as
/// `"nb"`; encoding always yields `"nb"`.
pub open spec fn spec_decode_lang(s: Seq<char>) -> Option<Lang> {
    if s == "no"@ {
        Some(Lang::NorwegianBokmal)
    } else if s == "ar"@ {
        Some(Lang::Arabic)
    } else if s == "az"@ {
        Some(Lang::Azerbaijani)
    } else if s == "be"@ {
        Some(Lang::Belarusian)
    } else if s == "bg"@ {
        Some(Lang::Bulgarian)
    } else if s == "bs"@ {
        Some(Lang::Bosnian)
    } else if s == "ca"@ {
        Some(Lang::Catalan)
    } else if s == "cz"@ {
        Some(Lang::Czech)
    } else if s == "da"@ {
        Some(Lang::Danish)
    } else if s == "de"@ {
        Some(Lang::German)
    } else if s == "el"@ {
        Some(Lang::Greek)
    } else if s == "en"@ {
        Some(Lang::English)
    } else if s == "es"@ {
        Some(Lang::Spanish)
    } else if s == "et"@ {
        Some(Lang::Estonian)
    } else if s == "fi"@ {
        Some(Lang::Finnish)
    } else if s == "fr"@ {
        Some(Lang::French)
    } else if s == "hr"@ {
        Some(Lang::Croatian)
    } else if s == "hu"@ {
        Some(Lang::Hungarian)
    } else if s == "id"@ {
        Some(Lang::Indonesian)
    } else if s == "is"@ {
        Some(Lang::Icelandic)
    } else if s == "it"@ {
        Some(Lang::Italian)
    } else if s == "ja"@ {
        Some(Lang::Japanese)
    } else if s == "ka"@ {
        Some(Lang::Georgian)
    } else if s == "ko"@ {
        Some(Lang::Korean)
    } else if s == "kw"@ {
        Some(Lang::Cornish)
    } else if s == "nb"@ {
        Some(Lang::NorwegianBokmal)
    } else if s == "nl"@ {
        Some(Lang::Dutch)
    } else if s == "pl"@ {
        Some(Lang::Polish)
    } else if s == "pt"@ {
        Some(Lang::Portuguese)
    } else if s == "ro"@ {
        Some(Lang::Romanian)
    } else if s == "ru"@ {
        Some(Lang::Russian)
    } else if s == "sk"@ {
        Some(Lang::Slovak)
    } else if s == "sl"@ {
        Some(Lang::Slovenian)
    } else if s == "sr"@ {
        Some(Lang::Serbian)
    } else if s == "sv"@ {
        Some(Lang::Swedish)
    } else if s == "tet"@ {
        Some(Lang::Tetum)
    } else if s == "tr"@ {
        Some(Lang::Turkish)
    } else if s == "uk"@ {
        Some(Lang::Ukranian)
    } else if s == "x-pig-latin"@ {
        Some(Lang::IgpayAtinlay)
    } else if s == "zh"@ {
        Some(Lang::SimplifiedChinese)
    } else if s == "zh-tw"@ {
        Some(Lang::TraditionalChinese)
    } else {
        None
    }
}

impl Lang {
    /// Emit the bare wire token for this variant.
    pub fn encode(&self) -> (r: &'static str)
        ensures
            r@ == lang_token(*self),
    {
        match self {
            Lang::Arabic => "ar",
            Lang::Azerbaijani => "az",
            Lang::Belarusian => "be",
            Lang::Bulgarian => "bg",
            Lang::Bosnian => "bs",
            Lang::Catalan => "ca",
            Lang::Czech => "cz",
            Lang::Danish => "da",
            Lang::German => "de",
            Lang::Greek => "el",
            Lang::English => "en",
            Lang::Spanish => "es",
            Lang::Estonian => "et",
            Lang::Finnish => "fi",
            Lang::French => "fr",
            Lang::Croatian => "hr",
            Lang::Hungarian => "hu",
            Lang::Indonesian => "id",
            Lang::Icelandic => "is",
            Lang::Italian => "it",
            Lang::Japanese => "ja",
            Lang::Georgian => "ka",
            Lang::Korean => "ko",
            Lang::Cornish => "kw",
            Lang::NorwegianBokmal => "nb",
            Lang::Dutch => "nl",
            Lang::Polish => "pl",
            Lang::Portuguese => "pt",
            Lang::Romanian => "ro",
            Lang::Russian => "ru",
            Lang::Slovak => "sk",
            Lang::Slovenian => "sl",
            Lang::Serbian => "sr",
            Lang::Swedish => "sv",
            Lang::Tetum => "tet",
            Lang::Turkish => "tr",
            Lang::Ukranian => "uk",
            Lang::IgpayAtinlay => "x-pig-latin",
            Lang::SimplifiedChinese => "zh",
            Lang::TraditionalChinese => "zh-tw",
        }
    }

    /// Decode a wire token; fails on anything outside the token set.
    pub fn decode(token: &str) -> (r: Result<Lang, DecodeError>)
        ensures
            (match spec_decode_lang(token@) {
                Some(v) => r == Ok::<Lang, DecodeError>(v),
                None => r == Err::<Lang, DecodeError>(DecodeError::UnrecognizedToken),
            }),
    {
        if str_eq(token, "no") {
            Ok(Lang::NorwegianBokmal)
        } else if str_eq(token, "ar") {
            Ok(Lang::Arabic)
        } else if str_eq(token, "az") {
            Ok(Lang::Azerbaijani)
        } else if str_eq(token, "be") {
            Ok(Lang::Belarusian)
        } else if str_eq(token, "bg") {
            Ok(Lang::Bulgarian)
        } else if str_eq(token, "bs") {
            Ok(Lang::Bosnian)
        } else if str_eq(token, "ca") {
            Ok(Lang::Catalan)
        } else if str_eq(token, "cz") {
            Ok(Lang::Czech)
        } else if str_eq(token, "da") {
            Ok(Lang::Danish)
        } else if str_eq(token, "de") {
            Ok(Lang::German)
        } else if str_eq(token, "el") {
            Ok(Lang::Greek)
        } else if str_eq(token, "en") {
            Ok(Lang::English)
        } else if str_eq(token, "es") {
            Ok(Lang::Spanish)
        } else if str_eq(token, "et") {
            Ok(Lang::Estonian)
        } else if str_eq(token, "fi") {
            Ok(Lang::Finnish)
        } else if str_eq(token, "fr") {
            Ok(Lang::French)
        } else if str_eq(token, "hr") {
            Ok(Lang::Croatian)
        } else if str_eq(token, "hu") {
            Ok(Lang::Hungarian)
        } else if str_eq(token, "id") {
            Ok(Lang::Indonesian)
        } else if str_eq(token, "is") {
            Ok(Lang::Icelandic)
        } else if str_eq(token, "it") {
            Ok(Lang::Italian)
        } else if str_eq(token, "ja") {
            Ok(Lang::Japanese)
        } else if str_eq(token, "ka") {
            Ok(Lang::Georgian)
        } else if str_eq(token, "ko") {
            Ok(Lang::Korean)
        } else if str_eq(token, "kw") {
            Ok(Lang::Cornish)
        } else if str_eq(token, "nb") {
            Ok(Lang::NorwegianBokmal)
        } else if str_eq(token, "nl") {
            Ok(Lang::Dutch)
        } else if str_eq(token, "pl") {
            Ok(Lang::Polish)
        } else if str_eq(token, "pt") {
            Ok(Lang::Portuguese)
        } else if str_eq(token, "ro") {
            Ok(Lang::Romanian)
        } else if str_eq(token, "ru") {
            Ok(Lang::Russian)
        } else if str_eq(token, "sk") {
            Ok(Lang::Slovak)
        } else if str_eq(token, "sl") {
            Ok(Lang::Slovenian)
        } else if str_eq(token, "sr") {
            Ok(Lang::Serbian)
        } else if str_eq(token, "sv") {
            Ok(Lang::Swedish)
        } else if str_eq(token, "tet") {
            Ok(Lang::Tetum)
        } else if str_eq(token, "tr") {
            Ok(Lang::Turkish)
        } else if str_eq(token, "uk") {
            Ok(Lang::Ukranian)
        } else if str_eq(token, "x-pig-latin") {
            Ok(Lang::IgpayAtinlay)
        } else if str_eq(token, "zh") {
            Ok(Lang::SimplifiedChinese)
        } else if str_eq(token, "zh-tw") {
            Ok(Lang::TraditionalChinese)
        } else {
            Err(DecodeError::UnrecognizedToken)
        }
    }
}

/// Law: for every variant of [`Lang`], decoding its encoding yields
/// the variant back.
/// For [`Lang::NorwegianBokmal`] this holds even though decoding also
/// accepts the alias token `"no"`, since encoding emits `"nb"`.
#[verifier::rlimit(100)]
pub proof fn lemma_lang_round_trip(v: Lang)
    ensures
        spec_decode_lang(lang_token(v)) == Some(v),
{
    reveal_strlit("no");
    reveal_strlit("ar");
    reveal_strlit("az");
    reveal_strlit("be");
    reveal_strlit("bg");
    reveal_strlit("bs");
    reveal_strlit("ca");
    reveal_strlit("cz");
    reveal_strlit("da");
    reveal_strlit("de");
    reveal_strlit("el");
    reveal_strlit("en");
    reveal_strlit("es");
    reveal_strlit("et");
    reveal_strlit("fi");
    reveal_strlit("fr");
    reveal_strlit("hr");
    reveal_strlit("hu");
    reveal_strlit("id");
    reveal_strlit("is");
    reveal_strlit("it");
    reveal_strlit("ja");
    reveal_strlit("ka");
    reveal_strlit("ko");
    reveal_strlit("kw");
    reveal_strlit("nb");
    reveal_strlit("nl");
    reveal_strlit("pl");
    reveal_strlit("pt");
    reveal_strlit("ro");
    reveal_strlit("ru");
    reveal_strlit("sk");
    reveal_strlit("sl");
    reveal_strlit("sr");
    reveal_strlit("sv");
    reveal_strlit("tet");
    reveal_strlit("tr");
    reveal_strlit("uk");
    reveal_strlit("x-pig-latin");
    reveal_strlit("zh");
    reveal_strlit("zh-tw");
    assert("no"@.len() == 2);
    assert("ar"@.len() == 2);
    assert("az"@.len() == 2);
    assert("be"@.len() == 2);
    assert("bg"@.len() == 2);
    assert("bs"@.len() == 2);
    assert("ca"@.len() == 2);
    assert("cz"@.len() == 2);
    assert("da"@.len() == 2);
    assert("de"@.len() == 2);
    assert("el"@.len() == 2);
    assert("en"@.len() == 2);
    assert("es"@.len() == 2);
    assert("et"@.len() == 2);
    assert("fi"@.len() == 2);
    assert("fr"@.len() == 2);
    assert("hr"@.len() == 2);
    assert("hu"@.len() == 2);
    assert("id"@.len() == 2);
    assert("is"@.len() == 2);
    assert("it"@.len() == 2);
    assert("ja"@.len() == 2);
    assert("ka"@.len() == 2);
    assert("ko"@.len() == 2);
    assert("kw"@.len() == 2);
    assert("nb"@.len() == 2);
    assert("nl"@.len() == 2);
    assert("pl"@.len() == 2);
    assert("pt"@.len() == 2);
    assert("ro"@.len() == 2);
    assert("ru"@.len() == 2);
    assert("sk"@.len() == 2);
    assert("sl"@.len() == 2);
    assert("sr"@.len() == 2);
    assert("sv"@.len() == 2);
    assert("tet"@.len() == 3);
    assert("tr"@.len() == 2);
    assert("uk"@.len() == 2);
    assert("x-pig-latin"@.len() == 11);
    assert("zh"@.len() == 2);
    assert("zh-tw"@.len() == 5);
    assert("no"@[0] == 'n');
    assert("ar"@[0] == 'a');
    assert("az"@[0] == 'a');
    assert("be"@[0] == 'b');
    assert("bg"@[0] == 'b');
    assert("bs"@[0] == 'b');
    assert("ca"@[0] == 'c');
    assert("cz"@[0] == 'c');
    assert("da"@[0] == 'd');
    assert("de"@[0] == 'd');
    assert("el"@[0] == 'e');
    assert("en"@[0] == 'e');
    assert("es"@[0] == 'e');
    assert("et"@[0] == 'e');
    assert("fi"@[0] == 'f');
    assert("fr"@[0] == 'f');
    assert("hr"@[0] == 'h');
    assert("hu"@[0] == 'h');
    assert("id"@[0] == 'i');
    assert("is"@[0] == 'i');
    assert("it"@[0] == 'i');
    assert("ja"@[0] == 'j');
    assert("ka"@[0] == 'k');
    assert("ko"@[0] == 'k');
    assert("kw"@[0] == 'k');
    assert("nb"@[0] == 'n');
    assert("nl"@[0] == 'n');
    assert("pl"@[0] == 'p');
    assert("pt"@[0] == 'p');
    assert("ro"@[0] == 'r');
    assert("ru"@[0] == 'r');
    assert("sk"@[0] == 's');
    assert("sl"@[0] == 's');
    assert("sr"@[0] == 's');
    assert("sv"@[0] == 's');
    assert("tet"@[0] == 't');
    assert("tr"@[0] == 't');
    assert("uk"@[0] == 'u');
    assert("x-pig-latin"@[0] == 'x');
    assert("zh"@[0] == 'z');
    assert("zh-tw"@[0] == 'z');
    assert("no"@[1] == 'o');
    assert("ar"@[1] == 'r');
    assert("az"@[1] == 'z');
    assert("be"@[1] == 'e');
    assert("bg"@[1] == 'g');
    assert("bs"@[1] == 's');
    assert("ca"@[1] == 'a');
    assert("cz"@[1] == 'z');
    assert("da"@[1] == 'a');
    assert("de"@[1] == 'e');
    assert("el"@[1] == 'l');
    assert("en"@[1] == 'n');
    assert("es"@[1] == 's');
    assert("et"@[1] == 't');
    assert("fi"@[1] == 'i');
    assert("fr"@[1] == 'r');
    assert("hr"@[1] == 'r');
    assert("hu"@[1] == 'u');
    assert("id"@[1] == 'd');
    assert("is"@[1] == 's');
    assert("it"@[1] == 't');
    assert("ja"@[1] == 'a');
    assert("ka"@[1] == 'a');
    assert("ko"@[1] == 'o');
    assert("kw"@[1] == 'w');
    assert("nb"@[1] == 'b');
    assert("nl"@[1] == 'l');
    assert("pl"@[1] == 'l');
    assert("pt"@[1] == 't');
    assert("ro"@[1] == 'o');
    assert("ru"@[1] == 'u');
    assert("sk"@[1] == 'k');
    assert("sl"@[1] == 'l');
    assert("sr"@[1] == 'r');
    assert("sv"@[1] == 'v');
    assert("tet"@[1] == 'e');
    assert("tr"@[1] == 'r');
    assert("uk"@[1] == 'k');
    assert("x-pig-latin"@[1] == '-');
    assert("zh"@[1] == 'h');
    assert("zh-tw"@[1] == 'h');
    match v {
        Lang::Arabic => {
            assert(spec_decode_lang("ar"@) == Some(Lang::Arabic));
        },
        Lang::Azerbaijani => {
            assert(spec_decode_lang("az"@) == Some(Lang::Azerbaijani));
        },
        Lang::Belarusian => {
            assert(spec_decode_lang("be"@) == Some(Lang::Belarusian));
        },
        Lang::Bulgarian => {
            assert(spec_decode_lang("bg"@) == Some(Lang::Bulgarian));
        },
        Lang::Bosnian => {
            assert(spec_decode_lang("bs"@) == Some(Lang::Bosnian));
        },
        Lang::Catalan => {
            assert(spec_decode_lang("ca"@) == Some(Lang::Catalan));
        },
        Lang::Czech => {
            assert(spec_decode_lang("cz"@) == Some(Lang::Czech));
        },
        Lang::Danish => {
            assert(spec_decode_lang("da"@) == Some(Lang::Danish));
        },
        Lang::German => {
            assert(spec_decode_lang("de"@) == Some(Lang::German));
        },
        Lang::Greek => {
            assert(spec_decode_lang("el"@) == Some(Lang::Greek));
        },
        Lang::English => {
            assert(spec_decode_lang("en"@) == Some(Lang::English));
        },
        Lang::Spanish => {
            assert(spec_decode_lang("es"@) == Some(Lang::Spanish));
        },
        Lang::Estonian => {
            assert(spec_decode_lang("et"@) == Some(Lang::Estonian));
        },
        Lang::Finnish => {
            assert(spec_decode_lang("fi"@) == Some(Lang::Finnish));
        },
        Lang::French => {
            assert(spec_decode_lang("fr"@) == Some(Lang::French));
        },
        Lang::Croatian => {
            assert(spec_decode_lang("hr"@) == Some(Lang::Croatian));
        },
        Lang::Hungarian => {
            assert(spec_decode_lang("hu"@) == Some(Lang::Hungarian));
        },
        Lang::Indonesian => {
            assert(spec_decode_lang("id"@) == Some(Lang::Indonesian));
        },
        Lang::Icelandic => {
            assert(spec_decode_lang("is"@) == Some(Lang::Icelandic));
        },
        Lang::Italian => {
            assert(spec_decode_lang("it"@) == Some(Lang::Italian));
        },
        Lang::Japanese => {
            assert(spec_decode_lang("ja"@) == Some(Lang::Japanese));
        },
        Lang::Georgian => {
            assert(spec_decode_lang("ka"@) == Some(Lang::Georgian));
        },
        Lang::Korean => {
            assert(spec_decode_lang("ko"@) == Some(Lang::Korean));
        },
        Lang::Cornish => {
            assert(spec_decode_lang("kw"@) == Some(Lang::Cornish));
        },
        Lang::NorwegianBokmal => {
            assert(spec_decode_lang("nb"@) == Some(Lang::NorwegianBokmal));
        },
        Lang::Dutch => {
            assert(spec_decode_lang("nl"@) == Some(Lang::Dutch));
        },
        Lang::Polish => {
            assert(spec_decode_lang("pl"@) == Some(Lang::Polish));
        },
        Lang::Portuguese => {
            assert(spec_decode_lang("pt"@) == Some(Lang::Portuguese));
        },
        Lang::Romanian => {
            assert(spec_decode_lang("ro"@) == Some(Lang::Romanian));
        },
        Lang::Russian => {
            assert(spec_decode_lang("ru"@) == Some(Lang::Russian));
        },
        Lang::Slovak => {
            assert(spec_decode_lang("sk"@) == Some(Lang::Slovak));
        },
        Lang::Slovenian => {
            assert(spec_decode_lang("sl"@) == Some(Lang::Slovenian));
        },
        Lang::Serbian => {
            assert(spec_decode_lang("sr"@) == Some(Lang::Serbian));
        },
        Lang::Swedish => {
            assert(spec_decode_lang("sv"@) == Some(Lang::Swedish));
        },
        Lang::Tetum => {
            assert(spec_decode_lang("tet"@) == Some(Lang::Tetum));
        },
        Lang::Turkish => {
            assert(spec_decode_lang("tr"@) == Some(Lang::Turkish));
        },
        Lang::Ukranian => {
            assert(spec_decode_lang("uk"@) == Some(Lang::Ukranian));
        },
        Lang::IgpayAtinlay => {
            assert(spec_decode_lang("x-pig-latin"@) == Some(Lang::IgpayAtinlay));
        },
        Lang::SimplifiedChinese => {
            assert(spec_decode_lang("zh"@) == Some(Lang::SimplifiedChinese));
        },
        Lang::TraditionalChinese => {
            assert(spec_decode_lang("zh-tw"@) == Some(Lang::TraditionalChinese));
        },
    }
}


/// Law: decoding accepts both tokens `"nb"` and `"no"` for
/// [`Lang::NorwegianBokmal`], while encoding that variant always emits
/// `"nb"` -- the alias is input-only.
pub proof fn lemma_lang_norwegian_alias()
    ensures
        spec_decode_lang("no"@) == Some(Lang::NorwegianBokmal),
        spec_decode_lang("nb"@) == Some(Lang::NorwegianBokmal),
        lang_token(Lang::NorwegianBokmal) == "nb"@,
{
    reveal_strlit("no");
    reveal_strlit("nb");
    assert("no"@.len() == 2);
    assert("nb"@.len() == 2);
    assert("no"@[1] == 'o');
    assert("nb"@[1] == 'b');
    assert("nb"@ != "no"@);
    lemma_lang_round_trip(Lang::NorwegianBokmal);
}

/// A character that may stand unescaped in a URL query value: the
/// characters the wire tokens draw on (lower-case letters, digits and
/// `-` are unreserved under standard URL query-string rules).
pub open spec fn url_query_safe_char(c: char) -> bool {
    ('a' <= c && c <= 'z') || ('0' <= c && c <= '9') || c == '-'
}

/// A string every character of which may stand unescaped in a URL
/// query value, so that percent-encoding leaves it unchanged.
pub open spec fn url_query_safe(s: Seq<char>) -> bool {
    forall|i: int| 0 <= i < s.len() ==> url_query_safe_char(#[trigger] s[i])
}

/// Law: every [`ExcludeBlock`] token needs no percent-escaping, so the
/// query encoder may emit it verbatim.
pub proof fn lemma_exclude_block_token_query_safe(v: ExcludeBlock)
    ensures
        url_query_safe(exclude_block_token(v)),
{
    match v {
        ExcludeBlock::Currently => {
            reveal_strlit("currently");
            assert(url_query_safe("currently"@));
        },
        ExcludeBlock::Minutely => {
            reveal_strlit("minutely");
            assert(url_query_safe("minutely"@));
        },
        ExcludeBlock::Hourly => {
            reveal_strlit("hourly");
            assert(url_query_safe("hourly"@));
        },
        ExcludeBlock::Daily => {
            reveal_strlit("daily");
            assert(url_query_safe("daily"@));
        },
        ExcludeBlock::Alerts => {
            reveal_strlit("alerts");
            assert(url_query_safe("alerts"@));
        },
        ExcludeBlock::Flags => {
            reveal_strlit("flags");
            assert(url_query_safe("flags"@));
        },
    }
}

/// Law: every [`ExtendBy`] token needs no percent-escaping, so the
/// query encoder may emit it verbatim.
pub proof fn lemma_extend_by_token_query_safe(v: ExtendBy)
    ensures
        url_query_safe(extend_by_token(v)),
{
    match v {
        ExtendBy::Hourly => {
            reveal_strlit("hourly");
            assert(url_query_safe("hourly"@));
        },
    }
}

/// Law: every [`Units`] token needs no percent-escaping, so the
/// query encoder may emit it verbatim.
pub proof fn lemma_units_token_query_safe(v: Units)
    ensures
        url_query_safe(units_token(v)),
{
    match v {
        Units::Auto => {
            reveal_strlit("auto");
            assert(url_query_safe("auto"@));
        },
        Units::CA => {
            reveal_strlit("ca");
            assert(url_query_safe("ca"@));
        },
        Units::UK => {
            reveal_strlit("uk2");
            assert(url_query_safe("uk2"@));
        },
        Units::Imperial => {
            reveal_strlit("us");
            assert(url_query_safe("us"@));
        },
        Units::SI => {
            reveal_strlit("si");
            assert(url_query_safe("si"@));
        },
    }
}

/// Law: every [`Lang`] token needs no percent-escaping, so the
/// query encoder may emit it verbatim.
#[verifier::rlimit(100)]
pub proof fn lemma_lang_token_query_safe(v: Lang)
    ensures
        url_query_safe(lang_token(v)),
{
    match v {
        Lang::Arabic => {
            reveal_strlit("ar");
            assert(url_query_safe("ar"@));
        },
        Lang::Azerbaijani => {
            reveal_strlit("az");
            assert(url_query_safe("az"@));
        },
        Lang::Belarusian => {
            reveal_strlit("be");
            assert(url_query_safe("be"@));
        },
        Lang::Bulgarian => {
            reveal_strlit("bg");
            assert(url_query_safe("bg"@));
        },
        Lang::Bosnian => {
            reveal_strlit("bs");
            assert(url_query_safe("bs"@));
        },
        Lang::Catalan => {
            reveal_strlit("ca");
            assert(url_query_safe("ca"@));
        },
        Lang::Czech => {
            reveal_strlit("cz");
            assert(url_query_safe("cz"@));
        },
        Lang::Danish => {
            reveal_strlit("da");
            assert(url_query_safe("da"@));
        },
        Lang::German => {
            reveal_strlit("de");
            assert(url_query_safe("de"@));
        },
        Lang::Greek => {
            reveal_strlit("el");
            assert(url_query_safe("el"@));
        },
        Lang::English => {
            reveal_strlit("en");
            assert(url_query_safe("en"@));
        },
        Lang::Spanish => {
            reveal_strlit("es");
            assert(url_query_safe("es"@));
        },
        Lang::Estonian => {
            reveal_strlit("et");
            assert(url_query_safe("et"@));
        },
        Lang::Finnish => {
            reveal_strlit("fi");
            assert(url_query_safe("fi"@));
        },
        Lang::French => {
            reveal_strlit("fr");
            assert(url_query_safe("fr"@));
        },
        Lang::Croatian => {
            reveal_strlit("hr");
            assert(url_query_safe("hr"@));
        },
        Lang::Hungarian => {
            reveal_strlit("hu");
            assert(url_query_safe("hu"@));
        },
        Lang::Indonesian => {
            reveal_strlit("id");
            assert(url_query_safe("id"@));
        },
        Lang::Icelandic => {
            reveal_strlit("is");
            assert(url_query_safe("is"@));
        },
        Lang::Italian => {
            reveal_strlit("it");
            assert(url_query_safe("it"@));
        },
        Lang::Japanese => {
            reveal_strlit("ja");
            assert(url_query_safe("ja"@));
        },
        Lang::Georgian => {
            reveal_strlit("ka");
            assert(url_query_safe("ka"@));
        },
        Lang::Korean => {
            reveal_strlit("ko");
            assert(url_query_safe("ko"@));
        },
        Lang::Cornish => {
            reveal_strlit("kw");
            assert(url_query_safe("kw"@));
        },
        Lang::NorwegianBokmal => {
            reveal_strlit("nb");
            assert(url_query_safe("nb"@));
        },
        Lang::Dutch => {
            reveal_strlit("nl");
            assert(url_query_safe("nl"@));
        },
        Lang::Polish => {
            reveal_strlit("pl");
            assert(url_query_safe("pl"@));
        },
        Lang::Portuguese => {
            reveal_strlit("pt");
            assert(url_query_safe("pt"@));
        },
        Lang::Romanian => {
            reveal_strlit("ro");
            assert(url_query_safe("ro"@));
        },
        Lang::Russian => {
            reveal_strlit("ru");
            assert(url_query_safe("ru"@));
        },
        Lang::Slovak => {
            reveal_strlit("sk");
            assert(url_query_safe("sk"@));
        },
        Lang::Slovenian => {
            reveal_strlit("sl");
            assert(url_query_safe("sl"@));
        },
        Lang::Serbian => {
            reveal_strlit("sr");
            assert(url_query_safe("sr"@));
        },
        Lang::Swedish => {
            reveal_strlit("sv");
            assert(url_query_safe("sv"@));
        },
        Lang::Tetum => {
            reveal_strlit("tet");
            assert(url_query_safe("tet"@));
        },
        Lang::Turkish => {
            reveal_strlit("tr");
            assert(url_query_safe("tr"@));
        },
        Lang::Ukranian => {
            reveal_strlit("uk");
            assert(url_query_safe("uk"@));
        },
        Lang::IgpayAtinlay => {
            reveal_strlit("x-pig-latin");
            assert(url_query_safe("x-pig-latin"@));
        },
        Lang::SimplifiedChinese => {
            reveal_strlit("zh");
            assert(url_query_safe("zh"@));
        },
        Lang::TraditionalChinese => {
            reveal_strlit("zh-tw");
            assert(url_query_safe("zh-tw"@));
        },
    }
}

} // verus!
