use forecast::DecodeError;
use forecast::ExcludeBlock;
use forecast::ExtendBy;
use forecast::Icon;
use forecast::Lang;
use forecast::PrecipType;
use forecast::Severity;
use forecast::Units;

#[test]
fn test_norwegian_lang_serde() {
    let nb = Lang::decode("nb").unwrap();
    let no = Lang::decode("no").unwrap();
    let en = Lang::decode("en").unwrap();

    assert_eq!(nb, Lang::NorwegianBokmal);
    assert_eq!(no, Lang::NorwegianBokmal);
    assert_eq!(en, Lang::English);

    assert_eq!(nb.encode(), "nb");
    assert_eq!(no.encode(), "nb");
    assert_eq!(en.encode(), "en");

    assert_eq!(Lang::decode(nb.encode()).unwrap(), Lang::NorwegianBokmal);
    assert_eq!(Lang::decode(no.encode()).unwrap(), Lang::NorwegianBokmal);
    assert_eq!(Lang::decode(en.encode()).unwrap(), Lang::English);
}

#[test]
fn test_exclude_block_round_trip() {
    let variants = vec![
        ExcludeBlock::Currently,
        ExcludeBlock::Minutely,
        ExcludeBlock::Hourly,
        ExcludeBlock::Daily,
        ExcludeBlock::Alerts,
        ExcludeBlock::Flags,
    ];
    for v in variants {
        assert_eq!(ExcludeBlock::decode(v.encode()), Ok(v));
    }
    assert_eq!(ExcludeBlock::Currently.encode(), "currently");
    assert_eq!(ExcludeBlock::Flags.encode(), "flags");
}

#[test]
fn test_extend_by_round_trip() {
    assert_eq!(ExtendBy::Hourly.encode(), "hourly");
    assert_eq!(ExtendBy::decode("hourly"), Ok(ExtendBy::Hourly));
}

#[test]
fn test_units_round_trip() {
    let variants = vec![Units::Auto, Units::CA, Units::UK, Units::Imperial, Units::SI];
    for v in variants {
        assert_eq!(Units::decode(v.encode()), Ok(v));
    }
    assert_eq!(Units::UK.encode(), "uk2");
    assert_eq!(Units::Imperial.encode(), "us");
    assert_eq!(Units::Auto.encode(), "auto");
}

#[test]
fn test_severity_round_trip() {
    let variants = vec![Severity::Advisory, Severity::Watch, Severity::Warning];
    for v in variants {
        assert_eq!(Severity::decode(v.encode()), Ok(v));
    }
    assert_eq!(Severity::Advisory.encode(), "advisory");
}

#[test]
fn test_icon_round_trip() {
    let variants = vec![
        Icon::ClearDay,
        Icon::ClearNight,
        Icon::Rain,
        Icon::Snow,
        Icon::Sleet,
        Icon::Wind,
        Icon::Fog,
        Icon::Cloudy,
        Icon::PartlyCloudyDay,
        Icon::PartlyCloudyNight,
        Icon::Hail,
        Icon::Thunderstorm,
        Icon::Tornado,
    ];
    for v in variants {
        assert_eq!(Icon::decode(v.encode()), Ok(v));
    }
    assert_eq!(Icon::PartlyCloudyNight.encode(), "partly-cloudy-night");
}

#[test]
fn test_precip_type_round_trip() {
    let variants = vec![PrecipType::Rain, PrecipType::Snow, PrecipType::Sleet];
    for v in variants {
        assert_eq!(PrecipType::decode(v.encode()), Ok(v));
    }
}

#[test]
fn test_lang_round_trip_all_variants() {
    let variants = vec![
        Lang::Arabic,
        Lang::Azerbaijani,
        Lang::Belarusian,
        Lang::Bulgarian,
        Lang::Bosnian,
        Lang::Catalan,
        Lang::Czech,
        Lang::Danish,
        Lang::German,
        Lang::Greek,
        Lang::English,
        Lang::Spanish,
        Lang::Estonian,
        Lang::Finnish,
        Lang::French,
        Lang::Croatian,
        Lang::Hungarian,
        Lang::Indonesian,
        Lang::Icelandic,
        Lang::Italian,
        Lang::Japanese,
        Lang::Georgian,
        Lang::Korean,
        Lang::Cornish,
        Lang::NorwegianBokmal,
        Lang::Dutch,
        Lang::Polish,
        Lang::Portuguese,
        Lang::Romanian,
        Lang::Russian,
        Lang::Slovak,
        Lang::Slovenian,
        Lang::Serbian,
        Lang::Swedish,
        Lang::Tetum,
        Lang::Turkish,
        Lang::Ukranian,
        Lang::IgpayAtinlay,
        Lang::SimplifiedChinese,
        Lang::TraditionalChinese,
    ];
    for v in variants {
        assert_eq!(Lang::decode(v.encode()), Ok(v));
    }
    assert_eq!(Lang::IgpayAtinlay.encode(), "x-pig-latin");
    assert_eq!(Lang::TraditionalChinese.encode(), "zh-tw");
}

#[test]
fn test_decode_rejects_unknown_tokens() {
    assert_eq!(ExcludeBlock::decode("bogus"), Err(DecodeError::UnrecognizedToken));
    assert_eq!(ExcludeBlock::decode(""), Err(DecodeError::UnrecognizedToken));
    assert_eq!(ExcludeBlock::decode("Hourly"), Err(DecodeError::UnrecognizedToken));
    assert_eq!(ExtendBy::decode("daily"), Err(DecodeError::UnrecognizedToken));
    assert_eq!(Units::decode("uk"), Err(DecodeError::UnrecognizedToken));
    assert_eq!(Units::decode("imperial"), Err(DecodeError::UnrecognizedToken));
    assert_eq!(Severity::decode("watchx"), Err(DecodeError::UnrecognizedToken));
    assert_eq!(Icon::decode("partly-cloudy"), Err(DecodeError::UnrecognizedToken));
    assert_eq!(PrecipType::decode("hail"), Err(DecodeError::UnrecognizedToken));
    assert_eq!(Lang::decode("nn"), Err(DecodeError::UnrecognizedToken));
    assert_eq!(Lang::decode("NO"), Err(DecodeError::UnrecognizedToken));
}

#[test]
fn test_tokens_are_bare() {
    // The emitted token carries no surrounding quote or escape
    // characters.
    assert_eq!(Lang::Arabic.encode(), "ar");
    assert!(!Lang::Arabic.encode().contains('"'));
    assert!(!Units::Imperial.encode().contains('"'));
}
