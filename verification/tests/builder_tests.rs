use forecast::ExcludeBlock;
use forecast::ExtendBy;
use forecast::ForecastRequest;
use forecast::ForecastRequestBuilder;
use forecast::Lang;
use forecast::TimeMachineRequest;
use forecast::TimeMachineRequestBuilder;
use forecast::Units;

const LAT: f64 = 6.66;
const LONG: f64 = 66.6;
const TIME: u64 = 666;
const API_KEY: &str = "some_api_key";
const BASE: &str = "https://api.pirateweather.net/forecast";

fn lat_str() -> String {
    format!("{:.16}", LAT)
}

fn long_str() -> String {
    format!("{:.16}", LONG)
}

#[test]
fn test_forecast_request_builder_defaults() {
    let lat = lat_str();
    let long = long_str();

    let request = ForecastRequestBuilder::new(API_KEY, &lat, &long).build();

    let expected_url = format!("{}/{}/{},{}", BASE, API_KEY, lat, long);

    let expected = ForecastRequest::new(
        API_KEY.to_string(),
        lat.clone(),
        long.clone(),
        expected_url,
        Vec::new(),
        None,
        None,
        None,
    );

    assert_eq!(expected.api_key(), request.api_key());
    assert_eq!(expected.latitude(), request.latitude());
    assert_eq!(expected.longitude(), request.longitude());
    assert_eq!(expected.exclude(), request.exclude());
    assert_eq!(expected.extend(), request.extend());
    assert_eq!(expected.lang(), request.lang());
    assert_eq!(expected.units(), request.units());
    assert_eq!(expected.url(), request.url());

    assert_eq!(expected, request);
}

#[test]
fn test_forecast_request_builder_simple() {
    let lat = lat_str();
    let long = long_str();

    let mut blocks = vec![ExcludeBlock::Daily, ExcludeBlock::Alerts];

    let request = ForecastRequestBuilder::new(API_KEY, &lat, &long)
        .exclude_block(ExcludeBlock::Hourly)
        .exclude_blocks(&mut blocks)
        .extend(ExtendBy::Hourly)
        .lang(Lang::Arabic)
        .units(Units::Imperial)
        .build();

    let expected_url = format!(
        "{}/{}/{},{}?exclude=hourly,daily,alerts&extend=hourly&lang=ar&units=us",
        BASE, API_KEY, lat, long
    );

    let expected = ForecastRequest::new(
        API_KEY.to_string(),
        lat.clone(),
        long.clone(),
        expected_url,
        vec![ExcludeBlock::Hourly, ExcludeBlock::Daily, ExcludeBlock::Alerts],
        Some(ExtendBy::Hourly),
        Some(Lang::Arabic),
        Some(Units::Imperial),
    );

    assert!(blocks.is_empty());
    assert_eq!(expected, request);
}

#[test]
fn test_forecast_request_builder_complex() {
    let lat = lat_str();
    let long = long_str();

    let mut builder = ForecastRequestBuilder::new(API_KEY, &lat, &long);
    let mut blocks = vec![ExcludeBlock::Daily, ExcludeBlock::Alerts];

    builder = builder.exclude_block(ExcludeBlock::Hourly);
    builder = builder.exclude_blocks(&mut blocks);
    builder = builder.extend(ExtendBy::Hourly);
    builder = builder.lang(Lang::Arabic);
    builder = builder.units(Units::Imperial);

    let expected_url = format!(
        "{}/{}/{},{}?exclude=hourly,daily,alerts&extend=hourly&lang=ar&units=us",
        BASE, API_KEY, lat, long
    );

    let expected = ForecastRequest::new(
        API_KEY.to_string(),
        lat.clone(),
        long.clone(),
        expected_url,
        vec![ExcludeBlock::Hourly, ExcludeBlock::Daily, ExcludeBlock::Alerts],
        Some(ExtendBy::Hourly),
        Some(Lang::Arabic),
        Some(Units::Imperial),
    );

    assert_eq!(expected, builder.build());
}

#[test]
fn test_time_machine_request_builder_defaults() {
    let lat = lat_str();
    let long = long_str();

    let request = TimeMachineRequestBuilder::new(API_KEY, &lat, &long, TIME).build();

    let expected_url = format!("{}/{}/{},{},{}", BASE, API_KEY, lat, long, TIME);

    let expected = TimeMachineRequest::new(
        API_KEY.to_string(),
        lat.clone(),
        long.clone(),
        TIME,
        expected_url,
        Vec::new(),
        None,
        None,
    );

    assert_eq!(expected.api_key(), request.api_key());
    assert_eq!(expected.latitude(), request.latitude());
    assert_eq!(expected.longitude(), request.longitude());
    assert_eq!(expected.time(), request.time());
    assert_eq!(expected.exclude(), request.exclude());
    assert_eq!(expected.lang(), request.lang());
    assert_eq!(expected.units(), request.units());
    assert_eq!(expected.url(), request.url());

    assert_eq!(expected, request);
}

#[test]
fn test_time_machine_request_builder_simple() {
    let lat = lat_str();
    let long = long_str();

    let mut blocks = vec![ExcludeBlock::Daily, ExcludeBlock::Alerts];

    let request = TimeMachineRequestBuilder::new(API_KEY, &lat, &long, TIME)
        .exclude_block(ExcludeBlock::Hourly)
        .exclude_blocks(&mut blocks)
        .lang(Lang::Arabic)
        .units(Units::Imperial)
        .build();

    let expected_url = format!(
        "{}/{}/{},{},{}?exclude=hourly,daily,alerts&lang=ar&units=us",
        BASE, API_KEY, lat, long, TIME
    );

    let expected = TimeMachineRequest::new(
        API_KEY.to_string(),
        lat.clone(),
        long.clone(),
        TIME,
        expected_url,
        vec![ExcludeBlock::Hourly, ExcludeBlock::Daily, ExcludeBlock::Alerts],
        Some(Lang::Arabic),
        Some(Units::Imperial),
    );

    assert!(blocks.is_empty());
    assert_eq!(expected, request);
}

#[test]
fn test_time_machine_request_builder_complex() {
    let lat = lat_str();
    let long = long_str();

    let mut builder = TimeMachineRequestBuilder::new(API_KEY, &lat, &long, TIME);
    let mut blocks = vec![ExcludeBlock::Daily, ExcludeBlock::Alerts];

    builder = builder.exclude_block(ExcludeBlock::Hourly);
    builder = builder.exclude_blocks(&mut blocks);
    builder = builder.lang(Lang::Arabic);
    builder = builder.units(Units::Imperial);

    let expected_url = format!(
        "{}/{}/{},{},{}?exclude=hourly,daily,alerts&lang=ar&units=us",
        BASE, API_KEY, lat, long, TIME
    );

    let expected = TimeMachineRequest::new(
        API_KEY.to_string(),
        lat.clone(),
        long.clone(),
        TIME,
        expected_url,
        vec![ExcludeBlock::Hourly, ExcludeBlock::Daily, ExcludeBlock::Alerts],
        Some(Lang::Arabic),
        Some(Units::Imperial),
    );

    assert_eq!(expected, builder.build());
}

#[test]
fn test_coordinate_precision_sixteen_decimals() {
    let lat = lat_str();
    let long = long_str();

    assert_eq!(lat, "6.6600000000000001");
    assert_eq!(long, "66.5999999999999943");

    let request = ForecastRequestBuilder::new(API_KEY, &lat, &long).build();
    assert_eq!(
        request.url(),
        "https://api.pirateweather.net/forecast/some_api_key/6.6600000000000001,66.5999999999999943"
    );
}

#[test]
fn test_forecast_build_deterministic() {
    let lat = lat_str();
    let long = long_str();

    let build = || {
        ForecastRequestBuilder::new(API_KEY, &lat, &long)
            .exclude_block(ExcludeBlock::Minutely)
            .extend(ExtendBy::Hourly)
            .lang(Lang::Japanese)
            .units(Units::SI)
            .build()
    };

    let first = build();
    let second = build();
    assert_eq!(first.url().as_bytes(), second.url().as_bytes());
    assert_eq!(first, second);
}

#[test]
fn test_exclude_order_and_duplicates_preserved() {
    let lat = lat_str();
    let long = long_str();

    let request = ForecastRequestBuilder::new(API_KEY, &lat, &long)
        .exclude_block(ExcludeBlock::Hourly)
        .exclude_block(ExcludeBlock::Hourly)
        .exclude_block(ExcludeBlock::Daily)
        .exclude_block(ExcludeBlock::Hourly)
        .build();

    assert_eq!(
        request.exclude(),
        &vec![
            ExcludeBlock::Hourly,
            ExcludeBlock::Hourly,
            ExcludeBlock::Daily,
            ExcludeBlock::Hourly
        ]
    );
    let url = request.url();
    let query = &url[url.find('?').unwrap() + 1..];
    assert_eq!(query, "exclude=hourly,hourly,daily,hourly");
}

#[test]
fn test_no_optional_fields_no_query_parameters() {
    let lat = lat_str();
    let long = long_str();

    let forecast_url = ForecastRequestBuilder::new(API_KEY, &lat, &long).build();
    assert!(!forecast_url.url().contains('?'));
    assert!(!forecast_url.url().contains("exclude"));
    assert!(!forecast_url.url().contains("extend"));
    assert!(!forecast_url.url().contains("lang"));
    assert!(!forecast_url.url().contains("units"));

    let time_machine_url = TimeMachineRequestBuilder::new(API_KEY, &lat, &long, TIME).build();
    assert!(!time_machine_url.url().contains('?'));
    assert!(!time_machine_url.url().contains("exclude"));
    assert!(!time_machine_url.url().contains("lang"));
    assert!(!time_machine_url.url().contains("units"));
}

#[test]
fn test_forecast_end_to_end_scenario() {
    let lat = lat_str();
    let long = long_str();

    let mut blocks = vec![ExcludeBlock::Daily, ExcludeBlock::Alerts];
    let request = ForecastRequestBuilder::new(API_KEY, &lat, &long)
        .exclude_block(ExcludeBlock::Hourly)
        .exclude_blocks(&mut blocks)
        .extend(ExtendBy::Hourly)
        .lang(Lang::Arabic)
        .units(Units::Imperial)
        .build();

    let url = request.url();
    let query = &url[url.find('?').unwrap() + 1..];
    assert_eq!(query, "exclude=hourly,daily,alerts&extend=hourly&lang=ar&units=us");
}

#[test]
fn test_time_machine_end_to_end_scenario() {
    let lat = lat_str();
    let long = long_str();

    let mut blocks = vec![ExcludeBlock::Daily, ExcludeBlock::Alerts];
    let request = TimeMachineRequestBuilder::new(API_KEY, &lat, &long, TIME)
        .exclude_block(ExcludeBlock::Hourly)
        .exclude_blocks(&mut blocks)
        .lang(Lang::Arabic)
        .units(Units::Imperial)
        .build();

    let url = request.url();
    let question = url.find('?').unwrap();
    let path = &url[..question];
    let query = &url[question + 1..];
    assert!(path.ends_with(",666"));
    assert_eq!(query, "exclude=hourly,daily,alerts&lang=ar&units=us");
}

#[test]
fn test_last_setter_call_wins() {
    let lat = lat_str();
    let long = long_str();

    let request = ForecastRequestBuilder::new(API_KEY, &lat, &long)
        .lang(Lang::German)
        .units(Units::SI)
        .lang(Lang::French)
        .units(Units::UK)
        .build();

    assert_eq!(request.lang(), Some(Lang::French));
    assert_eq!(request.units(), Some(Units::UK));
    let url = request.url();
    let query = &url[url.find('?').unwrap() + 1..];
    assert_eq!(query, "lang=fr&units=uk2");
}

#[test]
fn test_time_machine_time_rendering() {
    let lat = lat_str();
    let long = long_str();

    let zero = TimeMachineRequestBuilder::new(API_KEY, &lat, &long, 0).build();
    assert!(zero.url().ends_with(",0"));

    let large = TimeMachineRequestBuilder::new(API_KEY, &lat, &long, u64::MAX).build();
    assert!(large.url().ends_with(",18446744073709551615"));
}
