use binday_bot::config::load_config;
use binday_bot::date::CalendarDate;
use binday_bot::extract::{extract_waste, waste_info_from, ExtractError};
use binday_bot::pipeline::{collection_result, fetch_request, publish_request, Method, PipelineError};
use binday_bot::report::CollectionResult;

const FIXTURE: &str = "<html><body><div class=\"bins\"><div class=\"waste\">\
<p class=\"wastecollection\">Your next collection is a <b>black bin</b></p>\
<p class=\"wastedate\">Monday 01 January 2024</p></div>\
<div class=\"waste\"><p class=\"wastecollection\">blue bin</p>\
<p class=\"wastedate\">Monday 08 January 2024</p></div></div></body></html>";

fn config() -> binday_bot::config::Config {
    load_config(
        Some("100012345".to_string()),
        Some("http://hook.example/notify".to_string()),
        Some("me@example.org".to_string()),
    )
    .unwrap()
}

#[test]
fn extracts_first_region_texts() {
    let info = extract_waste(FIXTURE).unwrap();
    assert_eq!(info.description, "Your next collection is a black bin");
    assert_eq!(info.date_text, "Monday 01 January 2024");
}

#[test]
fn missing_region_is_an_extraction_error() {
    assert_eq!(extract_waste("<html><body><p>Nothing here</p></body></html>"), Err(ExtractError));
    assert_eq!(
        extract_waste("<div class=\"waste\"><p class=\"wastedate\">Monday 01 January 2024</p></div>"),
        Err(ExtractError)
    );
}

#[test]
fn both_texts_are_needed() {
    assert!(waste_info_from(Some("a".to_string()), None).is_err());
    assert!(waste_info_from(None, Some("b".to_string())).is_err());
    let info = waste_info_from(Some("a".to_string()), Some("b".to_string())).unwrap();
    assert_eq!(info.description, "a");
    assert_eq!(info.date_text, "b");
}

#[test]
fn end_to_end_fixture() {
    let result = collection_result(FIXTURE).unwrap();
    let json = result.to_json();
    assert_eq!(json, "{\"date\":\"2024-01-01\",\"black\":true,\"blue\":false,\"brown\":false}");
    let post = publish_request(&config(), &result);
    assert_eq!(post.method, Method::Post);
    assert_eq!(post.url, "http://hook.example/notify");
    assert_eq!(post.body, Some(json));
}

#[test]
fn page_without_region_gives_no_result() {
    let e = collection_result("<html><body></body></html>").unwrap_err();
    assert_eq!(e, PipelineError::Extraction);
    assert_eq!(e.exit_code(), 1);
}

#[test]
fn badly_dated_page_is_a_date_error() {
    let html = "<div class=\"waste\"><p class=\"wastecollection\">brown bin</p>\
<p class=\"wastedate\">01/01/2024</p></div>";
    let e = collection_result(html).unwrap_err();
    assert!(matches!(e, PipelineError::Date(_)));
    assert_eq!(e.exit_code(), 1);
    assert!(e.message().starts_with("Error parsing date: "));
}

#[test]
fn request_headers() {
    let c = config();
    let get = fetch_request(&c);
    assert_eq!(get.method, Method::Get);
    assert_eq!(
        get.url,
        "https://www.salford.gov.uk/bins-and-recycling/bin-collection-days/your-bin-collections/?UPRN=100012345"
    );
    assert_eq!(get.header_name, "accept");
    assert_eq!(get.header_value, "text/html");
    assert_eq!(get.body, None);
    let result = CollectionResult {
        date: CalendarDate { year: 2024, month: 6, day: 4 },
        black: false,
        blue: true,
        brown: false,
    };
    let post = publish_request(&c, &result);
    assert_eq!(post.header_name, "content-type");
    assert_eq!(post.header_value, "application/json; charset=utf-8");
}

#[test]
fn json_round_trip() {
    let result = CollectionResult {
        date: CalendarDate { year: 2024, month: 6, day: 4 },
        black: true,
        blue: false,
        brown: true,
    };
    let json = result.to_json();
    let value: serde_json::Value = serde_json::from_str(&json).unwrap();
    assert_eq!(value.get("date").and_then(|v| v.as_str()), Some("2024-06-04"));
    assert_eq!(value.get("black").and_then(|v| v.as_bool()), Some(true));
    assert_eq!(value.get("blue").and_then(|v| v.as_bool()), Some(false));
    assert_eq!(value.get("brown").and_then(|v| v.as_bool()), Some(true));
    assert_eq!(value.as_object().map(|o| o.len()), Some(4));
}
