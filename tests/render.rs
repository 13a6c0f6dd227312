use geoip_client::text::{int_to_string, nat_to_string};
use geoip_client::{
    option_to_string, City, JsonValue, Location, MaxMind, NameMap, Postal, Render, Subdivision,
};

fn london() -> NameMap {
    let mut n = NameMap::new();
    n.insert("en".to_string(), "London".to_string());
    n
}

#[test]
fn integers_in_decimal() {
    assert_eq!(int_to_string(0), "0");
    assert_eq!(int_to_string(54), "54");
    assert_eq!(int_to_string(-7), "-7");
    assert_eq!(int_to_string(i64::MIN), "-9223372036854775808");
    assert_eq!(int_to_string(i64::MAX), "9223372036854775807");
    assert_eq!(nat_to_string(u64::MAX), "18446744073709551615");
}

#[test]
fn absent_option_renders_empty() {
    assert_eq!(option_to_string::<i64>(&None), "");
    assert_eq!(option_to_string(&Some(12i64)), "12");
    assert_eq!(option_to_string(&Some(true)), "true");
    assert_eq!(option_to_string(&Some("a\"b".to_string())), "\"a\\\"b\"");
}

#[test]
fn maxmind_renders() {
    assert_eq!(MaxMind { queries_remaining: 54 }.render(), "queries_remaining: 54");
}

#[test]
fn city_renders() {
    let c = City { confidence: Some(50), geoname_id: 2643743, names: london() };
    assert_eq!(
        c.render(),
        "confidence: 50, geoname_id: 2643743, names: {\"en\": \"London\"}"
    );
}

#[test]
fn postal_without_confidence_renders() {
    let p = Postal { code: "EC2V".to_string(), confidence: None };
    assert_eq!(p.render(), "code: EC2V, confidence: ");
}

#[test]
fn location_renders() {
    let l = Location {
        accuracy_radius: 100,
        average_income: None,
        latitude: "51.5142".to_string(),
        longitude: "-0.0931".to_string(),
        metro_code: 0,
        population_density: Some(7000),
        time_zone: "Europe/London".to_string(),
    };
    assert_eq!(
        l.render(),
        "accuracy_radius: 100, average_income: , latitude: 51.5142, longitude: -0.0931, metro_code: 0, population_density: 7000, time_zone: Europe/London"
    );
}

#[test]
fn subdivision_list_renders_in_order() {
    let a = Subdivision { confidence: None, geoname_id: 1, iso_code: "ENG".to_string(), names: NameMap::new() };
    let b = Subdivision { confidence: Some(9), geoname_id: 2, iso_code: "LND".to_string(), names: london() };
    let text = geoip_client::render::render_list(&vec![a, b]);
    assert_eq!(
        text,
        "[confidence: , geoname_id: 1, iso_code: ENG, names: {}, confidence: 9, geoname_id: 2, iso_code: LND, names: {\"en\": \"London\"}]"
    );
    assert_eq!(geoip_client::render::render_list::<Subdivision>(&vec![]), "[]");
}

#[test]
fn decoded_city_renders() {
    let v = JsonValue::Object(vec![
        ("geoname_id".to_string(), JsonValue::UInt(2643743)),
        (
            "names".to_string(),
            JsonValue::Object(vec![("en".to_string(), JsonValue::Str("London".to_string()))]),
        ),
    ]);
    let c = City::from_json(&v).unwrap();
    assert_eq!(c.render(), "confidence: , geoname_id: 2643743, names: {\"en\": \"London\"}");
}
