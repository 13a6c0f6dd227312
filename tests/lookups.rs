use geoip_client::{
    city_outcome, country_outcome, insights_outcome, CityResponse, CountryResponse,
    InsightsResponse, JsonValue, LookupError,
};

fn s(t: &str) -> JsonValue {
    JsonValue::Str(t.to_string())
}

fn obj(members: Vec<(&str, JsonValue)>) -> JsonValue {
    JsonValue::Object(members.into_iter().map(|(k, v)| (k.to_string(), v)).collect())
}

fn names(pairs: Vec<(&str, &str)>) -> JsonValue {
    obj(pairs.into_iter().map(|(k, v)| (k, s(v))).collect())
}

fn continent() -> JsonValue {
    obj(vec![
        ("code", s("EU")),
        ("geoname_id", JsonValue::UInt(6255148)),
        ("names", names(vec![("en", "Europe"), ("de", "Europa")])),
    ])
}

fn country() -> JsonValue {
    obj(vec![
        ("geoname_id", JsonValue::UInt(2635167)),
        ("is_in_european_union", JsonValue::Bool(false)),
        ("iso_code", s("GB")),
        ("names", names(vec![("en", "United Kingdom")])),
    ])
}

fn registered_country() -> JsonValue {
    obj(vec![
        ("geoname_id", JsonValue::UInt(6252001)),
        ("iso_code", s("US")),
        ("names", names(vec![("en", "United States")])),
    ])
}

fn traits() -> JsonValue {
    obj(vec![
        ("autonomous_system_number", JsonValue::UInt(20712)),
        ("isp", s("Andrews & Arnold Ltd")),
        ("is_anonymous_vpn", JsonValue::Bool(true)),
        ("network", s("81.2.69.128/26")),
        ("ip_address", s("81.2.69.142")),
        ("static_ip_score", JsonValue::Float("1.5".to_string())),
        ("user_type", s("residential")),
        ("user_count", JsonValue::UInt(2)),
    ])
}

fn maxmind() -> JsonValue {
    obj(vec![("queries_remaining", JsonValue::UInt(54))])
}

fn country_body() -> JsonValue {
    obj(vec![
        ("continent", continent()),
        ("country", country()),
        ("registered_country", registered_country()),
        ("traits", traits()),
        ("maxmind", maxmind()),
    ])
}

fn subdivision(code: &str, id: u64, name: &str) -> JsonValue {
    obj(vec![
        ("confidence", JsonValue::UInt(70)),
        ("geoname_id", JsonValue::UInt(id)),
        ("iso_code", s(code)),
        ("names", names(vec![("en", name)])),
    ])
}

fn location(with_income: bool) -> JsonValue {
    let mut members = vec![
        ("accuracy_radius", JsonValue::UInt(100)),
        ("latitude", JsonValue::Float("51.5142".to_string())),
        ("longitude", JsonValue::Float("-0.0931".to_string())),
        ("metro_code", JsonValue::UInt(0)),
        ("time_zone", s("Europe/London")),
    ];
    if with_income {
        members.push(("average_income", JsonValue::UInt(40000)));
    }
    obj(members)
}

fn city_body() -> JsonValue {
    obj(vec![
        (
            "city",
            obj(vec![
                ("confidence", JsonValue::UInt(50)),
                ("geoname_id", JsonValue::UInt(2643743)),
                ("names", names(vec![("en", "London")])),
            ]),
        ),
        ("continent", continent()),
        ("country", country()),
        ("location", location(true)),
        ("postal", obj(vec![("code", s("EC2V")), ("confidence", JsonValue::Null)])),
        ("registered_country", registered_country()),
        (
            "subdivisions",
            JsonValue::Array(vec![
                subdivision("ENG", 6269131, "England"),
                subdivision("LND", 2643741, "City of London"),
            ]),
        ),
        ("traits", traits()),
        ("maxmind", maxmind()),
    ])
}

#[test]
fn country_lookup_reads_iso_code_and_quota() {
    let r = country_outcome(200, Some(&country_body())).unwrap();
    assert_eq!(r.country.iso_code, "GB");
    assert_eq!(r.country.geoname_id, 2635167);
    assert_eq!(r.continent.code, "EU");
    assert_eq!(r.maxmind.queries_remaining, 54);
}

#[test]
fn country_lookup_fields_equal_the_body() {
    let r = country_outcome(200, Some(&country_body())).unwrap();
    assert_eq!(r.continent.geoname_id, 6255148);
    assert_eq!(r.continent.names.get("de").unwrap(), "Europa");
    assert_eq!(r.country.is_in_european_union, Some(false));
    assert_eq!(r.country.confidence, None);
    assert_eq!(r.registered_country.iso_code, "US");
    assert_eq!(r.registered_country.is_in_european_union, None);
    assert!(r.represented_country.is_none());
    assert_eq!(r.traits.autonomous_system_number, Some(20712));
    assert_eq!(r.traits.isp.as_deref(), Some("Andrews & Arnold Ltd"));
    assert_eq!(r.traits.is_anonymous_vpn, Some(true));
    assert_eq!(r.traits.is_tor_exit_node, None);
    assert_eq!(r.traits.network, "81.2.69.128/26");
    assert_eq!(r.traits.ip_address, "81.2.69.142");
    assert_eq!(r.traits.static_ip_score.as_deref(), Some("1.5"));
    assert_eq!(r.traits.user_count, Some(2));
    assert_eq!(r.traits.user_type.as_deref(), Some("residential"));
}

#[test]
fn city_lookup_fields_equal_the_body() {
    let r = city_outcome(200, Some(&city_body())).unwrap();
    assert_eq!(r.city.confidence, Some(50));
    assert_eq!(r.city.geoname_id, 2643743);
    assert_eq!(r.city.names.get("en").unwrap(), "London");
    assert_eq!(r.location.accuracy_radius, 100);
    assert_eq!(r.location.average_income, Some(40000));
    assert_eq!(r.location.latitude, "51.5142");
    assert_eq!(r.location.longitude, "-0.0931");
    assert_eq!(r.location.time_zone, "Europe/London");
    assert_eq!(r.location.population_density, None);
    assert_eq!(r.postal.code, "EC2V");
    assert_eq!(r.postal.confidence, None);
    assert_eq!(r.maxmind.queries_remaining, 54);
}

#[test]
fn insights_lookup_fields_equal_the_body() {
    let r = insights_outcome(200, Some(&city_body())).unwrap();
    assert_eq!(r.city.geoname_id, 2643743);
    assert_eq!(r.country.iso_code, "GB");
    assert_eq!(r.location.latitude, "51.5142");
    assert_eq!(r.subdivisions.len(), 2);
    assert_eq!(r.traits.is_anonymous_vpn, Some(true));
}

#[test]
fn city_lookup_keeps_subdivisions_in_order() {
    let r = city_outcome(200, Some(&city_body())).unwrap();
    assert_eq!(r.subdivisions.len(), 2);
    assert_eq!(r.subdivisions[0].iso_code, "ENG");
    assert_eq!(r.subdivisions[0].geoname_id, 6269131);
    assert_eq!(r.subdivisions[1].iso_code, "LND");
    assert_eq!(r.subdivisions[1].names.get("en").unwrap(), "City of London");
}

#[test]
fn unauthorized_lookup_is_rejected_not_mismatched() {
    let body = obj(vec![
        ("code", s("AUTHORIZATION_INVALID")),
        ("error", s("You have supplied an invalid MaxMind account ID and/or license key.")),
    ]);
    let r = country_outcome(401, Some(&body));
    assert_eq!(r, Err(LookupError::Rejected { status: 401 }));
    assert_ne!(r, Err(LookupError::SchemaMismatch));
    assert_eq!(city_outcome(401, None), Err(LookupError::Rejected { status: 401 }));
    assert_eq!(insights_outcome(429, None), Err(LookupError::Rejected { status: 429 }));
}

#[test]
fn body_that_is_not_json_is_a_mismatch() {
    assert_eq!(country_outcome(200, None), Err(LookupError::SchemaMismatch));
}

#[test]
fn missing_optional_income_reads_as_absent() {
    let mut body = city_body();
    if let JsonValue::Object(members) = &mut body {
        for m in members.iter_mut() {
            if m.0 == "location" {
                m.1 = location(false);
            }
        }
    }
    let r = city_outcome(200, Some(&body)).unwrap();
    assert_eq!(r.location.average_income, None);
}

#[test]
fn missing_required_iso_code_fails() {
    let body = obj(vec![
        ("continent", continent()),
        (
            "country",
            obj(vec![
                ("geoname_id", JsonValue::UInt(2635167)),
                ("names", names(vec![("en", "United Kingdom")])),
            ]),
        ),
        ("registered_country", registered_country()),
        ("traits", traits()),
        ("maxmind", maxmind()),
    ]);
    assert_eq!(country_outcome(200, Some(&body)), Err(LookupError::SchemaMismatch));
}

#[test]
fn country_body_lacks_what_a_city_lookup_needs() {
    assert_eq!(city_outcome(200, Some(&country_body())), Err(LookupError::SchemaMismatch));
}

#[test]
fn wrong_kind_of_value_fails() {
    let body = obj(vec![
        ("continent", continent()),
        ("country", country()),
        ("registered_country", registered_country()),
        ("traits", traits()),
        ("maxmind", obj(vec![("queries_remaining", s("54"))])),
    ]);
    assert_eq!(country_outcome(200, Some(&body)), Err(LookupError::SchemaMismatch));
}

#[test]
fn null_required_field_fails() {
    let body = obj(vec![
        ("continent", continent()),
        ("country", country()),
        ("registered_country", registered_country()),
        ("traits", traits()),
        ("maxmind", obj(vec![("queries_remaining", JsonValue::Null)])),
    ]);
    assert_eq!(country_outcome(200, Some(&body)), Err(LookupError::SchemaMismatch));
}

#[test]
fn fractional_number_is_not_an_integer() {
    let body = obj(vec![
        ("continent", continent()),
        ("country", country()),
        ("registered_country", registered_country()),
        ("traits", traits()),
        ("maxmind", obj(vec![("queries_remaining", JsonValue::Float("54.5".to_string()))])),
    ]);
    assert_eq!(country_outcome(200, Some(&body)), Err(LookupError::SchemaMismatch));
}

#[test]
fn integer_beyond_i64_fails() {
    let body = obj(vec![
        ("continent", continent()),
        ("country", country()),
        ("registered_country", registered_country()),
        ("traits", traits()),
        ("maxmind", obj(vec![("queries_remaining", JsonValue::UInt(u64::MAX))])),
    ]);
    assert_eq!(country_outcome(200, Some(&body)), Err(LookupError::SchemaMismatch));
    let at_limit = obj(vec![
        ("continent", continent()),
        ("country", country()),
        ("registered_country", registered_country()),
        ("traits", traits()),
        ("maxmind", obj(vec![("queries_remaining", JsonValue::UInt(i64::MAX as u64))])),
    ]);
    assert_eq!(
        country_outcome(200, Some(&at_limit)).unwrap().maxmind.queries_remaining,
        i64::MAX
    );
}

#[test]
fn integer_coordinates_read_as_decimal_text() {
    let mut body = city_body();
    if let JsonValue::Object(members) = &mut body {
        for m in members.iter_mut() {
            if m.0 == "location" {
                m.1 = obj(vec![
                    ("accuracy_radius", JsonValue::UInt(5)),
                    ("latitude", JsonValue::UInt(52)),
                    ("longitude", JsonValue::Int(-3)),
                    ("metro_code", JsonValue::UInt(0)),
                    ("time_zone", s("Europe/London")),
                ]);
            }
        }
    }
    let r = city_outcome(200, Some(&body)).unwrap();
    assert_eq!(r.location.latitude, "52");
    assert_eq!(r.location.longitude, "-3");
}

#[test]
fn represented_country_is_read_when_present() {
    let body = obj(vec![
        ("continent", continent()),
        ("country", country()),
        ("registered_country", registered_country()),
        (
            "represented_country",
            obj(vec![
                ("geoname_id", JsonValue::UInt(6252001)),
                ("iso_code", s("US")),
                ("names", names(vec![("en", "United States")])),
                ("type", s("military")),
            ]),
        ),
        ("traits", traits()),
        ("maxmind", maxmind()),
    ]);
    let r = country_outcome(200, Some(&body)).unwrap();
    let rc = r.represented_country.unwrap();
    assert_eq!(rc.country_type, "military");
    assert_eq!(rc.iso_code, "US");
}

#[test]
fn unknown_members_are_ignored() {
    let mut body = country_body();
    if let JsonValue::Object(members) = &mut body {
        members.push(("extra".to_string(), JsonValue::Array(vec![JsonValue::Null])));
    }
    assert_eq!(country_outcome(200, Some(&body)).unwrap().maxmind.queries_remaining, 54);
}

#[test]
fn country_answer_round_trips() {
    let r = CountryResponse::from_json(&country_body()).unwrap();
    let back = CountryResponse::from_json(&r.to_json()).unwrap();
    assert_eq!(back, r);
}

#[test]
fn city_answer_round_trips() {
    let r = CityResponse::from_json(&city_body()).unwrap();
    let back = CityResponse::from_json(&r.to_json()).unwrap();
    assert_eq!(back, r);
}

#[test]
fn insights_answer_round_trips() {
    let r = InsightsResponse::from_json(&city_body()).unwrap();
    let back = InsightsResponse::from_json(&r.to_json()).unwrap();
    assert_eq!(back, r);
}
