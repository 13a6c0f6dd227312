//! Laws relating how records are written to JSON and read back from it.
//!
//! Each `to_json` gives a value `v` of which the record's predicate holds
//! (`city_json(v, c)`), and each `from_json` returns a record of which it
//! holds, or `None` only where it holds of no record. The laws below show
//! that the predicate fixes every field, so reading back what was written
//! gives back the record that was written, field for field.

use vstd::prelude::*;
use crate::json::{JsonValue, lookup, text_of};
use crate::records::{
    City, Continent, Country, Location, Postal, RegisteredCountry, RepresentedCountry,
    Subdivision, Traits, country_json, location_json, subdivision_json,
};
use crate::responses::{
    CountryResponse, CityResponse, InsightsResponse, country_response_json, city_response_json,
    insights_response_json,
};

verus! {

pub open spec fn same_city(a: City, b: City) -> bool {
    &&& a.confidence == b.confidence
    &&& a.geoname_id == b.geoname_id
    &&& a.names@ == b.names@
}

pub open spec fn same_continent(a: Continent, b: Continent) -> bool {
    &&& a.code@ == b.code@
    &&& a.geoname_id == b.geoname_id
    &&& a.names@ == b.names@
}

pub open spec fn same_country(a: Country, b: Country) -> bool {
    &&& a.confidence == b.confidence
    &&& a.geoname_id == b.geoname_id
    &&& a.is_in_european_union == b.is_in_european_union
    &&& a.iso_code@ == b.iso_code@
    &&& a.names@ == b.names@
}

pub open spec fn same_location(a: Location, b: Location) -> bool {
    &&& a.accuracy_radius == b.accuracy_radius
    &&& a.average_income == b.average_income
    &&& a.latitude@ == b.latitude@
    &&& a.longitude@ == b.longitude@
    &&& a.metro_code == b.metro_code
    &&& a.population_density == b.population_density
    &&& a.time_zone@ == b.time_zone@
}

pub open spec fn same_postal(a: Postal, b: Postal) -> bool {
    &&& a.code@ == b.code@
    &&& a.confidence == b.confidence
}

pub open spec fn same_registered_country(a: RegisteredCountry, b: RegisteredCountry) -> bool {
    &&& a.geoname_id == b.geoname_id
    &&& a.is_in_european_union == b.is_in_european_union
    &&& a.iso_code@ == b.iso_code@
    &&& a.names@ == b.names@
}

pub open spec fn same_represented_country(a: RepresentedCountry, b: RepresentedCountry) -> bool {
    &&& a.geoname_id == b.geoname_id
    &&& a.is_in_european_union == b.is_in_european_union
    &&& a.iso_code@ == b.iso_code@
    &&& a.names@ == b.names@
    &&& a.country_type@ == b.country_type@
}

pub open spec fn same_subdivision(a: Subdivision, b: Subdivision) -> bool {
    &&& a.confidence == b.confidence
    &&& a.geoname_id == b.geoname_id
    &&& a.iso_code@ == b.iso_code@
    &&& a.names@ == b.names@
}

pub open spec fn same_traits(a: Traits, b: Traits) -> bool {
    &&& a.autonomous_system_number == b.autonomous_system_number
    &&& text_of(a.autonomous_system_organization) == text_of(b.autonomous_system_organization)
    &&& text_of(a.domain) == text_of(b.domain)
    &&& a.is_anonymous == b.is_anonymous
    &&& a.is_anonymous_proxy == b.is_anonymous_proxy
    &&& a.is_anonymous_vpn == b.is_anonymous_vpn
    &&& a.is_hosting_provider == b.is_hosting_provider
    &&& a.is_public_proxy == b.is_public_proxy
    &&& a.is_residential_proxy == b.is_residential_proxy
    &&& a.is_satellite_provider == b.is_satellite_provider
    &&& a.is_tor_exit_node == b.is_tor_exit_node
    &&& text_of(a.isp) == text_of(b.isp)
    &&& a.network@ == b.network@
    &&& a.ip_address@ == b.ip_address@
    &&& text_of(a.organization) == text_of(b.organization)
    &&& text_of(a.static_ip_score) == text_of(b.static_ip_score)
    &&& a.user_count == b.user_count
    &&& text_of(a.user_type) == text_of(b.user_type)
}

pub open spec fn same_represented(a: Option<RepresentedCountry>, b: Option<RepresentedCountry>) -> bool {
    match (a, b) {
        (Some(x), Some(y)) => same_represented_country(x, y),
        (None, None) => true,
        _ => false,
    }
}

pub open spec fn same_subdivisions(a: Seq<Subdivision>, b: Seq<Subdivision>) -> bool {
    &&& a.len() == b.len()
    &&& forall|i: int| 0 <= i < a.len() ==> #[trigger] same_subdivision(a[i], b[i])
}

pub open spec fn same_country_response(a: CountryResponse, b: CountryResponse) -> bool {
    &&& same_continent(a.continent, b.continent)
    &&& same_country(a.country, b.country)
    &&& same_registered_country(a.registered_country, b.registered_country)
    &&& same_represented(a.represented_country, b.represented_country)
    &&& same_traits(a.traits, b.traits)
    &&& a.maxmind == b.maxmind
}

pub open spec fn same_city_response(a: CityResponse, b: CityResponse) -> bool {
    &&& same_city(a.city, b.city)
    &&& same_continent(a.continent, b.continent)
    &&& same_country(a.country, b.country)
    &&& same_location(a.location, b.location)
    &&& same_postal(a.postal, b.postal)
    &&& same_represented(a.represented_country, b.represented_country)
    &&& same_registered_country(a.registered_country, b.registered_country)
    &&& same_subdivisions(a.subdivisions@, b.subdivisions@)
    &&& same_traits(a.traits, b.traits)
    &&& a.maxmind == b.maxmind
}

pub open spec fn same_insights_response(a: InsightsResponse, b: InsightsResponse) -> bool {
    &&& same_city(a.city, b.city)
    &&& same_continent(a.continent, b.continent)
    &&& same_country(a.country, b.country)
    &&& same_location(a.location, b.location)
    &&& same_postal(a.postal, b.postal)
    &&& same_represented(a.represented_country, b.represented_country)
    &&& same_registered_country(a.registered_country, b.registered_country)
    &&& same_subdivisions(a.subdivisions@, b.subdivisions@)
    &&& same_traits(a.traits, b.traits)
    &&& a.maxmind == b.maxmind
}

/// A country answer written as `v` and read back from `v` is the same
/// answer, field for field.
pub proof fn lemma_country_response_round_trip(r: CountryResponse, v: JsonValue, back: CountryResponse)
    requires
        country_response_json(v, r),
        country_response_json(v, back),
    ensures
        same_country_response(r, back),
{
}

/// A city answer written as `v` and read back from `v` is the same answer,
/// field for field, with the subdivisions in the same order.
pub proof fn lemma_city_response_round_trip(r: CityResponse, v: JsonValue, back: CityResponse)
    requires
        city_response_json(v, r),
        city_response_json(v, back),
    ensures
        same_city_response(r, back),
{
    if let JsonValue::Object(m) = v {
        if let Some(JsonValue::Array(items)) = lookup(m@, "subdivisions"@) {
            assert forall|i: int| 0 <= i < r.subdivisions@.len() implies #[trigger] same_subdivision(r.subdivisions@[i], back.subdivisions@[i]) by {
                assert(subdivision_json(items@[i], r.subdivisions@[i]));
                assert(subdivision_json(items@[i], back.subdivisions@[i]));
            }
        }
    }
}

/// An insights answer written as `v` and read back from `v` is the same
/// answer, field for field, with the subdivisions in the same order.
pub proof fn lemma_insights_response_round_trip(r: InsightsResponse, v: JsonValue, back: InsightsResponse)
    requires
        insights_response_json(v, r),
        insights_response_json(v, back),
    ensures
        same_insights_response(r, back),
{
    if let JsonValue::Object(m) = v {
        if let Some(JsonValue::Array(items)) = lookup(m@, "subdivisions"@) {
            assert forall|i: int| 0 <= i < r.subdivisions@.len() implies #[trigger] same_subdivision(r.subdivisions@[i], back.subdivisions@[i]) by {
                assert(subdivision_json(items@[i], r.subdivisions@[i]));
                assert(subdivision_json(items@[i], back.subdivisions@[i]));
            }
        }
    }
}

/// A location whose optional `average_income` is absent or `null` reads with
/// that field absent, not as zero.
pub proof fn lemma_absent_income_reads_none(m: Vec<(String, JsonValue)>, l: Location)
    requires
        lookup(m@, "average_income"@) is None || lookup(m@, "average_income"@) == Some(JsonValue::Null),
        location_json(JsonValue::Object(m), l),
    ensures
        l.average_income is None,
{
}

/// A country whose required `iso_code` is absent, or not a string, reads as
/// no country at all.
pub proof fn lemma_absent_iso_code_fails(m: Vec<(String, JsonValue)>)
    requires
        !(lookup(m@, "iso_code"@) matches Some(JsonValue::Str(_))),
    ensures
        forall|c: Country| !country_json(JsonValue::Object(m), c),
{
}

} // verus!
