//! The records that the lookup service answers with, and how each is read
//! from JSON. A required member that is absent, `null` or of another kind
//! fails the read; an optional member that is absent or `null` reads as `None`.
//! Members not named here are ignored.

use vstd::prelude::*;
use crate::json::{
    JsonValue, int_member, opt_int_member, opt_bool_member, str_member, opt_str_member,
    number_member, opt_number_member, text_of, read_int, read_opt_int, read_opt_bool, read_str,
    read_opt_str, read_number, read_opt_number, lemma_lookup_unique, member, keys_unique,
    opt_int_json, opt_bool_json, str_json, opt_str_json, number_json, opt_number_json,
};
use crate::names::{NameMap, names_member, read_names};

verus! {

/// A city, as the city and insights lookups give it.
#[derive(Debug, PartialEq, Eq)]
pub struct City {
    pub confidence: Option<i64>,
    pub geoname_id: i64,
    pub names: NameMap,
}

#[derive(Debug, PartialEq, Eq)]
pub struct Continent {
    pub code: String,
    pub geoname_id: i64,
    pub names: NameMap,
}

#[derive(Debug, PartialEq, Eq)]
pub struct Country {
    pub confidence: Option<i64>,
    pub geoname_id: i64,
    pub is_in_european_union: Option<bool>,
    pub iso_code: String,
    pub names: NameMap,
}

/// Where the address is. Coordinates are decimal text, exactly as read.
#[derive(Debug, PartialEq, Eq)]
pub struct Location {
    pub accuracy_radius: i64,
    pub average_income: Option<i64>,
    pub latitude: String,
    pub longitude: String,
    pub metro_code: i64,
    pub population_density: Option<i64>,
    pub time_zone: String,
}

#[derive(Debug, PartialEq, Eq)]
pub struct Postal {
    pub code: String,
    pub confidence: Option<i64>,
}

#[derive(Debug, PartialEq, Eq)]
pub struct RegisteredCountry {
    pub geoname_id: i64,
    pub is_in_european_union: Option<bool>,
    pub iso_code: String,
    pub names: NameMap,
}

/// The country that a military base or embassy represents; its JSON member
/// `type` is held in `country_type`.
#[derive(Debug, PartialEq, Eq)]
pub struct RepresentedCountry {
    pub geoname_id: i64,
    pub is_in_european_union: Option<bool>,
    pub iso_code: String,
    pub names: NameMap,
    pub country_type: String,
}

#[derive(Debug, PartialEq, Eq)]
pub struct Subdivision {
    pub confidence: Option<i64>,
    pub geoname_id: i64,
    pub iso_code: String,
    pub names: NameMap,
}

/// Network, ownership and risk attributes of the address. The static IP
/// score is decimal text, exactly as read.
#[derive(Debug, PartialEq, Eq)]
pub struct Traits {
    pub autonomous_system_number: Option<i64>,
    pub autonomous_system_organization: Option<String>,
    pub domain: Option<String>,
    pub is_anonymous: Option<bool>,
    pub is_anonymous_proxy: Option<bool>,
    pub is_anonymous_vpn: Option<bool>,
    pub is_hosting_provider: Option<bool>,
    pub is_public_proxy: Option<bool>,
    pub is_residential_proxy: Option<bool>,
    pub is_satellite_provider: Option<bool>,
    pub is_tor_exit_node: Option<bool>,
    pub isp: Option<String>,
    pub network: String,
    pub ip_address: String,
    pub organization: Option<String>,
    pub static_ip_score: Option<String>,
    pub user_count: Option<i64>,
    pub user_type: Option<String>,
}

/// Account data: how many queries are left.
#[derive(Debug, PartialEq, Eq)]
pub struct MaxMind {
    pub queries_remaining: i64,
}

pub open spec fn city_json(v: JsonValue, c: City) -> bool {
    match v {
        JsonValue::Object(m) => {
            &&& opt_int_member(m@, "confidence"@) == Some(c.confidence)
            &&& int_member(m@, "geoname_id"@) == Some(c.geoname_id)
            &&& names_member(m@, "names"@) == Some(c.names@)
        },
        _ => false,
    }
}

pub open spec fn continent_json(v: JsonValue, c: Continent) -> bool {
    match v {
        JsonValue::Object(m) => {
            &&& str_member(m@, "code"@) == Some(c.code@)
            &&& int_member(m@, "geoname_id"@) == Some(c.geoname_id)
            &&& names_member(m@, "names"@) == Some(c.names@)
        },
        _ => false,
    }
}

pub open spec fn country_json(v: JsonValue, c: Country) -> bool {
    match v {
        JsonValue::Object(m) => {
            &&& opt_int_member(m@, "confidence"@) == Some(c.confidence)
            &&& int_member(m@, "geoname_id"@) == Some(c.geoname_id)
            &&& opt_bool_member(m@, "is_in_european_union"@) == Some(c.is_in_european_union)
            &&& str_member(m@, "iso_code"@) == Some(c.iso_code@)
            &&& names_member(m@, "names"@) == Some(c.names@)
        },
        _ => false,
    }
}

pub open spec fn location_json(v: JsonValue, l: Location) -> bool {
    match v {
        JsonValue::Object(m) => {
            &&& int_member(m@, "accuracy_radius"@) == Some(l.accuracy_radius)
            &&& opt_int_member(m@, "average_income"@) == Some(l.average_income)
            &&& number_member(m@, "latitude"@) == Some(l.latitude@)
            &&& number_member(m@, "longitude"@) == Some(l.longitude@)
            &&& int_member(m@, "metro_code"@) == Some(l.metro_code)
            &&& opt_int_member(m@, "population_density"@) == Some(l.population_density)
            &&& str_member(m@, "time_zone"@) == Some(l.time_zone@)
        },
        _ => false,
    }
}

pub open spec fn postal_json(v: JsonValue, p: Postal) -> bool {
    match v {
        JsonValue::Object(m) => {
            &&& str_member(m@, "code"@) == Some(p.code@)
            &&& opt_int_member(m@, "confidence"@) == Some(p.confidence)
        },
        _ => false,
    }
}

pub open spec fn registered_country_json(v: JsonValue, c: RegisteredCountry) -> bool {
    match v {
        JsonValue::Object(m) => {
            &&& int_member(m@, "geoname_id"@) == Some(c.geoname_id)
            &&& opt_bool_member(m@, "is_in_european_union"@) == Some(c.is_in_european_union)
            &&& str_member(m@, "iso_code"@) == Some(c.iso_code@)
            &&& names_member(m@, "names"@) == Some(c.names@)
        },
        _ => false,
    }
}

pub open spec fn represented_country_json(v: JsonValue, c: RepresentedCountry) -> bool {
    match v {
        JsonValue::Object(m) => {
            &&& int_member(m@, "geoname_id"@) == Some(c.geoname_id)
            &&& opt_bool_member(m@, "is_in_european_union"@) == Some(c.is_in_european_union)
            &&& str_member(m@, "iso_code"@) == Some(c.iso_code@)
            &&& names_member(m@, "names"@) == Some(c.names@)
            &&& str_member(m@, "type"@) == Some(c.country_type@)
        },
        _ => false,
    }
}

pub open spec fn subdivision_json(v: JsonValue, s: Subdivision) -> bool {
    match v {
        JsonValue::Object(m) => {
            &&& opt_int_member(m@, "confidence"@) == Some(s.confidence)
            &&& int_member(m@, "geoname_id"@) == Some(s.geoname_id)
            &&& str_member(m@, "iso_code"@) == Some(s.iso_code@)
            &&& names_member(m@, "names"@) == Some(s.names@)
        },
        _ => false,
    }
}

pub open spec fn traits_json(v: JsonValue, t: Traits) -> bool {
    match v {
        JsonValue::Object(m) => {
            &&& opt_int_member(m@, "autonomous_system_number"@) == Some(t.autonomous_system_number)
            &&& opt_str_member(m@, "autonomous_system_organization"@) == Some(text_of(t.autonomous_system_organization))
            &&& opt_str_member(m@, "domain"@) == Some(text_of(t.domain))
            &&& opt_bool_member(m@, "is_anonymous"@) == Some(t.is_anonymous)
            &&& opt_bool_member(m@, "is_anonymous_proxy"@) == Some(t.is_anonymous_proxy)
            &&& opt_bool_member(m@, "is_anonymous_vpn"@) == Some(t.is_anonymous_vpn)
            &&& opt_bool_member(m@, "is_hosting_provider"@) == Some(t.is_hosting_provider)
            &&& opt_bool_member(m@, "is_public_proxy"@) == Some(t.is_public_proxy)
            &&& opt_bool_member(m@, "is_residential_proxy"@) == Some(t.is_residential_proxy)
            &&& opt_bool_member(m@, "is_satellite_provider"@) == Some(t.is_satellite_provider)
            &&& opt_bool_member(m@, "is_tor_exit_node"@) == Some(t.is_tor_exit_node)
            &&& opt_str_member(m@, "isp"@) == Some(text_of(t.isp))
            &&& str_member(m@, "network"@) == Some(t.network@)
            &&& str_member(m@, "ip_address"@) == Some(t.ip_address@)
            &&& opt_str_member(m@, "organization"@) == Some(text_of(t.organization))
            &&& opt_number_member(m@, "static_ip_score"@) == Some(text_of(t.static_ip_score))
            &&& opt_int_member(m@, "user_count"@) == Some(t.user_count)
            &&& opt_str_member(m@, "user_type"@) == Some(text_of(t.user_type))
        },
        _ => false,
    }
}

pub open spec fn maxmind_json(v: JsonValue, x: MaxMind) -> bool {
    match v {
        JsonValue::Object(m) => int_member(m@, "queries_remaining"@) == Some(x.queries_remaining),
        _ => false,
    }
}

/// Reads an object as a record, or `None` if it is not one.
pub fn read_object(v: &JsonValue) -> (r: Option<&Vec<(String, JsonValue)>>)
    ensures
        match r {
            Some(m) => *v == JsonValue::Object(*m),
            None => !(v is Object),
        },
{
    match v {
        JsonValue::Object(m) => Some(m),
        _ => None,
    }
}

impl City {
    /// The city as a JSON object.
    pub fn to_json(&self) -> (v: JsonValue)
        ensures
            city_json(v, *self),
    {
        let mut m: Vec<(String, JsonValue)> = Vec::new();
        m.push(member("confidence", opt_int_json(self.confidence)));
        m.push(member("geoname_id", JsonValue::Int(self.geoname_id)));
        m.push(member("names", self.names.to_json()));
        proof {
            reveal_strlit("confidence");
            assert("confidence"@.len() == 10 && "confidence"@[0] == 'c');
            reveal_strlit("geoname_id");
            assert("geoname_id"@.len() == 10 && "geoname_id"@[0] == 'g');
            reveal_strlit("names");
            assert("names"@.len() == 5 && "names"@[0] == 'n');
            assert(m@[0].0@ == "confidence"@);
            assert(m@[1].0@ == "geoname_id"@);
            assert(m@[2].0@ == "names"@);
            assert(keys_unique(m@));
            lemma_lookup_unique(m@);
        }
        JsonValue::Object(m)
    }

    pub fn from_json(v: &JsonValue) -> (r: Option<City>)
        ensures
            match r {
                Some(c) => city_json(*v, c),
                None => forall|c: City| !city_json(*v, c),
            },
    {
        let m = read_object(v)?;
        let confidence = read_opt_int(m, "confidence")?;
        let geoname_id = read_int(m, "geoname_id")?;
        let names = read_names(m, "names")?;
        Some(City { confidence, geoname_id, names })
    }
}


impl Continent {
    /// The continent as a JSON object.
    pub fn to_json(&self) -> (v: JsonValue)
        ensures
            continent_json(v, *self),
    {
        let mut m: Vec<(String, JsonValue)> = Vec::new();
        m.push(member("code", str_json(&self.code)));
        m.push(member("geoname_id", JsonValue::Int(self.geoname_id)));
        m.push(member("names", self.names.to_json()));
        proof {
            reveal_strlit("code");
            assert("code"@.len() == 4 && "code"@[0] == 'c');
            reveal_strlit("geoname_id");
            assert("geoname_id"@.len() == 10 && "geoname_id"@[0] == 'g');
            reveal_strlit("names");
            assert("names"@.len() == 5 && "names"@[0] == 'n');
            assert(m@[0].0@ == "code"@);
            assert(m@[1].0@ == "geoname_id"@);
            assert(m@[2].0@ == "names"@);
            assert(keys_unique(m@));
            lemma_lookup_unique(m@);
        }
        JsonValue::Object(m)
    }

    pub fn from_json(v: &JsonValue) -> (r: Option<Continent>)
        ensures
            match r {
                Some(c) => continent_json(*v, c),
                None => forall|c: Continent| !continent_json(*v, c),
            },
    {
        let m = read_object(v)?;
        let code = read_str(m, "code")?;
        let geoname_id = read_int(m, "geoname_id")?;
        let names = read_names(m, "names")?;
        Some(Continent { code, geoname_id, names })
    }
}

impl Country {
    /// The country as a JSON object.
    pub fn to_json(&self) -> (v: JsonValue)
        ensures
            country_json(v, *self),
    {
        let mut m: Vec<(String, JsonValue)> = Vec::new();
        m.push(member("confidence", opt_int_json(self.confidence)));
        m.push(member("geoname_id", JsonValue::Int(self.geoname_id)));
        m.push(member("is_in_european_union", opt_bool_json(self.is_in_european_union)));
        m.push(member("iso_code", str_json(&self.iso_code)));
        m.push(member("names", self.names.to_json()));
        proof {
            reveal_strlit("confidence");
            assert("confidence"@.len() == 10 && "confidence"@[0] == 'c');
            reveal_strlit("geoname_id");
            assert("geoname_id"@.len() == 10 && "geoname_id"@[0] == 'g');
            reveal_strlit("is_in_european_union");
            assert("is_in_european_union"@.len() == 20 && "is_in_european_union"@[0] == 'i');
            reveal_strlit("iso_code");
            assert("iso_code"@.len() == 8 && "iso_code"@[0] == 'i');
            reveal_strlit("names");
            assert("names"@.len() == 5 && "names"@[0] == 'n');
            assert(m@[0].0@ == "confidence"@);
            assert(m@[1].0@ == "geoname_id"@);
            assert(m@[2].0@ == "is_in_european_union"@);
            assert(m@[3].0@ == "iso_code"@);
            assert(m@[4].0@ == "names"@);
            assert(keys_unique(m@));
            lemma_lookup_unique(m@);
        }
        JsonValue::Object(m)
    }

    pub fn from_json(v: &JsonValue) -> (r: Option<Country>)
        ensures
            match r {
                Some(c) => country_json(*v, c),
                None => forall|c: Country| !country_json(*v, c),
            },
    {
        let m = read_object(v)?;
        let confidence = read_opt_int(m, "confidence")?;
        let geoname_id = read_int(m, "geoname_id")?;
        let is_in_european_union = read_opt_bool(m, "is_in_european_union")?;
        let iso_code = read_str(m, "iso_code")?;
        let names = read_names(m, "names")?;
        Some(Country { confidence, geoname_id, is_in_european_union, iso_code, names })
    }
}

impl Location {
    /// The location as a JSON object.
    pub fn to_json(&self) -> (v: JsonValue)
        ensures
            location_json(v, *self),
    {
        let mut m: Vec<(String, JsonValue)> = Vec::new();
        m.push(member("accuracy_radius", JsonValue::Int(self.accuracy_radius)));
        m.push(member("average_income", opt_int_json(self.average_income)));
        m.push(member("latitude", number_json(&self.latitude)));
        m.push(member("longitude", number_json(&self.longitude)));
        m.push(member("metro_code", JsonValue::Int(self.metro_code)));
        m.push(member("population_density", opt_int_json(self.population_density)));
        m.push(member("time_zone", str_json(&self.time_zone)));
        proof {
            reveal_strlit("accuracy_radius");
            assert("accuracy_radius"@.len() == 15 && "accuracy_radius"@[0] == 'a');
            reveal_strlit("average_income");
            assert("average_income"@.len() == 14 && "average_income"@[0] == 'a');
            reveal_strlit("latitude");
            assert("latitude"@.len() == 8 && "latitude"@[0] == 'l');
            reveal_strlit("longitude");
            assert("longitude"@.len() == 9 && "longitude"@[0] == 'l');
            reveal_strlit("metro_code");
            assert("metro_code"@.len() == 10 && "metro_code"@[0] == 'm');
            reveal_strlit("population_density");
            assert("population_density"@.len() == 18 && "population_density"@[0] == 'p');
            reveal_strlit("time_zone");
            assert("time_zone"@.len() == 9 && "time_zone"@[0] == 't');
            assert(m@[0].0@ == "accuracy_radius"@);
            assert(m@[1].0@ == "average_income"@);
            assert(m@[2].0@ == "latitude"@);
            assert(m@[3].0@ == "longitude"@);
            assert(m@[4].0@ == "metro_code"@);
            assert(m@[5].0@ == "population_density"@);
            assert(m@[6].0@ == "time_zone"@);
            assert(keys_unique(m@));
            lemma_lookup_unique(m@);
        }
        JsonValue::Object(m)
    }

    pub fn from_json(v: &JsonValue) -> (r: Option<Location>)
        ensures
            match r {
                Some(l) => location_json(*v, l),
                None => forall|l: Location| !location_json(*v, l),
            },
    {
        let m = read_object(v)?;
        let accuracy_radius = read_int(m, "accuracy_radius")?;
        let average_income = read_opt_int(m, "average_income")?;
        let latitude = read_number(m, "latitude")?;
        let longitude = read_number(m, "longitude")?;
        let metro_code = read_int(m, "metro_code")?;
        let population_density = read_opt_int(m, "population_density")?;
        let time_zone = read_str(m, "time_zone")?;
        Some(
            Location {
                accuracy_radius,
                average_income,
                latitude,
                longitude,
                metro_code,
                population_density,
                time_zone,
            },
        )
    }
}

impl Postal {
    /// The postal code as a JSON object.
    pub fn to_json(&self) -> (v: JsonValue)
        ensures
            postal_json(v, *self),
    {
        let mut m: Vec<(String, JsonValue)> = Vec::new();
        m.push(member("code", str_json(&self.code)));
        m.push(member("confidence", opt_int_json(self.confidence)));
        proof {
            reveal_strlit("code");
            assert("code"@.len() == 4 && "code"@[0] == 'c');
            reveal_strlit("confidence");
            assert("confidence"@.len() == 10 && "confidence"@[0] == 'c');
            assert(m@[0].0@ == "code"@);
            assert(m@[1].0@ == "confidence"@);
            assert(keys_unique(m@));
            lemma_lookup_unique(m@);
        }
        JsonValue::Object(m)
    }

    pub fn from_json(v: &JsonValue) -> (r: Option<Postal>)
        ensures
            match r {
                Some(p) => postal_json(*v, p),
                None => forall|p: Postal| !postal_json(*v, p),
            },
    {
        let m = read_object(v)?;
        let code = read_str(m, "code")?;
        let confidence = read_opt_int(m, "confidence")?;
        Some(Postal { code, confidence })
    }
}

impl RegisteredCountry {
    /// The registered country as a JSON object.
    pub fn to_json(&self) -> (v: JsonValue)
        ensures
            registered_country_json(v, *self),
    {
        let mut m: Vec<(String, JsonValue)> = Vec::new();
        m.push(member("geoname_id", JsonValue::Int(self.geoname_id)));
        m.push(member("is_in_european_union", opt_bool_json(self.is_in_european_union)));
        m.push(member("iso_code", str_json(&self.iso_code)));
        m.push(member("names", self.names.to_json()));
        proof {
            reveal_strlit("geoname_id");
            assert("geoname_id"@.len() == 10 && "geoname_id"@[0] == 'g');
            reveal_strlit("is_in_european_union");
            assert("is_in_european_union"@.len() == 20 && "is_in_european_union"@[0] == 'i');
            reveal_strlit("iso_code");
            assert("iso_code"@.len() == 8 && "iso_code"@[0] == 'i');
            reveal_strlit("names");
            assert("names"@.len() == 5 && "names"@[0] == 'n');
            assert(m@[0].0@ == "geoname_id"@);
            assert(m@[1].0@ == "is_in_european_union"@);
            assert(m@[2].0@ == "iso_code"@);
            assert(m@[3].0@ == "names"@);
            assert(keys_unique(m@));
            lemma_lookup_unique(m@);
        }
        JsonValue::Object(m)
    }

    pub fn from_json(v: &JsonValue) -> (r: Option<RegisteredCountry>)
        ensures
            match r {
                Some(c) => registered_country_json(*v, c),
                None => forall|c: RegisteredCountry| !registered_country_json(*v, c),
            },
    {
        let m = read_object(v)?;
        let geoname_id = read_int(m, "geoname_id")?;
        let is_in_european_union = read_opt_bool(m, "is_in_european_union")?;
        let iso_code = read_str(m, "iso_code")?;
        let names = read_names(m, "names")?;
        Some(RegisteredCountry { geoname_id, is_in_european_union, iso_code, names })
    }
}

impl RepresentedCountry {
    /// The represented country as a JSON object.
    pub fn to_json(&self) -> (v: JsonValue)
        ensures
            represented_country_json(v, *self),
    {
        let mut m: Vec<(String, JsonValue)> = Vec::new();
        m.push(member("geoname_id", JsonValue::Int(self.geoname_id)));
        m.push(member("is_in_european_union", opt_bool_json(self.is_in_european_union)));
        m.push(member("iso_code", str_json(&self.iso_code)));
        m.push(member("names", self.names.to_json()));
        m.push(member("type", str_json(&self.country_type)));
        proof {
            reveal_strlit("geoname_id");
            assert("geoname_id"@.len() == 10 && "geoname_id"@[0] == 'g');
            reveal_strlit("is_in_european_union");
            assert("is_in_european_union"@.len() == 20 && "is_in_european_union"@[0] == 'i');
            reveal_strlit("iso_code");
            assert("iso_code"@.len() == 8 && "iso_code"@[0] == 'i');
            reveal_strlit("names");
            assert("names"@.len() == 5 && "names"@[0] == 'n');
            reveal_strlit("type");
            assert("type"@.len() == 4 && "type"@[0] == 't');
            assert(m@[0].0@ == "geoname_id"@);
            assert(m@[1].0@ == "is_in_european_union"@);
            assert(m@[2].0@ == "iso_code"@);
            assert(m@[3].0@ == "names"@);
            assert(m@[4].0@ == "type"@);
            assert(keys_unique(m@));
            lemma_lookup_unique(m@);
        }
        JsonValue::Object(m)
    }

    pub fn from_json(v: &JsonValue) -> (r: Option<RepresentedCountry>)
        ensures
            match r {
                Some(c) => represented_country_json(*v, c),
                None => forall|c: RepresentedCountry| !represented_country_json(*v, c),
            },
    {
        let m = read_object(v)?;
        let geoname_id = read_int(m, "geoname_id")?;
        let is_in_european_union = read_opt_bool(m, "is_in_european_union")?;
        let iso_code = read_str(m, "iso_code")?;
        let names = read_names(m, "names")?;
        let country_type = read_str(m, "type")?;
        Some(RepresentedCountry { geoname_id, is_in_european_union, iso_code, names, country_type })
    }
}

impl Subdivision {
    /// The subdivision as a JSON object.
    pub fn to_json(&self) -> (v: JsonValue)
        ensures
            subdivision_json(v, *self),
    {
        let mut m: Vec<(String, JsonValue)> = Vec::new();
        m.push(member("confidence", opt_int_json(self.confidence)));
        m.push(member("geoname_id", JsonValue::Int(self.geoname_id)));
        m.push(member("iso_code", str_json(&self.iso_code)));
        m.push(member("names", self.names.to_json()));
        proof {
            reveal_strlit("confidence");
            assert("confidence"@.len() == 10 && "confidence"@[0] == 'c');
            reveal_strlit("geoname_id");
            assert("geoname_id"@.len() == 10 && "geoname_id"@[0] == 'g');
            reveal_strlit("iso_code");
            assert("iso_code"@.len() == 8 && "iso_code"@[0] == 'i');
            reveal_strlit("names");
            assert("names"@.len() == 5 && "names"@[0] == 'n');
            assert(m@[0].0@ == "confidence"@);
            assert(m@[1].0@ == "geoname_id"@);
            assert(m@[2].0@ == "iso_code"@);
            assert(m@[3].0@ == "names"@);
            assert(keys_unique(m@));
            lemma_lookup_unique(m@);
        }
        JsonValue::Object(m)
    }

    pub fn from_json(v: &JsonValue) -> (r: Option<Subdivision>)
        ensures
            match r {
                Some(s) => subdivision_json(*v, s),
                None => forall|s: Subdivision| !subdivision_json(*v, s),
            },
    {
        let m = read_object(v)?;
        let confidence = read_opt_int(m, "confidence")?;
        let geoname_id = read_int(m, "geoname_id")?;
        let iso_code = read_str(m, "iso_code")?;
        let names = read_names(m, "names")?;
        Some(Subdivision { confidence, geoname_id, iso_code, names })
    }
}

impl Traits {
    /// The traits as a JSON object.
    pub fn to_json(&self) -> (v: JsonValue)
        ensures
            traits_json(v, *self),
    {
        let mut m: Vec<(String, JsonValue)> = Vec::new();
        m.push(member("autonomous_system_number", opt_int_json(self.autonomous_system_number)));
        m.push(member("autonomous_system_organization", opt_str_json(&self.autonomous_system_organization)));
        m.push(member("domain", opt_str_json(&self.domain)));
        m.push(member("is_anonymous", opt_bool_json(self.is_anonymous)));
        m.push(member("is_anonymous_proxy", opt_bool_json(self.is_anonymous_proxy)));
        m.push(member("is_anonymous_vpn", opt_bool_json(self.is_anonymous_vpn)));
        m.push(member("is_hosting_provider", opt_bool_json(self.is_hosting_provider)));
        m.push(member("is_public_proxy", opt_bool_json(self.is_public_proxy)));
        m.push(member("is_residential_proxy", opt_bool_json(self.is_residential_proxy)));
        m.push(member("is_satellite_provider", opt_bool_json(self.is_satellite_provider)));
        m.push(member("is_tor_exit_node", opt_bool_json(self.is_tor_exit_node)));
        m.push(member("isp", opt_str_json(&self.isp)));
        m.push(member("network", str_json(&self.network)));
        m.push(member("ip_address", str_json(&self.ip_address)));
        m.push(member("organization", opt_str_json(&self.organization)));
        m.push(member("static_ip_score", opt_number_json(&self.static_ip_score)));
        m.push(member("user_count", opt_int_json(self.user_count)));
        m.push(member("user_type", opt_str_json(&self.user_type)));
        proof {
            reveal_strlit("autonomous_system_number");
            assert("autonomous_system_number"@.len() == 24 && "autonomous_system_number"@[0] == 'a');
            reveal_strlit("autonomous_system_organization");
            assert("autonomous_system_organization"@.len() == 30 && "autonomous_system_organization"@[0] == 'a');
            reveal_strlit("domain");
            assert("domain"@.len() == 6 && "domain"@[0] == 'd');
            reveal_strlit("is_anonymous");
            assert("is_anonymous"@.len() == 12 && "is_anonymous"@[0] == 'i');
            reveal_strlit("is_anonymous_proxy");
            assert("is_anonymous_proxy"@.len() == 18 && "is_anonymous_proxy"@[0] == 'i');
            reveal_strlit("is_anonymous_vpn");
            assert("is_anonymous_vpn"@.len() == 16 && "is_anonymous_vpn"@[0] == 'i' && "is_anonymous_vpn"@[3] == 'a');
            reveal_strlit("is_hosting_provider");
            assert("is_hosting_provider"@.len() == 19 && "is_hosting_provider"@[0] == 'i');
            reveal_strlit("is_public_proxy");
            assert("is_public_proxy"@.len() == 15 && "is_public_proxy"@[0] == 'i');
            reveal_strlit("is_residential_proxy");
            assert("is_residential_proxy"@.len() == 20 && "is_residential_proxy"@[0] == 'i');
            reveal_strlit("is_satellite_provider");
            assert("is_satellite_provider"@.len() == 21 && "is_satellite_provider"@[0] == 'i');
            reveal_strlit("is_tor_exit_node");
            assert("is_tor_exit_node"@.len() == 16 && "is_tor_exit_node"@[0] == 'i' && "is_tor_exit_node"@[3] == 't');
            reveal_strlit("isp");
            assert("isp"@.len() == 3 && "isp"@[0] == 'i');
            reveal_strlit("network");
            assert("network"@.len() == 7 && "network"@[0] == 'n');
            reveal_strlit("ip_address");
            assert("ip_address"@.len() == 10 && "ip_address"@[0] == 'i');
            reveal_strlit("organization");
            assert("organization"@.len() == 12 && "organization"@[0] == 'o');
            reveal_strlit("static_ip_score");
            assert("static_ip_score"@.len() == 15 && "static_ip_score"@[0] == 's');
            reveal_strlit("user_count");
            assert("user_count"@.len() == 10 && "user_count"@[0] == 'u');
            reveal_strlit("user_type");
            assert("user_type"@.len() == 9 && "user_type"@[0] == 'u');
            assert(m@[0].0@ == "autonomous_system_number"@);
            assert(m@[1].0@ == "autonomous_system_organization"@);
            assert(m@[2].0@ == "domain"@);
            assert(m@[3].0@ == "is_anonymous"@);
            assert(m@[4].0@ == "is_anonymous_proxy"@);
            assert(m@[5].0@ == "is_anonymous_vpn"@);
            assert(m@[6].0@ == "is_hosting_provider"@);
            assert(m@[7].0@ == "is_public_proxy"@);
            assert(m@[8].0@ == "is_residential_proxy"@);
            assert(m@[9].0@ == "is_satellite_provider"@);
            assert(m@[10].0@ == "is_tor_exit_node"@);
            assert(m@[11].0@ == "isp"@);
            assert(m@[12].0@ == "network"@);
            assert(m@[13].0@ == "ip_address"@);
            assert(m@[14].0@ == "organization"@);
            assert(m@[15].0@ == "static_ip_score"@);
            assert(m@[16].0@ == "user_count"@);
            assert(m@[17].0@ == "user_type"@);
            assert(keys_unique(m@));
            lemma_lookup_unique(m@);
        }
        JsonValue::Object(m)
    }

    pub fn from_json(v: &JsonValue) -> (r: Option<Traits>)
        ensures
            match r {
                Some(t) => traits_json(*v, t),
                None => forall|t: Traits| !traits_json(*v, t),
            },
    {
        let m = read_object(v)?;
        let autonomous_system_number = read_opt_int(m, "autonomous_system_number")?;
        let autonomous_system_organization = read_opt_str(m, "autonomous_system_organization")?;
        let domain = read_opt_str(m, "domain")?;
        let is_anonymous = read_opt_bool(m, "is_anonymous")?;
        let is_anonymous_proxy = read_opt_bool(m, "is_anonymous_proxy")?;
        let is_anonymous_vpn = read_opt_bool(m, "is_anonymous_vpn")?;
        let is_hosting_provider = read_opt_bool(m, "is_hosting_provider")?;
        let is_public_proxy = read_opt_bool(m, "is_public_proxy")?;
        let is_residential_proxy = read_opt_bool(m, "is_residential_proxy")?;
        let is_satellite_provider = read_opt_bool(m, "is_satellite_provider")?;
        let is_tor_exit_node = read_opt_bool(m, "is_tor_exit_node")?;
        let isp = read_opt_str(m, "isp")?;
        let network = read_str(m, "network")?;
        let ip_address = read_str(m, "ip_address")?;
        let organization = read_opt_str(m, "organization")?;
        let static_ip_score = read_opt_number(m, "static_ip_score")?;
        let user_count = read_opt_int(m, "user_count")?;
        let user_type = read_opt_str(m, "user_type")?;
        Some(
            Traits {
                autonomous_system_number,
                autonomous_system_organization,
                domain,
                is_anonymous,
                is_anonymous_proxy,
                is_anonymous_vpn,
                is_hosting_provider,
                is_public_proxy,
                is_residential_proxy,
                is_satellite_provider,
                is_tor_exit_node,
                isp,
                network,
                ip_address,
                organization,
                static_ip_score,
                user_count,
                user_type,
            },
        )
    }
}

impl MaxMind {
    /// The account data as a JSON object.
    pub fn to_json(&self) -> (v: JsonValue)
        ensures
            maxmind_json(v, *self),
    {
        let mut m: Vec<(String, JsonValue)> = Vec::new();
        m.push(member("queries_remaining", JsonValue::Int(self.queries_remaining)));
        proof {
            reveal_strlit("queries_remaining");
            assert("queries_remaining"@.len() == 17 && "queries_remaining"@[0] == 'q');
            assert(m@[0].0@ == "queries_remaining"@);
            assert(keys_unique(m@));
            lemma_lookup_unique(m@);
        }
        JsonValue::Object(m)
    }

    pub fn from_json(v: &JsonValue) -> (r: Option<MaxMind>)
        ensures
            match r {
                Some(x) => maxmind_json(*v, x),
                None => forall|x: MaxMind| !maxmind_json(*v, x),
            },
    {
        let m = read_object(v)?;
        let queries_remaining = read_int(m, "queries_remaining")?;
        Some(MaxMind { queries_remaining })
    }
}

} // verus!
