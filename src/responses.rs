//! The three answers of the lookup service, one per lookup, composed from
//! the shared records. The country lookup gives no city, location, postal
//! code or subdivisions; the city and insights lookups give all of them.

use vstd::prelude::*;
use crate::json::{JsonValue, lookup, get_member, member, keys_unique, lemma_lookup_unique};
use crate::records::{
    City, Continent, Country, Location, Postal, RegisteredCountry, RepresentedCountry,
    Subdivision, Traits, MaxMind, city_json, continent_json, country_json, location_json,
    postal_json, registered_country_json, represented_country_json, subdivision_json,
    traits_json, maxmind_json, read_object,
};

verus! {

#[derive(Debug, PartialEq, Eq)]
pub struct CountryResponse {
    pub continent: Continent,
    pub maxmind: MaxMind,
    pub traits: Traits,
    pub represented_country: Option<RepresentedCountry>,
    pub registered_country: RegisteredCountry,
    pub country: Country,
}

#[derive(Debug, PartialEq, Eq)]
pub struct CityResponse {
    pub city: City,
    pub continent: Continent,
    pub country: Country,
    pub location: Location,
    pub postal: Postal,
    pub represented_country: Option<RepresentedCountry>,
    pub registered_country: RegisteredCountry,
    /// Outermost division first.
    pub subdivisions: Vec<Subdivision>,
    pub traits: Traits,
    pub maxmind: MaxMind,
}

#[derive(Debug, PartialEq, Eq)]
pub struct InsightsResponse {
    pub city: City,
    pub continent: Continent,
    pub country: Country,
    pub location: Location,
    pub postal: Postal,
    pub represented_country: Option<RepresentedCountry>,
    pub registered_country: RegisteredCountry,
    /// Outermost division first.
    pub subdivisions: Vec<Subdivision>,
    pub traits: Traits,
    pub maxmind: MaxMind,
}

/// The optional member `represented_country` reads as `r`.
pub open spec fn represented_member(m: Seq<(String, JsonValue)>, r: Option<RepresentedCountry>) -> bool {
    match lookup(m, "represented_country"@) {
        None => r is None,
        Some(JsonValue::Null) => r is None,
        Some(j) => r matches Some(c) && represented_country_json(j, c),
    }
}

/// The required member `subdivisions` is an array that reads, item by item
/// and in order, as `s`.
pub open spec fn subdivisions_member(m: Seq<(String, JsonValue)>, s: Seq<Subdivision>) -> bool {
    &&& lookup(m, "subdivisions"@) matches Some(JsonValue::Array(items))
    &&& items@.len() == s.len()
    &&& forall|i: int| 0 <= i < s.len() ==> #[trigger] subdivision_json(items@[i], s[i])
}

pub open spec fn country_response_json(v: JsonValue, r: CountryResponse) -> bool {
    match v {
        JsonValue::Object(m) => {
            &&& lookup(m@, "continent"@) matches Some(j) && continent_json(j, r.continent)
            &&& lookup(m@, "country"@) matches Some(j) && country_json(j, r.country)
            &&& lookup(m@, "registered_country"@) matches Some(j) && registered_country_json(j, r.registered_country)
            &&& represented_member(m@, r.represented_country)
            &&& lookup(m@, "traits"@) matches Some(j) && traits_json(j, r.traits)
            &&& lookup(m@, "maxmind"@) matches Some(j) && maxmind_json(j, r.maxmind)
        },
        _ => false,
    }
}

pub open spec fn city_response_json(v: JsonValue, r: CityResponse) -> bool {
    match v {
        JsonValue::Object(m) => {
            &&& lookup(m@, "city"@) matches Some(j) && city_json(j, r.city)
            &&& lookup(m@, "continent"@) matches Some(j) && continent_json(j, r.continent)
            &&& lookup(m@, "country"@) matches Some(j) && country_json(j, r.country)
            &&& lookup(m@, "location"@) matches Some(j) && location_json(j, r.location)
            &&& lookup(m@, "postal"@) matches Some(j) && postal_json(j, r.postal)
            &&& represented_member(m@, r.represented_country)
            &&& lookup(m@, "registered_country"@) matches Some(j) && registered_country_json(j, r.registered_country)
            &&& subdivisions_member(m@, r.subdivisions@)
            &&& lookup(m@, "traits"@) matches Some(j) && traits_json(j, r.traits)
            &&& lookup(m@, "maxmind"@) matches Some(j) && maxmind_json(j, r.maxmind)
        },
        _ => false,
    }
}

pub open spec fn insights_response_json(v: JsonValue, r: InsightsResponse) -> bool {
    match v {
        JsonValue::Object(m) => {
            &&& lookup(m@, "city"@) matches Some(j) && city_json(j, r.city)
            &&& lookup(m@, "continent"@) matches Some(j) && continent_json(j, r.continent)
            &&& lookup(m@, "country"@) matches Some(j) && country_json(j, r.country)
            &&& lookup(m@, "location"@) matches Some(j) && location_json(j, r.location)
            &&& lookup(m@, "postal"@) matches Some(j) && postal_json(j, r.postal)
            &&& represented_member(m@, r.represented_country)
            &&& lookup(m@, "registered_country"@) matches Some(j) && registered_country_json(j, r.registered_country)
            &&& subdivisions_member(m@, r.subdivisions@)
            &&& lookup(m@, "traits"@) matches Some(j) && traits_json(j, r.traits)
            &&& lookup(m@, "maxmind"@) matches Some(j) && maxmind_json(j, r.maxmind)
        },
        _ => false,
    }
}

/// An optional represented country as JSON: `null` when absent.
pub fn represented_json(r: &Option<RepresentedCountry>) -> (v: JsonValue)
    ensures
        match r {
            Some(c) => represented_country_json(v, *c),
            None => v == JsonValue::Null,
        },
{
    match r {
        Some(c) => c.to_json(),
        None => JsonValue::Null,
    }
}

/// Subdivisions as a JSON array, in order.
pub fn subdivisions_json(s: &Vec<Subdivision>) -> (v: JsonValue)
    ensures
        v matches JsonValue::Array(items) && items@.len() == s@.len()
            && forall|i: int| 0 <= i < s@.len() ==> #[trigger] subdivision_json(items@[i], s@[i]),
{
    let mut items: Vec<JsonValue> = Vec::new();
    let n = s.len();
    let mut i: usize = 0;
    while i < n
        invariant
            n == s@.len(),
            i <= n,
            items@.len() == i,
            forall|j: int| 0 <= j < i ==> #[trigger] subdivision_json(items@[j], s@[j]),
        decreases n - i,
    {
        items.push(s[i].to_json());
        i = i + 1;
    }
    JsonValue::Array(items)
}

/// Reads the optional member `represented_country`.
pub fn read_represented(m: &Vec<(String, JsonValue)>) -> (r: Option<Option<RepresentedCountry>>)
    ensures
        match r {
            Some(x) => represented_member(m@, x),
            None => forall|x: Option<RepresentedCountry>| !represented_member(m@, x),
        },
{
    match get_member(m, "represented_country") {
        None => Some(None),
        Some(JsonValue::Null) => Some(None),
        Some(j) => {
            let c = RepresentedCountry::from_json(j)?;
            Some(Some(c))
        },
    }
}

/// Reads the required member `subdivisions`, keeping the order of the array.
pub fn read_subdivisions(m: &Vec<(String, JsonValue)>) -> (r: Option<Vec<Subdivision>>)
    ensures
        match r {
            Some(s) => subdivisions_member(m@, s@),
            None => forall|s: Seq<Subdivision>| !subdivisions_member(m@, s),
        },
{
    let items = match get_member(m, "subdivisions") {
        Some(JsonValue::Array(items)) => items,
        _ => {
            return None;
        },
    };
    let mut subs: Vec<Subdivision> = Vec::new();
    let n = items.len();
    let mut i: usize = 0;
    while i < n
        invariant
            n == items@.len(),
            lookup(m@, "subdivisions"@) == Some(JsonValue::Array(*items)),
            i <= n,
            subs@.len() == i,
            forall|j: int| 0 <= j < i ==> #[trigger] subdivision_json(items@[j], subs@[j]),
        decreases n - i,
    {
        match Subdivision::from_json(&items[i]) {
            Some(s) => {
                subs.push(s);
            },
            None => {
                assert forall|s: Seq<Subdivision>| !subdivisions_member(m@, s) by {
                    if subdivisions_member(m@, s) {
                        assert(subdivision_json(items@[i as int], s[i as int]));
                    }
                }
                return None;
            },
        }
        i = i + 1;
    }
    Some(subs)
}

impl CountryResponse {
    /// The answer as a JSON object.
    pub fn to_json(&self) -> (v: JsonValue)
        ensures
            country_response_json(v, *self),
    {
        let mut m: Vec<(String, JsonValue)> = Vec::new();
        m.push(member("continent", self.continent.to_json()));
        m.push(member("country", self.country.to_json()));
        m.push(member("registered_country", self.registered_country.to_json()));
        m.push(member("represented_country", represented_json(&self.represented_country)));
        m.push(member("traits", self.traits.to_json()));
        m.push(member("maxmind", self.maxmind.to_json()));
        proof {
            reveal_strlit("continent");
            assert("continent"@.len() == 9 && "continent"@[0] == 'c');
            reveal_strlit("country");
            assert("country"@.len() == 7 && "country"@[0] == 'c');
            reveal_strlit("registered_country");
            assert("registered_country"@.len() == 18 && "registered_country"@[0] == 'r');
            reveal_strlit("represented_country");
            assert("represented_country"@.len() == 19 && "represented_country"@[0] == 'r');
            reveal_strlit("traits");
            assert("traits"@.len() == 6 && "traits"@[0] == 't');
            reveal_strlit("maxmind");
            assert("maxmind"@.len() == 7 && "maxmind"@[0] == 'm');
            assert(m@[0].0@ == "continent"@);
            assert(m@[1].0@ == "country"@);
            assert(m@[2].0@ == "registered_country"@);
            assert(m@[3].0@ == "represented_country"@);
            assert(m@[4].0@ == "traits"@);
            assert(m@[5].0@ == "maxmind"@);
            assert(keys_unique(m@));
            lemma_lookup_unique(m@);
        }
        JsonValue::Object(m)
    }

    /// Reads the answer of a country lookup.
    pub fn from_json(v: &JsonValue) -> (r: Option<CountryResponse>)
        ensures
            match r {
                Some(x) => country_response_json(*v, x),
                None => forall|x: CountryResponse| !country_response_json(*v, x),
            },
    {
        let m = read_object(v)?;
        let continent = Continent::from_json(get_member(m, "continent")?)?;
        let country = Country::from_json(get_member(m, "country")?)?;
        let registered_country = RegisteredCountry::from_json(get_member(m, "registered_country")?)?;
        let represented_country = read_represented(m)?;
        let traits = Traits::from_json(get_member(m, "traits")?)?;
        let maxmind = MaxMind::from_json(get_member(m, "maxmind")?)?;
        Some(
            CountryResponse {
                continent,
                maxmind,
                traits,
                represented_country,
                registered_country,
                country,
            },
        )
    }
}

impl CityResponse {
    /// The answer as a JSON object.
    pub fn to_json(&self) -> (v: JsonValue)
        ensures
            city_response_json(v, *self),
    {
        let mut m: Vec<(String, JsonValue)> = Vec::new();
        m.push(member("city", self.city.to_json()));
        m.push(member("continent", self.continent.to_json()));
        m.push(member("country", self.country.to_json()));
        m.push(member("location", self.location.to_json()));
        m.push(member("postal", self.postal.to_json()));
        m.push(member("represented_country", represented_json(&self.represented_country)));
        m.push(member("registered_country", self.registered_country.to_json()));
        m.push(member("subdivisions", subdivisions_json(&self.subdivisions)));
        m.push(member("traits", self.traits.to_json()));
        m.push(member("maxmind", self.maxmind.to_json()));
        proof {
            reveal_strlit("city");
            assert("city"@.len() == 4 && "city"@[0] == 'c');
            reveal_strlit("continent");
            assert("continent"@.len() == 9 && "continent"@[0] == 'c');
            reveal_strlit("country");
            assert("country"@.len() == 7 && "country"@[0] == 'c');
            reveal_strlit("location");
            assert("location"@.len() == 8 && "location"@[0] == 'l');
            reveal_strlit("postal");
            assert("postal"@.len() == 6 && "postal"@[0] == 'p');
            reveal_strlit("represented_country");
            assert("represented_country"@.len() == 19 && "represented_country"@[0] == 'r');
            reveal_strlit("registered_country");
            assert("registered_country"@.len() == 18 && "registered_country"@[0] == 'r');
            reveal_strlit("subdivisions");
            assert("subdivisions"@.len() == 12 && "subdivisions"@[0] == 's');
            reveal_strlit("traits");
            assert("traits"@.len() == 6 && "traits"@[0] == 't');
            reveal_strlit("maxmind");
            assert("maxmind"@.len() == 7 && "maxmind"@[0] == 'm');
            assert(m@[0].0@ == "city"@);
            assert(m@[1].0@ == "continent"@);
            assert(m@[2].0@ == "country"@);
            assert(m@[3].0@ == "location"@);
            assert(m@[4].0@ == "postal"@);
            assert(m@[5].0@ == "represented_country"@);
            assert(m@[6].0@ == "registered_country"@);
            assert(m@[7].0@ == "subdivisions"@);
            assert(m@[8].0@ == "traits"@);
            assert(m@[9].0@ == "maxmind"@);
            assert(keys_unique(m@));
            lemma_lookup_unique(m@);
        }
        JsonValue::Object(m)
    }

    /// Reads the answer of a city lookup.
    pub fn from_json(v: &JsonValue) -> (r: Option<CityResponse>)
        ensures
            match r {
                Some(x) => city_response_json(*v, x),
                None => forall|x: CityResponse| !city_response_json(*v, x),
            },
    {
        let m = read_object(v)?;
        let city = City::from_json(get_member(m, "city")?)?;
        let continent = Continent::from_json(get_member(m, "continent")?)?;
        let country = Country::from_json(get_member(m, "country")?)?;
        let location = Location::from_json(get_member(m, "location")?)?;
        let postal = Postal::from_json(get_member(m, "postal")?)?;
        let represented_country = read_represented(m)?;
        let registered_country = RegisteredCountry::from_json(get_member(m, "registered_country")?)?;
        let subdivisions = read_subdivisions(m)?;
        let traits = Traits::from_json(get_member(m, "traits")?)?;
        let maxmind = MaxMind::from_json(get_member(m, "maxmind")?)?;
        Some(
            CityResponse {
                city,
                continent,
                country,
                location,
                postal,
                represented_country,
                registered_country,
                subdivisions,
                traits,
                maxmind,
            },
        )
    }
}

impl InsightsResponse {
    /// The answer as a JSON object.
    pub fn to_json(&self) -> (v: JsonValue)
        ensures
            insights_response_json(v, *self),
    {
        let mut m: Vec<(String, JsonValue)> = Vec::new();
        m.push(member("city", self.city.to_json()));
        m.push(member("continent", self.continent.to_json()));
        m.push(member("country", self.country.to_json()));
        m.push(member("location", self.location.to_json()));
        m.push(member("postal", self.postal.to_json()));
        m.push(member("represented_country", represented_json(&self.represented_country)));
        m.push(member("registered_country", self.registered_country.to_json()));
        m.push(member("subdivisions", subdivisions_json(&self.subdivisions)));
        m.push(member("traits", self.traits.to_json()));
        m.push(member("maxmind", self.maxmind.to_json()));
        proof {
            reveal_strlit("city");
            assert("city"@.len() == 4 && "city"@[0] == 'c');
            reveal_strlit("continent");
            assert("continent"@.len() == 9 && "continent"@[0] == 'c');
            reveal_strlit("country");
            assert("country"@.len() == 7 && "country"@[0] == 'c');
            reveal_strlit("location");
            assert("location"@.len() == 8 && "location"@[0] == 'l');
            reveal_strlit("postal");
            assert("postal"@.len() == 6 && "postal"@[0] == 'p');
            reveal_strlit("represented_country");
            assert("represented_country"@.len() == 19 && "represented_country"@[0] == 'r');
            reveal_strlit("registered_country");
            assert("registered_country"@.len() == 18 && "registered_country"@[0] == 'r');
            reveal_strlit("subdivisions");
            assert("subdivisions"@.len() == 12 && "subdivisions"@[0] == 's');
            reveal_strlit("traits");
            assert("traits"@.len() == 6 && "traits"@[0] == 't');
            reveal_strlit("maxmind");
            assert("maxmind"@.len() == 7 && "maxmind"@[0] == 'm');
            assert(m@[0].0@ == "city"@);
            assert(m@[1].0@ == "continent"@);
            assert(m@[2].0@ == "country"@);
            assert(m@[3].0@ == "location"@);
            assert(m@[4].0@ == "postal"@);
            assert(m@[5].0@ == "represented_country"@);
            assert(m@[6].0@ == "registered_country"@);
            assert(m@[7].0@ == "subdivisions"@);
            assert(m@[8].0@ == "traits"@);
            assert(m@[9].0@ == "maxmind"@);
            assert(keys_unique(m@));
            lemma_lookup_unique(m@);
        }
        JsonValue::Object(m)
    }

    /// Reads the answer of an insights lookup.
    pub fn from_json(v: &JsonValue) -> (r: Option<InsightsResponse>)
        ensures
            match r {
                Some(x) => insights_response_json(*v, x),
                None => forall|x: InsightsResponse| !insights_response_json(*v, x),
            },
    {
        let m = read_object(v)?;
        let city = City::from_json(get_member(m, "city")?)?;
        let continent = Continent::from_json(get_member(m, "continent")?)?;
        let country = Country::from_json(get_member(m, "country")?)?;
        let location = Location::from_json(get_member(m, "location")?)?;
        let postal = Postal::from_json(get_member(m, "postal")?)?;
        let represented_country = read_represented(m)?;
        let registered_country = RegisteredCountry::from_json(get_member(m, "registered_country")?)?;
        let subdivisions = read_subdivisions(m)?;
        let traits = Traits::from_json(get_member(m, "traits")?)?;
        let maxmind = MaxMind::from_json(get_member(m, "maxmind")?)?;
        Some(
            InsightsResponse {
                city,
                continent,
                country,
                location,
                postal,
                represented_country,
                registered_country,
                subdivisions,
                traits,
                maxmind,
            },
        )
    }
}

} // verus!
