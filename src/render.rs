//! Human-readable renderings of the records: fields in a fixed order, each as
//! `name: value`, separated by commas. An absent optional field renders empty.

use vstd::prelude::*;
use vstd::string::*;
use crate::names::names_text;
use crate::records::{
    City, Continent, Country, Location, Postal, RegisteredCountry, RepresentedCountry,
    Subdivision, Traits, MaxMind,
};
use crate::responses::{CountryResponse, CityResponse, InsightsResponse};
use crate::text::{int_text, bool_text, debug_text, int_to_string, bool_to_string, quoted};

verus! {

/// A value with a text form.
pub trait Render {
    spec fn text(&self) -> Seq<char>;

    fn render(&self) -> (r: String)
        ensures
            r@ == self.text();
}

impl Render for i64 {
    open spec fn text(&self) -> Seq<char> {
        int_text(*self as int)
    }

    fn render(&self) -> (r: String) {
        int_to_string(*self)
    }
}

impl Render for bool {
    open spec fn text(&self) -> Seq<char> {
        bool_text(*self)
    }

    fn render(&self) -> (r: String) {
        bool_to_string(*self)
    }
}

/// A string renders quoted.
impl Render for String {
    open spec fn text(&self) -> Seq<char> {
        debug_text(self@)
    }

    fn render(&self) -> (r: String) {
        quoted(self.as_str())
    }
}

/// The text of an optional value: empty when absent.
pub open spec fn option_text<T: Render>(option: &Option<T>) -> Seq<char> {
    match option {
        Some(t) => t.text(),
        None => Seq::empty(),
    }
}

/// Renders an optional value, or nothing when it is absent.
pub fn option_to_string<T: Render>(option: &Option<T>) -> (r: String)
    ensures
        r@ == option_text(option),
{
    match option {
        Some(t) => t.render(),
        None => String::new(),
    }
}

/// Decimal text held as is: empty when absent.
pub open spec fn decimal_text(d: &Option<String>) -> Seq<char> {
    match d {
        Some(t) => t@,
        None => Seq::empty(),
    }
}

fn decimal_to_string(d: &Option<String>) -> (r: String)
    ensures
        r@ == decimal_text(d),
{
    match d {
        Some(t) => t.clone(),
        None => String::new(),
    }
}

/// Items as text, separated by commas.
pub open spec fn items_text<T: Render>(s: Seq<T>) -> Seq<char>
    decreases s.len(),
{
    if s.len() == 0 {
        Seq::empty()
    } else if s.len() == 1 {
        s[0].text()
    } else {
        items_text(s.drop_last()) + ", "@ + s.last().text()
    }
}

/// Items as text, in brackets.
pub open spec fn list_text<T: Render>(s: Seq<T>) -> Seq<char> {
    "["@ + items_text(s) + "]"@
}

/// Renders items in order, in brackets.
pub fn render_list<T: Render>(items: &Vec<T>) -> (r: String)
    ensures
        r@ == list_text(items@),
{
    let mut body = String::new();
    let n = items.len();
    let mut i: usize = 0;
    assert(items@.subrange(0, 0) =~= Seq::<T>::empty());
    while i < n
        invariant
            n == items@.len(),
            i <= n,
            body@ == items_text(items@.subrange(0, i as int)),
        decreases n - i,
    {
        let ghost before = items@.subrange(0, i as int);
        let ghost next = items@.subrange(0, i + 1);
        assert(next.drop_last() =~= before);
        assert(next.last() == items@[i as int]);
        let item = items[i].render();
        if i > 0 {
            body.append(", ");
        } else {
            assert(before.len() == 0);
        }
        body.append(item.as_str());
        i = i + 1;
    }
    assert(items@.subrange(0, n as int) =~= items@);
    let mut r = String::from_str("[");
    r.append(body.as_str());
    r.append("]");
    r
}

impl Render for City {
    open spec fn text(&self) -> Seq<char> {
        "confidence: "@ + option_text(&self.confidence)
            + ", geoname_id: "@ + int_text(self.geoname_id as int)
            + ", names: "@ + names_text(self.names@)
    }

    fn render(&self) -> (r: String) {
        let mut r = String::from_str("confidence: ");
        r.append(option_to_string(&self.confidence).as_str());
        r.append(", geoname_id: ");
        r.append(int_to_string(self.geoname_id).as_str());
        r.append(", names: ");
        r.append(self.names.render().as_str());
        r
    }
}

impl Render for Continent {
    open spec fn text(&self) -> Seq<char> {
        "code: "@ + self.code@
            + ", geoname_id: "@ + int_text(self.geoname_id as int)
            + ", names: "@ + names_text(self.names@)
    }

    fn render(&self) -> (r: String) {
        let mut r = String::from_str("code: ");
        r.append(self.code.as_str());
        r.append(", geoname_id: ");
        r.append(int_to_string(self.geoname_id).as_str());
        r.append(", names: ");
        r.append(self.names.render().as_str());
        r
    }
}

impl Render for Country {
    open spec fn text(&self) -> Seq<char> {
        "confidence: "@ + option_text(&self.confidence)
            + ", geoname_id: "@ + int_text(self.geoname_id as int)
            + ", is_in_european_union: "@ + option_text(&self.is_in_european_union)
            + ", iso_code: "@ + self.iso_code@
            + ", names: "@ + names_text(self.names@)
    }

    fn render(&self) -> (r: String) {
        let mut r = String::from_str("confidence: ");
        r.append(option_to_string(&self.confidence).as_str());
        r.append(", geoname_id: ");
        r.append(int_to_string(self.geoname_id).as_str());
        r.append(", is_in_european_union: ");
        r.append(option_to_string(&self.is_in_european_union).as_str());
        r.append(", iso_code: ");
        r.append(self.iso_code.as_str());
        r.append(", names: ");
        r.append(self.names.render().as_str());
        r
    }
}

impl Render for Location {
    open spec fn text(&self) -> Seq<char> {
        "accuracy_radius: "@ + int_text(self.accuracy_radius as int)
            + ", average_income: "@ + option_text(&self.average_income)
            + ", latitude: "@ + self.latitude@
            + ", longitude: "@ + self.longitude@
            + ", metro_code: "@ + int_text(self.metro_code as int)
            + ", population_density: "@ + option_text(&self.population_density)
            + ", time_zone: "@ + self.time_zone@
    }

    fn render(&self) -> (r: String) {
        let mut r = String::from_str("accuracy_radius: ");
        r.append(int_to_string(self.accuracy_radius).as_str());
        r.append(", average_income: ");
        r.append(option_to_string(&self.average_income).as_str());
        r.append(", latitude: ");
        r.append(self.latitude.as_str());
        r.append(", longitude: ");
        r.append(self.longitude.as_str());
        r.append(", metro_code: ");
        r.append(int_to_string(self.metro_code).as_str());
        r.append(", population_density: ");
        r.append(option_to_string(&self.population_density).as_str());
        r.append(", time_zone: ");
        r.append(self.time_zone.as_str());
        r
    }
}

impl Render for Postal {
    open spec fn text(&self) -> Seq<char> {
        "code: "@ + self.code@ + ", confidence: "@ + option_text(&self.confidence)
    }

    fn render(&self) -> (r: String) {
        let mut r = String::from_str("code: ");
        r.append(self.code.as_str());
        r.append(", confidence: ");
        r.append(option_to_string(&self.confidence).as_str());
        r
    }
}

impl Render for RegisteredCountry {
    open spec fn text(&self) -> Seq<char> {
        "geoname_id: "@ + int_text(self.geoname_id as int)
            + ", is_in_european_union: "@ + option_text(&self.is_in_european_union)
            + ", iso_code: "@ + self.iso_code@
            + ", names: "@ + names_text(self.names@)
    }

    fn render(&self) -> (r: String) {
        let mut r = String::from_str("geoname_id: ");
        r.append(int_to_string(self.geoname_id).as_str());
        r.append(", is_in_european_union: ");
        r.append(option_to_string(&self.is_in_european_union).as_str());
        r.append(", iso_code: ");
        r.append(self.iso_code.as_str());
        r.append(", names: ");
        r.append(self.names.render().as_str());
        r
    }
}

impl Render for RepresentedCountry {
    open spec fn text(&self) -> Seq<char> {
        "geoname_id: "@ + int_text(self.geoname_id as int)
            + ", is_in_european_union: "@ + option_text(&self.is_in_european_union)
            + ", iso_code: "@ + self.iso_code@
            + ", names: "@ + names_text(self.names@)
            + ", type: "@ + self.country_type@
    }

    fn render(&self) -> (r: String) {
        let mut r = String::from_str("geoname_id: ");
        r.append(int_to_string(self.geoname_id).as_str());
        r.append(", is_in_european_union: ");
        r.append(option_to_string(&self.is_in_european_union).as_str());
        r.append(", iso_code: ");
        r.append(self.iso_code.as_str());
        r.append(", names: ");
        r.append(self.names.render().as_str());
        r.append(", type: ");
        r.append(self.country_type.as_str());
        r
    }
}

impl Render for Subdivision {
    open spec fn text(&self) -> Seq<char> {
        "confidence: "@ + option_text(&self.confidence)
            + ", geoname_id: "@ + int_text(self.geoname_id as int)
            + ", iso_code: "@ + self.iso_code@
            + ", names: "@ + names_text(self.names@)
    }

    fn render(&self) -> (r: String) {
        let mut r = String::from_str("confidence: ");
        r.append(option_to_string(&self.confidence).as_str());
        r.append(", geoname_id: ");
        r.append(int_to_string(self.geoname_id).as_str());
        r.append(", iso_code: ");
        r.append(self.iso_code.as_str());
        r.append(", names: ");
        r.append(self.names.render().as_str());
        r
    }
}

impl Render for Traits {
    open spec fn text(&self) -> Seq<char> {
        "autonomous_system_number: "@ + option_text(&self.autonomous_system_number)
            + ", autonomous_system_organization: "@ + option_text(&self.autonomous_system_organization)
            + ", domain: "@ + option_text(&self.domain)
            + ", is_anonymous: "@ + option_text(&self.is_anonymous)
            + ", is_anonymous_proxy: "@ + option_text(&self.is_anonymous_proxy)
            + ", is_anonymous_vpn: "@ + option_text(&self.is_anonymous_vpn)
            + ", is_hosting_provider: "@ + option_text(&self.is_hosting_provider)
            + ", is_public_proxy: "@ + option_text(&self.is_public_proxy)
            + ", is_residential_proxy: "@ + option_text(&self.is_residential_proxy)
            + ", is_satellite_provider: "@ + option_text(&self.is_satellite_provider)
            + ", is_tor_exit_node: "@ + option_text(&self.is_tor_exit_node)
            + ", isp: "@ + option_text(&self.isp)
            + ", network: "@ + self.network@
            + ", ip_address: "@ + self.ip_address@
            + ", organization: "@ + option_text(&self.organization)
            + ", static_ip_score: "@ + decimal_text(&self.static_ip_score)
            + ", user_count: "@ + option_text(&self.user_count)
            + ", user_type: "@ + option_text(&self.user_type)
    }

    fn render(&self) -> (r: String) {
        let mut r = String::from_str("autonomous_system_number: ");
        r.append(option_to_string(&self.autonomous_system_number).as_str());
        r.append(", autonomous_system_organization: ");
        r.append(option_to_string(&self.autonomous_system_organization).as_str());
        r.append(", domain: ");
        r.append(option_to_string(&self.domain).as_str());
        r.append(", is_anonymous: ");
        r.append(option_to_string(&self.is_anonymous).as_str());
        r.append(", is_anonymous_proxy: ");
        r.append(option_to_string(&self.is_anonymous_proxy).as_str());
        r.append(", is_anonymous_vpn: ");
        r.append(option_to_string(&self.is_anonymous_vpn).as_str());
        r.append(", is_hosting_provider: ");
        r.append(option_to_string(&self.is_hosting_provider).as_str());
        r.append(", is_public_proxy: ");
        r.append(option_to_string(&self.is_public_proxy).as_str());
        r.append(", is_residential_proxy: ");
        r.append(option_to_string(&self.is_residential_proxy).as_str());
        r.append(", is_satellite_provider: ");
        r.append(option_to_string(&self.is_satellite_provider).as_str());
        r.append(", is_tor_exit_node: ");
        r.append(option_to_string(&self.is_tor_exit_node).as_str());
        r.append(", isp: ");
        r.append(option_to_string(&self.isp).as_str());
        r.append(", network: ");
        r.append(self.network.as_str());
        r.append(", ip_address: ");
        r.append(self.ip_address.as_str());
        r.append(", organization: ");
        r.append(option_to_string(&self.organization).as_str());
        r.append(", static_ip_score: ");
        r.append(decimal_to_string(&self.static_ip_score).as_str());
        r.append(", user_count: ");
        r.append(option_to_string(&self.user_count).as_str());
        r.append(", user_type: ");
        r.append(option_to_string(&self.user_type).as_str());
        r
    }
}

impl Render for MaxMind {
    open spec fn text(&self) -> Seq<char> {
        "queries_remaining: "@ + int_text(self.queries_remaining as int)
    }

    fn render(&self) -> (r: String) {
        let mut r = String::from_str("queries_remaining: ");
        r.append(int_to_string(self.queries_remaining).as_str());
        r
    }
}

impl Render for CountryResponse {
    open spec fn text(&self) -> Seq<char> {
        "continent: "@ + self.continent.text()
            + ", country: "@ + self.country.text()
            + ", registered_country: "@ + self.registered_country.text()
            + ", represented_country: "@ + option_text(&self.represented_country)
            + ", traits: "@ + self.traits.text()
            + ", maxmind: "@ + self.maxmind.text()
    }

    fn render(&self) -> (r: String) {
        let mut r = String::from_str("continent: ");
        r.append(self.continent.render().as_str());
        r.append(", country: ");
        r.append(self.country.render().as_str());
        r.append(", registered_country: ");
        r.append(self.registered_country.render().as_str());
        r.append(", represented_country: ");
        r.append(option_to_string(&self.represented_country).as_str());
        r.append(", traits: ");
        r.append(self.traits.render().as_str());
        r.append(", maxmind: ");
        r.append(self.maxmind.render().as_str());
        r
    }
}

impl Render for CityResponse {
    open spec fn text(&self) -> Seq<char> {
        "city: "@ + self.city.text()
            + ", continent: "@ + self.continent.text()
            + ", country: "@ + self.country.text()
            + ", location: "@ + self.location.text()
            + ", postal: "@ + self.postal.text()
            + ", registered_country: "@ + self.registered_country.text()
            + ", represented_country: "@ + option_text(&self.represented_country)
            + ", subdivisions: "@ + list_text(self.subdivisions@)
            + ", traits: "@ + self.traits.text()
            + ", maxmind: "@ + self.maxmind.text()
    }

    fn render(&self) -> (r: String) {
        let mut r = String::from_str("city: ");
        r.append(self.city.render().as_str());
        r.append(", continent: ");
        r.append(self.continent.render().as_str());
        r.append(", country: ");
        r.append(self.country.render().as_str());
        r.append(", location: ");
        r.append(self.location.render().as_str());
        r.append(", postal: ");
        r.append(self.postal.render().as_str());
        r.append(", registered_country: ");
        r.append(self.registered_country.render().as_str());
        r.append(", represented_country: ");
        r.append(option_to_string(&self.represented_country).as_str());
        r.append(", subdivisions: ");
        r.append(render_list(&self.subdivisions).as_str());
        r.append(", traits: ");
        r.append(self.traits.render().as_str());
        r.append(", maxmind: ");
        r.append(self.maxmind.render().as_str());
        r
    }
}

impl Render for InsightsResponse {
    open spec fn text(&self) -> Seq<char> {
        "city: "@ + self.city.text()
            + ", continent: "@ + self.continent.text()
            + ", country: "@ + self.country.text()
            + ", location: "@ + self.location.text()
            + ", postal: "@ + self.postal.text()
            + ", registered_country: "@ + self.registered_country.text()
            + ", represented_country: "@ + option_text(&self.represented_country)
            + ", subdivisions: "@ + list_text(self.subdivisions@)
            + ", traits: "@ + self.traits.text()
            + ", maxmind: "@ + self.maxmind.text()
    }

    fn render(&self) -> (r: String) {
        let mut r = String::from_str("city: ");
        r.append(self.city.render().as_str());
        r.append(", continent: ");
        r.append(self.continent.render().as_str());
        r.append(", country: ");
        r.append(self.country.render().as_str());
        r.append(", location: ");
        r.append(self.location.render().as_str());
        r.append(", postal: ");
        r.append(self.postal.render().as_str());
        r.append(", registered_country: ");
        r.append(self.registered_country.render().as_str());
        r.append(", represented_country: ");
        r.append(option_to_string(&self.represented_country).as_str());
        r.append(", subdivisions: ");
        r.append(render_list(&self.subdivisions).as_str());
        r.append(", traits: ");
        r.append(self.traits.render().as_str());
        r.append(", maxmind: ");
        r.append(self.maxmind.render().as_str());
        r
    }
}

} // verus!
