//! Client for a remote IP geolocation lookup service: the request each
//! lookup makes, the records the service answers with, how those records are
//! read from JSON, and their text renderings.

pub mod client;
pub mod json;
pub mod laws;
pub mod names;
pub mod records;
pub mod render;
pub mod responses;
pub mod text;

pub use client::{ApiClient, LookupError, LookupKind, lookup_url, check_status, country_outcome, city_outcome, insights_outcome};
pub use json::JsonValue;
pub use names::NameMap;
pub use records::{City, Continent, Country, Location, Postal, RegisteredCountry, RepresentedCountry, Subdivision, Traits, MaxMind};
pub use render::{Render, option_to_string};
pub use responses::{CountryResponse, CityResponse, InsightsResponse};
