//! The lookup client: credentials and transport handle, the request each
//! lookup makes, and how the service's answer becomes a result.

use vstd::prelude::*;
use vstd::string::*;
use crate::json::JsonValue;
use crate::responses::{
    CountryResponse, CityResponse, InsightsResponse, country_response_json, city_response_json,
    insights_response_json,
};

verus! {

#[verifier::external_type_specification]
#[verifier::external_body]
pub struct ExHttpClient(reqwest::Client);

#[verifier::external_type_specification]
#[verifier::external_body]
pub struct ExHttpError(reqwest::Error);

/// Relies on reqwest's `ClientBuilder::build` with default settings: it
/// fails, rather than panicking, when no TLS backend or resolver can be had.
#[verifier::external_body]
fn build_transport() -> (r: Result<reqwest::Client, reqwest::Error>) {
    reqwest::Client::builder().build()
}

/// The three lookups the service offers.
#[derive(Debug, Clone, Copy, PartialEq, Eq)]
pub enum LookupKind {
    Country,
    City,
    Insights,
}

/// Why a lookup failed.
#[derive(Debug, Clone, Copy, PartialEq, Eq)]
pub enum LookupError {
    /// The request did not complete: connection, TLS, timeout, or a body that
    /// could not be read.
    Transport,
    /// The service answered with a status other than success.
    Rejected { status: u16 },
    /// The body is not JSON, or not of the shape the lookup answers with.
    SchemaMismatch,
}

/// The endpoint of a lookup; the address is appended to it.
pub open spec fn base_url(kind: LookupKind) -> Seq<char> {
    match kind {
        LookupKind::Country => "https://geoip.maxmind.com/geoip/v2.1/country/"@,
        LookupKind::City => "https://geoip.maxmind.com/geoip/v2.1/city/"@,
        LookupKind::Insights => "https://geoip.maxmind.com/geoip/v2.1/insights/"@,
    }
}

/// An HTTP status in the success class.
pub open spec fn is_success(status: u16) -> bool {
    200 <= status < 300
}

/// The URL that a lookup of `ip_address` requests. The address is not checked
/// here: the service rejects malformed ones.
pub fn lookup_url(kind: LookupKind, ip_address: &str) -> (r: String)
    ensures
        r@ == base_url(kind) + ip_address@,
{
    let base = match kind {
        LookupKind::Country => "https://geoip.maxmind.com/geoip/v2.1/country/",
        LookupKind::City => "https://geoip.maxmind.com/geoip/v2.1/city/",
        LookupKind::Insights => "https://geoip.maxmind.com/geoip/v2.1/insights/",
    };
    String::from_str(base).concat(ip_address)
}

/// Accepts a success status; any other is a rejection by the service.
pub fn check_status(status: u16) -> (r: Result<(), LookupError>)
    ensures
        is_success(status) <==> r is Ok,
        !is_success(status) ==> r == Err::<(), LookupError>(LookupError::Rejected { status }),
{
    if 200 <= status && status < 300 {
        Ok(())
    } else {
        Err(LookupError::Rejected { status })
    }
}

/// The result of a country lookup whose answer had `status` and a body that
/// parsed as `body` (`None`: not JSON).
pub fn country_outcome(status: u16, body: Option<&JsonValue>) -> (r: Result<CountryResponse, LookupError>)
    ensures
        !is_success(status) ==> r == Err::<CountryResponse, LookupError>(LookupError::Rejected { status }),
        is_success(status) && body is None ==> r == Err::<CountryResponse, LookupError>(LookupError::SchemaMismatch),
        is_success(status) && body is Some ==> match r {
            Ok(x) => country_response_json(*body.unwrap(), x),
            Err(e) => e == LookupError::SchemaMismatch
                && forall|x: CountryResponse| !country_response_json(*body.unwrap(), x),
        },
{
    check_status(status)?;
    match body {
        Some(v) => match CountryResponse::from_json(v) {
            Some(x) => Ok(x),
            None => Err(LookupError::SchemaMismatch),
        },
        None => Err(LookupError::SchemaMismatch),
    }
}

/// The result of a city lookup whose answer had `status` and a body that
/// parsed as `body` (`None`: not JSON).
pub fn city_outcome(status: u16, body: Option<&JsonValue>) -> (r: Result<CityResponse, LookupError>)
    ensures
        !is_success(status) ==> r == Err::<CityResponse, LookupError>(LookupError::Rejected { status }),
        is_success(status) && body is None ==> r == Err::<CityResponse, LookupError>(LookupError::SchemaMismatch),
        is_success(status) && body is Some ==> match r {
            Ok(x) => city_response_json(*body.unwrap(), x),
            Err(e) => e == LookupError::SchemaMismatch
                && forall|x: CityResponse| !city_response_json(*body.unwrap(), x),
        },
{
    check_status(status)?;
    match body {
        Some(v) => match CityResponse::from_json(v) {
            Some(x) => Ok(x),
            None => Err(LookupError::SchemaMismatch),
        },
        None => Err(LookupError::SchemaMismatch),
    }
}

/// The result of an insights lookup whose answer had `status` and a body that
/// parsed as `body` (`None`: not JSON).
pub fn insights_outcome(status: u16, body: Option<&JsonValue>) -> (r: Result<InsightsResponse, LookupError>)
    ensures
        !is_success(status) ==> r == Err::<InsightsResponse, LookupError>(LookupError::Rejected { status }),
        is_success(status) && body is None ==> r == Err::<InsightsResponse, LookupError>(LookupError::SchemaMismatch),
        is_success(status) && body is Some ==> match r {
            Ok(x) => insights_response_json(*body.unwrap(), x),
            Err(e) => e == LookupError::SchemaMismatch
                && forall|x: InsightsResponse| !insights_response_json(*body.unwrap(), x),
        },
{
    check_status(status)?;
    match body {
        Some(v) => match InsightsResponse::from_json(v) {
            Some(x) => Ok(x),
            None => Err(LookupError::SchemaMismatch),
        },
        None => Err(LookupError::SchemaMismatch),
    }
}

/// Credentials (account identifier and secret key) and one reusable HTTP
/// transport, shared by every lookup the client makes.
pub struct ApiClient {
    user_id: String,
    license_key: String,
    client: reqwest::Client,
}

impl ApiClient {
    pub closed spec fn user_id_text(&self) -> Seq<char> {
        self.user_id@
    }

    pub closed spec fn license_key_text(&self) -> Seq<char> {
        self.license_key@
    }

    /// A client for the given credentials; fails only when no transport can
    /// be set up.
    pub fn new_client(user_id: &str, license_key: &str) -> (r: Result<ApiClient, LookupError>)
        ensures
            match r {
                Ok(c) => c.user_id_text() == user_id@ && c.license_key_text() == license_key@,
                Err(e) => e == LookupError::Transport,
            },
    {
        match build_transport() {
            Ok(client) => Ok(
                ApiClient {
                    user_id: user_id.to_owned(),
                    license_key: license_key.to_owned(),
                    client,
                },
            ),
            Err(_) => Err(LookupError::Transport),
        }
    }

    pub fn user_id(&self) -> (r: &str)
        ensures
            r@ == self.user_id_text(),
    {
        self.user_id.as_str()
    }

    pub fn license_key(&self) -> (r: &str)
        ensures
            r@ == self.license_key_text(),
    {
        self.license_key.as_str()
    }

    /// The transport that requests go through.
    pub fn transport(&self) -> &reqwest::Client {
        &self.client
    }
}

} // verus!
