//! Where the service lives: the endpoint base URLs and the OpenID
//! Connect settings a client is configured with.
//!
//! URL parsing and resolution belong to the url crate; this module only
//! routes a request to the right base URL and carries the configuration
//! values.

use vstd::prelude::*;

verus! {

use crate::text::split_spaces;
use crate::text::split_spaces_spec;

/// Relies on `url::Url` of the url crate: a parsed absolute URL,
/// carried through opaquely.
#[verifier::external_type_specification]
#[verifier::external_body]
pub struct ExUrl(url::Url);

/// Relies on `url::ParseError` of the url crate: why a URL failed to
/// parse, carried through opaquely.
#[verifier::external_type_specification]
#[verifier::external_body]
pub struct ExParseError(url::ParseError);

/// Relies on `url::Url::join`: resolves `input` against `base` as the
/// URL standard prescribes. Nothing is claimed of the outcome.
pub assume_specification[ url::Url::join ](base: &url::Url, input: &str) -> Result<
    url::Url,
    url::ParseError,
>;

/// Relies on `url::Url::clone`: a copy of an opaque URL value. Nothing
/// is claimed of it; it only lets configuration structs be cloned.
pub assume_specification[ <url::Url as core::clone::Clone>::clone ](base: &url::Url) -> url::Url;

/// The OpenID Connect settings handed to the frontend.
#[derive(Clone, Debug, PartialEq, Eq)]
pub struct OpenIdConnect {
    pub issuer: String,
    pub client_id: String,
    pub scopes: String,
    pub after_logout: String,
}

impl OpenIdConnect {
    /// The configured scopes, one string per space-separated entry.
    pub fn scopes(&self) -> (r: Vec<String>)
        ensures
            r@.map_values(|s: String| s@) == split_spaces_spec(self.scopes@),
    {
        split_spaces(self.scopes.as_str())
    }
}

/// Client id used when the configuration names none.
pub fn client_id() -> (r: String)
    ensures
        r@ == "frontend"@,
{
    "frontend".to_owned()
}

/// Scopes used when the configuration names none.
pub fn scopes() -> (r: String)
    ensures
        r@ == "openid"@,
{
    "openid".to_owned()
}

/// Post-logout location used when the configuration names none.
pub fn after_logout() -> (r: String)
    ensures
        r@ == "/notloggedin"@,
{
    "/notloggedin".to_owned()
}

/// The base URLs of the service and its backing stores.
#[derive(Clone, Debug, PartialEq, Eq)]
pub struct Endpoints {
    pub url: url::Url,
    pub bombastic: url::Url,
    pub vexination: url::Url,
    pub oidc: OpenIdConnect,
    pub segment_write_key: Option<String>,
}

/// Which backing service a request is aimed at.
#[derive(Copy, Clone, Eq, PartialEq)]
pub enum Endpoint {
    Api,
    Vexination,
    Bombastic,
}

impl Endpoints {
    /// The base URL belonging to `endpoint`.
    pub fn get(&self, endpoint: Endpoint) -> (r: &url::Url)
        ensures
            endpoint is Api ==> r == &self.url,
            endpoint is Vexination ==> r == &self.vexination,
            endpoint is Bombastic ==> r == &self.bombastic,
    {
        match endpoint {
            Endpoint::Api => &self.url,
            Endpoint::Vexination => &self.vexination,
            Endpoint::Bombastic => &self.bombastic,
        }
    }
}

/// A client's view of the service: its resolved endpoints.
#[derive(Clone, Debug, PartialEq, Eq)]
pub struct Backend {
    pub endpoints: Endpoints,
}

impl Backend {
    /// Resolves `input` against the chosen endpoint's base URL. The
    /// outcome is whatever `url::Url::join` makes of the two.
    pub fn join(&self, endpoint: Endpoint, input: &str) -> Result<url::Url, url::ParseError> {
        self.endpoints.get(endpoint).join(input)
    }
}

} // verus!
