//! The client: its credential, its region and the builder that makes it.
use crate::text::str_eq;
use reqwest::Client as HttpClient;
use vstd::prelude::*;
use vstd::string::*;

verus! {

#[verifier::external_type_specification]
#[verifier::external_body]
pub struct ExHttpClient(HttpClient);

/// `Clone` of `reqwest::Client`: another handle to the same transport.
/// Nothing is claimed of it.
pub assume_specification[ <HttpClient as Clone>::clone ](client: &HttpClient) -> (res: HttpClient);

/// Credential for authenticating with Tencent Cloud.
///
/// - `secret_id` and `secret_key` are required
/// - Optional session `token` is sent as `X-TC-Token`
pub struct Credential {
    pub secret_id: String,
    pub secret_key: String,
    pub token: Option<String>,
}

impl Clone for Credential {
    fn clone(&self) -> (res: Self)
        ensures
            res == *self,
    {
        Credential {
            secret_id: self.secret_id.clone(),
            secret_key: self.secret_key.clone(),
            token: match &self.token {
                Some(token) => Some(token.clone()),
                None => None,
            },
        }
    }
}

/// Supported regions. `Region::Custom` carries any other region name; a
/// region that is used has a name that is not empty.
#[derive(Debug)]
pub enum Region {
    ApBeijing,
    ApGuangzhou,
    Custom(String),
}

impl Clone for Region {
    fn clone(&self) -> (res: Self)
        ensures
            res == *self,
    {
        match self {
            Region::ApBeijing => Region::ApBeijing,
            Region::ApGuangzhou => Region::ApGuangzhou,
            Region::Custom(s) => Region::Custom(s.clone()),
        }
    }
}

impl Region {
    /// True if the region has a name: a listed region always has one, a
    /// custom region where the text it carries is not empty.
    pub open spec fn is_named(&self) -> bool {
        self matches Region::Custom(s) ==> s@.len() > 0
    }

    /// The region name as it is sent on the wire.
    pub open spec fn name(&self) -> Seq<char> {
        match self {
            Region::ApBeijing => "ap-beijing"@,
            Region::ApGuangzhou => "ap-guangzhou"@,
            Region::Custom(s) => s@,
        }
    }

    /// True if the region has a name.
    pub fn has_name(&self) -> (res: bool)
        ensures
            res == self.is_named(),
    {
        match self {
            Region::Custom(s) => !s.as_str().is_empty(),
            _ => true,
        }
    }

    /// Returns the name of a region that has one, as `&str`. The name is
    /// never empty; that of a custom region is the text it carries.
    pub fn as_str(&self) -> (res: &str)
        requires
            self.is_named(),
        ensures
            res@ == self.name(),
            res@.len() > 0,
    {
        proof {
            reveal_strlit("ap-beijing");
            reveal_strlit("ap-guangzhou");
        }
        match self {
            Region::ApBeijing => "ap-beijing",
            Region::ApGuangzhou => "ap-guangzhou",
            Region::Custom(s) => s.as_str(),
        }
    }
}

/// What a [`Client`] is made of.
pub ghost struct ClientView {
    pub http: HttpClient,
    pub credential: Credential,
    pub region: Region,
    pub endpoint: Seq<char>,
    pub debug: bool,
}

/// Client for calling Hunyuan API actions.
///
/// Construct using [`ClientBuilder`].
pub struct Client {
    http: HttpClient,
    credential: Credential,
    region: Region,
    endpoint: String,
    debug: bool,
}

impl Clone for Client {
    /// The clone is another handle to the same transport, with the same
    /// credential, region, endpoint and debug flag.
    fn clone(&self) -> (res: Self)
        ensures
            res@.credential == self@.credential,
            res@.region == self@.region,
            res@.endpoint == self@.endpoint,
            res@.debug == self@.debug,
    {
        proof {
            use_type_invariant(self);
        }
        Client {
            http: self.http.clone(),
            credential: self.credential.clone(),
            region: self.region.clone(),
            endpoint: self.endpoint.clone(),
            debug: self.debug,
        }
    }
}

impl Client {
    /// The region of a client has a name.
    #[verifier::type_invariant]
    spec fn region_is_named(self) -> bool {
        self.region.is_named()
    }
}

impl View for Client {
    type V = ClientView;

    closed spec fn view(&self) -> ClientView {
        ClientView {
            http: self.http,
            credential: self.credential,
            region: self.region,
            endpoint: self.endpoint@,
            debug: self.debug,
        }
    }
}

/// The slots of a [`ClientBuilder`], each empty until it is set.
pub ghost struct ClientBuilderView {
    pub http: Option<HttpClient>,
    pub credential: Option<Credential>,
    pub region: Option<Region>,
    pub endpoint: Option<Seq<char>>,
    pub debug: Option<bool>,
}

/// Builder for [`Client`].
pub struct ClientBuilder {
    http: Option<HttpClient>,
    credential: Option<Credential>,
    region: Option<Region>,
    endpoint: Option<String>,
    debug: Option<bool>,
}

impl ClientBuilder {
    /// The region of a builder, once set, has a name.
    #[verifier::type_invariant]
    spec fn region_is_named(self) -> bool {
        self.region matches Some(region) ==> region.is_named()
    }
}

impl View for ClientBuilder {
    type V = ClientBuilderView;

    closed spec fn view(&self) -> ClientBuilderView {
        ClientBuilderView {
            http: self.http,
            credential: self.credential,
            region: self.region,
            endpoint: match self.endpoint {
                Some(e) => Some(e@),
                None => None,
            },
            debug: self.debug,
        }
    }
}

/// A builder with every slot empty.
pub open spec fn empty_builder() -> ClientBuilderView {
    ClientBuilderView { http: None, credential: None, region: None, endpoint: None, debug: None }
}

impl Default for ClientBuilder {
    fn default() -> (res: Self)
        ensures
            res@ == empty_builder(),
    {
        Self { http: None, credential: None, region: None, endpoint: None, debug: None }
    }
}

/// The text of an optional string slice.
pub open spec fn option_text(value: Option<&str>) -> Option<Seq<char>> {
    match value {
        Some(v) => Some(v@),
        None => None,
    }
}

/// True if the value of the debug switch of the environment turns debug
/// logging on: `1`, `true`, `TRUE`, `on` or `ON`.
pub open spec fn debug_flag_on(value: Option<Seq<char>>) -> bool {
    value matches Some(v) && (v == "1"@ || v == "true"@ || v == "TRUE"@ || v == "on"@ || v
        == "ON"@)
}

/// Reads the value of the debug switch of the environment, absent if the
/// variable is not set.
pub fn env_debug_enabled(value: Option<&str>) -> (res: bool)
    ensures
        res == debug_flag_on(option_text(value)),
{
    match value {
        Some(v) => str_eq(v, "1") || str_eq(v, "true") || str_eq(v, "TRUE") || str_eq(v, "on")
            || str_eq(v, "ON"),
        None => false,
    }
}

/// The client that a builder makes, given the transport to fall back on,
/// if one is at hand, and the value of the debug switch of the environment.
pub open spec fn built_client(
    builder: ClientBuilderView,
    default_http: Option<HttpClient>,
    env_debug: Option<Seq<char>>,
) -> ClientView {
    ClientView {
        http: match builder.http {
            Some(http) => http,
            None => default_http->0,
        },
        credential: builder.credential->0,
        region: match builder.region {
            Some(region) => region,
            None => Region::ApGuangzhou,
        },
        endpoint: match builder.endpoint {
            Some(endpoint) => endpoint,
            None => "hunyuan"@ + ".tencentcloudapi.com"@,
        },
        debug: match builder.debug {
            Some(debug) => debug,
            None => debug_flag_on(env_debug),
        },
    }
}

impl ClientBuilder {
    /// Creates a new builder.
    pub fn new() -> (res: Self)
        ensures
            res@ == empty_builder(),
    {
        Self { http: None, credential: None, region: None, endpoint: None, debug: None }
    }

    /// Set a custom `reqwest` HTTP client.
    pub fn http(self, http: HttpClient) -> (res: Self)
        ensures
            res@ == (ClientBuilderView { http: Some(http), ..self@ }),
    {
        proof {
            use_type_invariant(&self);
        }
        Self {
            http: Some(http),
            credential: self.credential,
            region: self.region,
            endpoint: self.endpoint,
            debug: self.debug,
        }
    }

    /// Set credentials (required).
    pub fn credential(self, credential: Credential) -> (res: Self)
        ensures
            res@ == (ClientBuilderView { credential: Some(credential), ..self@ }),
    {
        proof {
            use_type_invariant(&self);
        }
        Self {
            http: self.http,
            credential: Some(credential),
            region: self.region,
            endpoint: self.endpoint,
            debug: self.debug,
        }
    }

    /// Set target region (defaults to `ApGuangzhou`). The region must have
    /// a name.
    pub fn region(self, region: Region) -> (res: Self)
        requires
            region.is_named(),
        ensures
            res@ == (ClientBuilderView { region: Some(region), ..self@ }),
    {
        Self {
            http: self.http,
            credential: self.credential,
            region: Some(region),
            endpoint: self.endpoint,
            debug: self.debug,
        }
    }

    /// Override the API endpoint (defaults to `hunyuan.tencentcloudapi.com`).
    pub fn endpoint(self, endpoint: &str) -> (res: Self)
        ensures
            res@ == (ClientBuilderView { endpoint: Some(endpoint@), ..self@ }),
    {
        proof {
            use_type_invariant(&self);
        }
        Self {
            http: self.http,
            credential: self.credential,
            region: self.region,
            endpoint: Some(String::from_str(endpoint)),
            debug: self.debug,
        }
    }

    /// Enable or disable debug logs. An explicit setting takes precedence
    /// over the debug switch of the environment.
    pub fn debug(self, debug: bool) -> (res: Self)
        ensures
            res@ == (ClientBuilderView { debug: Some(debug), ..self@ }),
    {
        proof {
            use_type_invariant(&self);
        }
        Self {
            http: self.http,
            credential: self.credential,
            region: self.region,
            endpoint: self.endpoint,
            debug: Some(debug),
        }
    }

    /// True if a transport was set.
    pub fn has_http(&self) -> (res: bool)
        ensures
            res == self@.http is Some,
    {
        self.http.is_some()
    }

    /// True if credentials were set.
    pub fn has_credential(&self) -> (res: bool)
        ensures
            res == self@.credential is Some,
    {
        self.credential.is_some()
    }

    /// True if a region was set.
    pub fn has_region(&self) -> (res: bool)
        ensures
            res == self@.region is Some,
    {
        self.region.is_some()
    }

    /// True if an endpoint was set.
    pub fn has_endpoint(&self) -> (res: bool)
        ensures
            res == self@.endpoint is Some,
    {
        self.endpoint.is_some()
    }

    /// True if the debug flag was set.
    pub fn has_debug(&self) -> (res: bool)
        ensures
            res == self@.debug is Some,
    {
        self.debug.is_some()
    }

    /// Build the [`Client`]. Credentials must have been provided.
    ///
    /// `default_http` is the transport of a client for which none was set:
    /// it must be at hand where the builder holds none. `env_debug` is the
    /// value of the debug switch of the environment, which decides where the
    /// debug flag was not set.
    pub fn build(self, default_http: Option<HttpClient>, env_debug: Option<&str>) -> (client:
        Client)
        requires
            self@.credential is Some,
            self@.http is Some || default_http is Some,
        ensures
            client@ == built_client(self@, default_http, option_text(env_debug)),
            client@.region.is_named(),
    {
        proof {
            use_type_invariant(&self);
        }
        let http = match self.http {
            Some(http) => http,
            None => default_http.unwrap(),
        };
        let region = match self.region {
            Some(region) => region,
            None => Region::ApGuangzhou,
        };
        let endpoint = match self.endpoint {
            Some(endpoint) => endpoint,
            None => String::from_str("hunyuan").concat(".tencentcloudapi.com"),
        };
        let credential = self.credential.unwrap();
        let debug = match self.debug {
            Some(debug) => debug,
            None => env_debug_enabled(env_debug),
        };
        Client { http, credential, region, endpoint, debug }
    }
}

impl Client {
    /// Returns a new [`ClientBuilder`].
    pub fn builder() -> (res: ClientBuilder)
        ensures
            res@ == empty_builder(),
    {
        ClientBuilder::new()
    }

    /// The transport.
    pub fn http(&self) -> (res: &HttpClient)
        ensures
            *res == self@.http,
    {
        &self.http
    }

    /// The credential.
    pub fn credential(&self) -> (res: &Credential)
        ensures
            *res == self@.credential,
    {
        &self.credential
    }

    /// The region. It has a name.
    pub fn region(&self) -> (res: &Region)
        ensures
            *res == self@.region,
            res.is_named(),
    {
        proof {
            use_type_invariant(self);
        }
        &self.region
    }

    /// The endpoint: the host that requests are sent to.
    pub fn endpoint(&self) -> (res: &str)
        ensures
            res@ == self@.endpoint,
    {
        self.endpoint.as_str()
    }

    /// True if debug logging is on.
    pub fn debug(&self) -> (res: bool)
        ensures
            res == self@.debug,
    {
        self.debug
    }
}

} // verus!
