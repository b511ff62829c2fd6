//! Map-tile service (WMS GetMap) client: configuration, request
//! construction and response handling.
use vstd::prelude::*;
use crate::auth::{AuthStrategy, WmsAuth, query_suffix, header_of, push_query_auth, request_header};
use crate::http::{FetchError, HttpRequest, build_transport, header_view, is_success_status, status_error, transport_from_build};
use crate::text::{bool_text, decimal, push_bool, push_decimal};

verus! {

/// Protocol version sent when none is configured.
pub const DEFAULT_WMS_VERSION: &'static str = "1.3.0";

/// User-Agent of the transport.
pub const WMS_USER_AGENT: &'static str = "rust-wms-client/0.1.0";

/// The GetMap URL up to the transparency value.
pub open spec fn tile_url_head(
    base: Seq<char>,
    version: Seq<char>,
    layers: Seq<char>,
    bbox: Seq<char>,
    width: nat,
    height: nat,
    srs: Seq<char>,
    format: Seq<char>,
) -> Seq<char> {
    base + "?SERVICE=WMS&VERSION="@ + version + "&REQUEST=GetMap&LAYERS="@ + layers + "&BBOX="@
        + bbox + "&WIDTH="@ + decimal(width) + "&HEIGHT="@ + decimal(height) + "&CRS="@ + srs
        + "&FORMAT="@ + format + "&TRANSPARENT="@
}

/// The GetMap URL after the transparency value.
pub open spec fn tile_url_tail(auth: Option<AuthStrategy>) -> Seq<char> {
    "&styles=default"@ + query_suffix(auth)
}

/// The GetMap URL, parameters in this order: SERVICE, VERSION, REQUEST,
/// LAYERS, BBOX, WIDTH, HEIGHT, CRS, FORMAT, TRANSPARENT, styles, then an
/// API key where that is the strategy.
pub open spec fn tile_url(
    base: Seq<char>,
    version: Seq<char>,
    layers: Seq<char>,
    bbox: Seq<char>,
    width: nat,
    height: nat,
    srs: Seq<char>,
    format: Seq<char>,
    transparent: bool,
    auth: Option<AuthStrategy>,
) -> Seq<char> {
    tile_url_head(base, version, layers, bbox, width, height, srs, format) + bool_text(transparent)
        + tile_url_tail(auth)
}

/// Client of one map-tile service. Its endpoint, authentication and
/// protocol version are fixed at construction.
pub struct WmsClient {
    transport: reqwest::Client,
    agent: String,
    base_url: String,
    auth: Option<WmsAuth>,
    version: String,
}

impl WmsClient {
    /// The transport handle, as built.
    pub closed spec fn transport_spec(&self) -> reqwest::Client {
        self.transport
    }

    /// The User-Agent that the transport was built to send.
    pub closed spec fn agent_spec(&self) -> Seq<char> {
        self.agent@
    }

    /// The endpoint, as configured.
    pub closed spec fn base_spec(&self) -> Seq<char> {
        self.base_url@
    }

    /// The authentication strategy, as configured.
    pub closed spec fn auth_spec(&self) -> Option<AuthStrategy> {
        self.auth
    }

    /// The protocol version, as configured.
    pub closed spec fn version_spec(&self) -> Seq<char> {
        self.version@
    }

    /// A client of `base_url` with the default protocol version, whose
    /// transport sends `WMS_USER_AGENT`.
    pub fn new(base_url: &str, auth: Option<WmsAuth>) -> (r: Result<Self, FetchError>)
        ensures
            match r {
                Ok(c) => c.base_spec() == base_url@ && c.auth_spec() == auth && c.agent_spec()
                    == WMS_USER_AGENT@ && c.version_spec() == DEFAULT_WMS_VERSION@,
                Err(e) => e is TransportError,
            },
    {
        Self::with_version(base_url, auth, DEFAULT_WMS_VERSION)
    }

    /// A client of `base_url` that sends the given protocol version, whose
    /// transport sends `WMS_USER_AGENT`.
    pub fn with_version(base_url: &str, auth: Option<WmsAuth>, version: &str) -> (r: Result<
        Self,
        FetchError,
    >)
        ensures
            match r {
                Ok(c) => c.base_spec() == base_url@ && c.auth_spec() == auth && c.agent_spec()
                    == WMS_USER_AGENT@ && c.version_spec() == version@,
                Err(e) => e is TransportError,
            },
    {
        Self::from_build(build_transport(WMS_USER_AGENT), WMS_USER_AGENT, base_url, auth, version)
    }

    /// A client, given the outcome of building its transport to send
    /// `agent`: the client where the transport was built, else
    /// `TransportError`.
    pub fn from_build(
        built: Result<reqwest::Client, reqwest::Error>,
        agent: &str,
        base_url: &str,
        auth: Option<WmsAuth>,
        version: &str,
    ) -> (r: Result<Self, FetchError>)
        ensures
            built is Ok <==> r is Ok,
            r is Ok ==> r->Ok_0.transport_spec() == built->Ok_0 && r->Ok_0.agent_spec() == agent@
                && r->Ok_0.base_spec() == base_url@ && r->Ok_0.auth_spec() == auth
                && r->Ok_0.version_spec() == version@,
            r is Err ==> r->Err_0 is TransportError,
    {
        match transport_from_build(built) {
            Ok(transport) => Ok(WmsClient {
                transport,
                agent: String::from_str(agent),
                base_url: String::from_str(base_url),
                auth,
                version: String::from_str(version),
            }),
            Err(e) => Err(e),
        }
    }

    /// The User-Agent that the transport sends.
    pub fn agent(&self) -> (r: &str)
        ensures
            r@ == self.agent_spec(),
    {
        self.agent.as_str()
    }

    /// The endpoint.
    pub fn base_url(&self) -> (r: &str)
        ensures
            r@ == self.base_spec(),
    {
        self.base_url.as_str()
    }

    /// The authentication strategy.
    pub fn auth(&self) -> (r: &Option<WmsAuth>)
        ensures
            *r == self.auth_spec(),
    {
        &self.auth
    }

    /// The shared transport handle.
    pub fn transport(&self) -> &reqwest::Client {
        &self.transport
    }

    /// The GetMap URL of a tile query, API key included.
    pub fn tile_url(
        &self,
        layers: &str,
        bbox: &str,
        width: u32,
        height: u32,
        srs: &str,
        format: &str,
        transparent: bool,
    ) -> (r: String)
        ensures
            r@ == tile_url(
                self.base_spec(),
                self.version_spec(),
                layers@,
                bbox@,
                width as nat,
                height as nat,
                srs@,
                format@,
                transparent,
                self.auth_spec(),
            ),
    {
        let mut url = String::from_str(self.base_url.as_str());
        url.append("?SERVICE=WMS&VERSION=");
        url.append(self.version.as_str());
        url.append("&REQUEST=GetMap&LAYERS=");
        url.append(layers);
        url.append("&BBOX=");
        url.append(bbox);
        url.append("&WIDTH=");
        push_decimal(&mut url, width);
        url.append("&HEIGHT=");
        push_decimal(&mut url, height);
        url.append("&CRS=");
        url.append(srs);
        url.append("&FORMAT=");
        url.append(format);
        url.append("&TRANSPARENT=");
        assert(url@ =~= tile_url_head(
            self.base_spec(),
            self.version_spec(),
            layers@,
            bbox@,
            width as nat,
            height as nat,
            srs@,
            format@,
        ));
        push_bool(&mut url, transparent);
        url.append("&styles=default");
        push_query_auth(&mut url, &self.auth);
        assert(url@ =~= tile_url(
            self.base_spec(),
            self.version_spec(),
            layers@,
            bbox@,
            width as nat,
            height as nat,
            srs@,
            format@,
            transparent,
            self.auth_spec(),
        ));
        url
    }

    /// The outgoing request of a tile query: its URL as `tile_url` gives it,
    /// and the credential header of the strategy, if it has one.
    pub fn tile_request(
        &self,
        layers: &str,
        bbox: &str,
        width: u32,
        height: u32,
        srs: &str,
        format: &str,
        transparent: bool,
    ) -> (r: HttpRequest)
        ensures
            r.url@ == tile_url(
                self.base_spec(),
                self.version_spec(),
                layers@,
                bbox@,
                width as nat,
                height as nat,
                srs@,
                format@,
                transparent,
                self.auth_spec(),
            ),
            header_view(r.auth_header) == header_of(self.auth_spec()),
    {
        let url = self.tile_url(layers, bbox, width, height, srs, format, transparent);
        HttpRequest { url, auth_header: request_header(&self.auth) }
    }

    /// The result of a tile fetch from the response's status and body: the
    /// body, unread, in the success class; else `RequestFailed` with the
    /// status.
    pub fn tile_from_response(status: u16, body: Vec<u8>) -> (r: Result<Vec<u8>, FetchError>)
        ensures
            is_success_status(status) ==> r == Ok::<Vec<u8>, FetchError>(body),
            !is_success_status(status) ==> r == Err::<Vec<u8>, FetchError>(
                FetchError::RequestFailed { status },
            ),
    {
        match status_error(status) {
            Some(e) => Err(e),
            None => Ok(body),
        }
    }
}

} // verus!
