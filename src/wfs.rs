//! Feature-service (WFS GetFeature) client: configuration, request
//! construction and response handling.
use vstd::prelude::*;
use crate::auth::{AuthStrategy, WfsAuth, query_suffix, header_of, push_query_auth, request_header};
use crate::http::{FetchError, HttpRequest, build_transport, header_view, transport_from_build};
use crate::text::{decimal, push_decimal};

verus! {

/// Protocol version sent when none is configured.
pub const DEFAULT_WFS_VERSION: &'static str = "2.0.0";

/// Coordinate reference system requested when none is configured.
pub const DEFAULT_CRS: &'static str = "EPSG:25832";

/// User-Agent of the transport.
pub const WFS_USER_AGENT: &'static str = "rust-wfs-client/0.1.0";

/// The view of an optional text argument.
pub open spec fn opt_text(o: Option<&str>) -> Option<Seq<char>> {
    match o {
        Some(s) => Some(s@),
        None => None,
    }
}

/// The bounding-box parameter: absent when no box, or an empty one, is given.
pub open spec fn bbox_param(bbox: Option<Seq<char>>) -> Seq<char> {
    match bbox {
        Some(b) => if b.len() > 0 {
            "&bbox="@ + b
        } else {
            Seq::empty()
        },
        None => Seq::empty(),
    }
}

/// The feature-count parameter: absent when no count is given.
pub open spec fn count_param(count: Option<nat>) -> Seq<char> {
    match count {
        Some(n) => "&count="@ + decimal(n),
        None => Seq::empty(),
    }
}

/// The GetFeature URL, parameters in this order: service, version, request,
/// typeName, outputFormat, srsname, then bbox and count where given, then
/// an API key where that is the strategy.
pub open spec fn feature_url(
    base: Seq<char>,
    version: Seq<char>,
    crs: Seq<char>,
    layer: Seq<char>,
    bbox: Option<Seq<char>>,
    count: Option<nat>,
    auth: Option<AuthStrategy>,
) -> Seq<char> {
    base + "?service=WFS&version="@ + version + "&request=GetFeature&typeName="@ + layer
        + "&outputFormat=GEOJSON&srsname="@ + crs + bbox_param(bbox) + count_param(count)
        + query_suffix(auth)
}

/// A feature query is refused when the layer is empty or the count is zero.
pub open spec fn feature_query_valid(layer: Seq<char>, count: Option<u32>) -> bool {
    layer.len() > 0 && count != Some(0u32)
}

/// The view of an optional feature count.
pub open spec fn opt_count(count: Option<u32>) -> Option<nat> {
    match count {
        Some(n) => Some(n as nat),
        None => None,
    }
}

/// Client of one feature service. Its endpoint, authentication, protocol
/// version and reference system are fixed at construction.
pub struct WfsClient {
    transport: reqwest::Client,
    agent: String,
    base_url: String,
    auth: Option<WfsAuth>,
    version: String,
    crs: String,
}

impl WfsClient {
    /// The transport handle, as built.
    pub closed spec fn transport_spec(&self) -> reqwest::Client {
        self.transport
    }

    /// The User-Agent that the transport was built to send.
    pub closed spec fn agent_spec(&self) -> Seq<char> {
        self.agent@
    }

    /// The endpoint, as configured.
    pub closed spec fn base_spec(&self) -> Seq<char> {
        self.base_url@
    }

    /// The authentication strategy, as configured.
    pub closed spec fn auth_spec(&self) -> Option<AuthStrategy> {
        self.auth
    }

    /// The protocol version, as configured.
    pub closed spec fn version_spec(&self) -> Seq<char> {
        self.version@
    }

    /// The reference system, as configured.
    pub closed spec fn crs_spec(&self) -> Seq<char> {
        self.crs@
    }

    /// A client of `base_url` with the default version and reference
    /// system, whose transport sends `WFS_USER_AGENT`.
    pub fn new(base_url: &str, auth: Option<WfsAuth>) -> (r: Result<Self, FetchError>)
        ensures
            match r {
                Ok(c) => c.base_spec() == base_url@ && c.auth_spec() == auth && c.agent_spec()
                    == WFS_USER_AGENT@ && c.version_spec() == DEFAULT_WFS_VERSION@ && c.crs_spec()
                    == DEFAULT_CRS@,
                Err(e) => e is TransportError,
            },
    {
        Self::with_settings(base_url, auth, DEFAULT_WFS_VERSION, DEFAULT_CRS)
    }

    /// A client of `base_url` that sends the given version and reference
    /// system, whose transport sends `WFS_USER_AGENT`.
    pub fn with_settings(base_url: &str, auth: Option<WfsAuth>, version: &str, crs: &str) -> (r:
        Result<Self, FetchError>)
        ensures
            match r {
                Ok(c) => c.base_spec() == base_url@ && c.auth_spec() == auth && c.agent_spec()
                    == WFS_USER_AGENT@ && c.version_spec() == version@ && c.crs_spec() == crs@,
                Err(e) => e is TransportError,
            },
    {
        Self::from_build(build_transport(WFS_USER_AGENT), WFS_USER_AGENT, base_url, auth, version, crs)
    }

    /// A client, given the outcome of building its transport to send
    /// `agent`: the client where the transport was built, else
    /// `TransportError`.
    pub fn from_build(
        built: Result<reqwest::Client, reqwest::Error>,
        agent: &str,
        base_url: &str,
        auth: Option<WfsAuth>,
        version: &str,
        crs: &str,
    ) -> (r: Result<Self, FetchError>)
        ensures
            built is Ok <==> r is Ok,
            r is Ok ==> r->Ok_0.transport_spec() == built->Ok_0 && r->Ok_0.agent_spec() == agent@
                && r->Ok_0.base_spec() == base_url@ && r->Ok_0.auth_spec() == auth
                && r->Ok_0.version_spec() == version@ && r->Ok_0.crs_spec() == crs@,
            r is Err ==> r->Err_0 is TransportError,
    {
        match transport_from_build(built) {
            Ok(transport) => Ok(WfsClient {
                transport,
                agent: String::from_str(agent),
                base_url: String::from_str(base_url),
                auth,
                version: String::from_str(version),
                crs: String::from_str(crs),
            }),
            Err(e) => Err(e),
        }
    }

    /// The User-Agent that the transport sends.
    pub fn agent(&self) -> (r: &str)
        ensures
            r@ == self.agent_spec(),
    {
        self.agent.as_str()
    }

    /// The endpoint.
    pub fn base_url(&self) -> (r: &str)
        ensures
            r@ == self.base_spec(),
    {
        self.base_url.as_str()
    }

    /// The reference system requested.
    pub fn crs(&self) -> (r: &str)
        ensures
            r@ == self.crs_spec(),
    {
        self.crs.as_str()
    }

    /// The authentication strategy.
    pub fn auth(&self) -> (r: &Option<WfsAuth>)
        ensures
            *r == self.auth_spec(),
    {
        &self.auth
    }

    /// The shared transport handle.
    pub fn transport(&self) -> &reqwest::Client {
        &self.transport
    }

    /// The GetFeature URL of a query, API key included; `InvalidQuery` for
    /// an empty layer or a zero count.
    pub fn feature_url(&self, layer_name: &str, bbox: Option<&str>, max_features: Option<u32>) -> (r:
        Result<String, FetchError>)
        ensures
            feature_query_valid(layer_name@, max_features) ==> r is Ok && r->Ok_0@ == feature_url(
                self.base_spec(),
                self.version_spec(),
                self.crs_spec(),
                layer_name@,
                opt_text(bbox),
                opt_count(max_features),
                self.auth_spec(),
            ),
            !feature_query_valid(layer_name@, max_features) ==> r == Err::<String, FetchError>(
                FetchError::InvalidQuery,
            ),
    {
        if layer_name.unicode_len() == 0 {
            return Err(FetchError::InvalidQuery);
        }
        if let Some(0u32) = max_features {
            return Err(FetchError::InvalidQuery);
        }
        let mut url = String::from_str(self.base_url.as_str());
        url.append("?service=WFS&version=");
        url.append(self.version.as_str());
        url.append("&request=GetFeature&typeName=");
        url.append(layer_name);
        url.append("&outputFormat=GEOJSON&srsname=");
        url.append(self.crs.as_str());
        let ghost fixed = url@;
        if let Some(b) = bbox {
            if b.unicode_len() > 0 {
                url.append("&bbox=");
                url.append(b);
            }
        }
        assert(url@ =~= fixed + bbox_param(opt_text(bbox)));
        let ghost with_bbox = url@;
        if let Some(max) = max_features {
            url.append("&count=");
            push_decimal(&mut url, max);
        }
        assert(url@ =~= with_bbox + count_param(opt_count(max_features)));
        push_query_auth(&mut url, &self.auth);
        assert(url@ =~= feature_url(
            self.base_spec(),
            self.version_spec(),
            self.crs_spec(),
            layer_name@,
            opt_text(bbox),
            opt_count(max_features),
            self.auth_spec(),
        ));
        Ok(url)
    }

    /// The outgoing request of a query: its URL as `feature_url` gives it,
    /// and the credential header of the strategy, if it has one.
    pub fn feature_request(&self, layer_name: &str, bbox: Option<&str>, max_features: Option<u32>) -> (r:
        Result<HttpRequest, FetchError>)
        ensures
            feature_query_valid(layer_name@, max_features) ==> r is Ok && r->Ok_0.url@ == feature_url(
                self.base_spec(),
                self.version_spec(),
                self.crs_spec(),
                layer_name@,
                opt_text(bbox),
                opt_count(max_features),
                self.auth_spec(),
            ) && header_view(r->Ok_0.auth_header) == header_of(self.auth_spec()),
            !feature_query_valid(layer_name@, max_features) ==> r is Err && r->Err_0
                == FetchError::InvalidQuery,
    {
        let url = self.feature_url(layer_name, bbox, max_features)?;
        Ok(HttpRequest { url, auth_header: request_header(&self.auth) })
    }
}

} // verus!
