//! Authentication strategies, and where each one places its credentials.
//!
//! The strategies act in two phases. An API key is a query parameter, so it
//! is resolved while the URL is built (`url_suffix`). The other three are
//! request headers, resolved when the request is decorated
//! (`request_header`). Each phase ignores the variants of the other.
use vstd::prelude::*;

verus! {

/// How a client authenticates against its server.
#[derive(Debug, Clone)]
pub enum AuthStrategy {
    /// HTTP Basic credentials in the `Authorization` header.
    Basic { username: String, password: String },
    /// A token sent as `Authorization: Bearer <token>`.
    BearerToken(String),
    /// A key sent as the query parameter `<param_name>=<key>`.
    ApiKey { param_name: String, key: String },
    /// A raw value for the `Cookie` header.
    Cookie(String),
}

/// Authentication of a feature-service client.
pub type WfsAuth = AuthStrategy;

/// Authentication of a map-tile client.
pub type WmsAuth = AuthStrategy;

/// A header that carries credentials, in plain values.
#[derive(Debug, Clone)]
pub enum AuthHeader {
    /// `Authorization: Basic ...` built from a user name and a password.
    Basic { username: String, password: String },
    /// `Authorization: Bearer <token>`.
    Bearer(String),
    /// `Cookie: <value>`.
    Cookie(String),
}

/// The model of an `AuthHeader`: which header, and the plain text it is built from.
pub enum AuthHeaderModel {
    Basic { username: Seq<char>, password: Seq<char> },
    Bearer(Seq<char>),
    Cookie(Seq<char>),
}

impl View for AuthHeader {
    type V = AuthHeaderModel;

    open spec fn view(&self) -> AuthHeaderModel {
        match self {
            AuthHeader::Basic { username, password } => AuthHeaderModel::Basic {
                username: username@,
                password: password@,
            },
            AuthHeader::Bearer(t) => AuthHeaderModel::Bearer(t@),
            AuthHeader::Cookie(c) => AuthHeaderModel::Cookie(c@),
        }
    }
}

/// The text that an optional strategy appends to a query string.
pub open spec fn query_suffix(auth: Option<AuthStrategy>) -> Seq<char> {
    match auth {
        Some(AuthStrategy::ApiKey { param_name, key }) => "&"@ + param_name@ + "="@ + key@,
        _ => Seq::empty(),
    }
}

/// The header that an optional strategy adds to a request.
pub open spec fn header_of(auth: Option<AuthStrategy>) -> Option<AuthHeaderModel> {
    match auth {
        Some(AuthStrategy::Basic { username, password }) => Some(
            AuthHeaderModel::Basic { username: username@, password: password@ },
        ),
        Some(AuthStrategy::BearerToken(t)) => Some(AuthHeaderModel::Bearer(t@)),
        Some(AuthStrategy::Cookie(c)) => Some(AuthHeaderModel::Cookie(c@)),
        _ => None,
    }
}

/// True when the strategy travels in a header rather than in the URL.
pub open spec fn is_header_auth(auth: AuthStrategy) -> bool {
    !(auth is ApiKey)
}

/// URL phase: appends the strategy's query parameter, if it has one, to `url`.
pub fn push_query_auth(url: &mut String, auth: &Option<AuthStrategy>)
    ensures
        final(url)@ == old(url)@ + query_suffix(*auth),
{
    if let Some(AuthStrategy::ApiKey { param_name, key }) = auth {
        url.append("&");
        url.append(param_name.as_str());
        url.append("=");
        url.append(key.as_str());
        assert(final(url)@ =~= old(url)@ + query_suffix(*auth));
    } else {
        assert(final(url)@ =~= old(url)@ + query_suffix(*auth));
    }
}

/// Request phase: the header that decorates the request, if the strategy
/// has one.
pub fn request_header(auth: &Option<AuthStrategy>) -> (r: Option<AuthHeader>)
    ensures
        match r {
            Some(h) => header_of(*auth) == Some(h@),
            None => header_of(*auth) is None,
        },
{
    match auth {
        Some(AuthStrategy::Basic { username, password }) => Some(
            AuthHeader::Basic { username: username.clone(), password: password.clone() },
        ),
        Some(AuthStrategy::BearerToken(t)) => Some(AuthHeader::Bearer(t.clone())),
        Some(AuthStrategy::Cookie(c)) => Some(AuthHeader::Cookie(c.clone())),
        _ => None,
    }
}

} // verus!
