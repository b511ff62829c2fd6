//! Laws that relate the URL phase and the header phase of authentication,
//! and the URLs of related queries.
use vstd::prelude::*;
use crate::auth::{AuthStrategy, header_of, is_header_auth};
use crate::text::bool_text;
use crate::wfs::{bbox_param, feature_url};
use crate::wms::{tile_url, tile_url_head, tile_url_tail};

verus! {

/// An empty bounding box is sent as no bounding box at all: the feature URL
/// is the one of the query without a box.
pub proof fn empty_bbox_is_absent(
    base: Seq<char>,
    version: Seq<char>,
    crs: Seq<char>,
    layer: Seq<char>,
    count: Option<nat>,
    auth: Option<AuthStrategy>,
)
    ensures
        feature_url(base, version, crs, layer, Some(Seq::empty()), count, auth) == feature_url(
            base,
            version,
            crs,
            layer,
            None,
            count,
            auth,
        ),
{
    assert(bbox_param(Some(Seq::empty())) == bbox_param(None));
}

/// An API key travels in the feature query string and never in a header:
/// the request carries no credential header, and its URL is the URL without
/// authentication followed by `&<param_name>=<key>`, whatever the other
/// parameters.
pub proof fn api_key_only_in_feature_url(
    base: Seq<char>,
    version: Seq<char>,
    crs: Seq<char>,
    layer: Seq<char>,
    bbox: Option<Seq<char>>,
    count: Option<nat>,
    param_name: String,
    key: String,
)
    ensures
        header_of(Some(AuthStrategy::ApiKey { param_name, key })) is None,
        feature_url(
            base,
            version,
            crs,
            layer,
            bbox,
            count,
            Some(AuthStrategy::ApiKey { param_name, key }),
        ) == feature_url(base, version, crs, layer, bbox, count, None) + "&"@ + param_name@ + "="@
            + key@,
{
    let a = Some(AuthStrategy::ApiKey { param_name, key });
    assert(feature_url(base, version, crs, layer, bbox, count, a) =~= feature_url(
        base,
        version,
        crs,
        layer,
        bbox,
        count,
        None,
    ) + "&"@ + param_name@ + "="@ + key@);
}

/// An API key travels in the tile query string and never in a header.
pub proof fn api_key_only_in_tile_url(
    base: Seq<char>,
    version: Seq<char>,
    layers: Seq<char>,
    bbox: Seq<char>,
    width: nat,
    height: nat,
    srs: Seq<char>,
    format: Seq<char>,
    transparent: bool,
    param_name: String,
    key: String,
)
    ensures
        header_of(Some(AuthStrategy::ApiKey { param_name, key })) is None,
        tile_url(
            base,
            version,
            layers,
            bbox,
            width,
            height,
            srs,
            format,
            transparent,
            Some(AuthStrategy::ApiKey { param_name, key }),
        ) == tile_url(base, version, layers, bbox, width, height, srs, format, transparent, None)
            + "&"@ + param_name@ + "="@ + key@,
{
    let a = Some(AuthStrategy::ApiKey { param_name, key });
    assert(tile_url(base, version, layers, bbox, width, height, srs, format, transparent, a)
        =~= tile_url(base, version, layers, bbox, width, height, srs, format, transparent, None)
        + "&"@ + param_name@ + "="@ + key@);
}

/// Basic, bearer and cookie credentials travel in a header and leave the
/// feature URL as it is without authentication.
pub proof fn header_auth_leaves_feature_url(
    base: Seq<char>,
    version: Seq<char>,
    crs: Seq<char>,
    layer: Seq<char>,
    bbox: Option<Seq<char>>,
    count: Option<nat>,
    auth: AuthStrategy,
)
    requires
        is_header_auth(auth),
    ensures
        header_of(Some(auth)) is Some,
        feature_url(base, version, crs, layer, bbox, count, Some(auth)) == feature_url(
            base,
            version,
            crs,
            layer,
            bbox,
            count,
            None,
        ),
{
}

/// Basic, bearer and cookie credentials travel in a header and leave the
/// tile URL as it is without authentication.
pub proof fn header_auth_leaves_tile_url(
    base: Seq<char>,
    version: Seq<char>,
    layers: Seq<char>,
    bbox: Seq<char>,
    width: nat,
    height: nat,
    srs: Seq<char>,
    format: Seq<char>,
    transparent: bool,
    auth: AuthStrategy,
)
    requires
        is_header_auth(auth),
    ensures
        header_of(Some(auth)) is Some,
        tile_url(base, version, layers, bbox, width, height, srs, format, transparent, Some(auth))
            == tile_url(base, version, layers, bbox, width, height, srs, format, transparent, None),
{
}

/// The tile URLs with and without transparency share everything but the
/// TRANSPARENT value: both are one head, then `false` or `true`, then one
/// tail.
pub proof fn transparency_changes_only_its_value(
    base: Seq<char>,
    version: Seq<char>,
    layers: Seq<char>,
    bbox: Seq<char>,
    width: nat,
    height: nat,
    srs: Seq<char>,
    format: Seq<char>,
    auth: Option<AuthStrategy>,
)
    ensures
        tile_url(base, version, layers, bbox, width, height, srs, format, false, auth) == tile_url_head(
            base,
            version,
            layers,
            bbox,
            width,
            height,
            srs,
            format,
        ) + "false"@ + tile_url_tail(auth),
        tile_url(base, version, layers, bbox, width, height, srs, format, true, auth) == tile_url_head(
            base,
            version,
            layers,
            bbox,
            width,
            height,
            srs,
            format,
        ) + "true"@ + tile_url_tail(auth),
{
    assert(bool_text(false) == "false"@);
    assert(bool_text(true) == "true"@);
}

} // verus!
