//! Decoding a GeoJSON response body into geometries, one per feature.
use vstd::prelude::*;
use crate::http::{FetchError, is_success_status, status_error};
use geozero::ToGeoFeatures;

verus! {

/// The geometries decoded from one response body, one per feature, in the
/// order of the features. Verus cannot declare `geo_types::Geometry` (its
/// coordinate bound is a trait of that crate), so the list is held here,
/// whole, behind the count below.
#[verifier::external_body]
pub struct FeatureGeometries {
    pub geometries: Vec<geo_types::Geometry>,
}

/// How many geometries a `FeatureGeometries` holds.
pub uninterp spec fn geometry_count(g: FeatureGeometries) -> nat;

#[verifier::external_type_specification]
#[verifier::external_body]
pub struct ExGeozeroError(geozero::error::GeozeroError);

/// The number of features that geozero reads from a GeoJSON text, or `None`
/// where it refuses the text.
pub uninterp spec fn geojson_feature_count(body: Seq<char>) -> Option<nat>;

/// Relies on geozero's `ToGeoFeatures::to_geo_features` on a `GeoJsonString`:
/// the geometry of each feature of the text, in order. It parses the text
/// and nothing else, so the outcome is a function of the text.
#[verifier::external_body]
fn decode_features(body: &str) -> (r: Result<FeatureGeometries, geozero::error::GeozeroError>)
    ensures
        match r {
            Ok(g) => geojson_feature_count(body@) == Some(geometry_count(g)),
            Err(_) => geojson_feature_count(body@) is None,
        },
{
    let mut source = geozero::geojson::GeoJsonString(body.to_string());
    source.to_geo_features().map(|fs| FeatureGeometries { geometries: fs.map(|f| f.into_inner().0).collect() })
}

impl FeatureGeometries {
    /// Relies on `Vec::len`: the number of geometries held.
    #[verifier::external_body]
    pub(crate) fn len(&self) -> (r: usize)
        ensures
            r == geometry_count(*self),
    {
        self.geometries.len()
    }
}

/// The result of a feature fetch, given what decoding the body gave: the
/// geometries where there is at least one, else `DecodeFailed`.
pub fn features_from_decoded(
    decoded: Result<FeatureGeometries, geozero::error::GeozeroError>,
) -> (r: Result<FeatureGeometries, FetchError>)
    ensures
        match decoded {
            Ok(v) => if geometry_count(v) > 0 {
                r == Ok::<FeatureGeometries, FetchError>(v)
            } else {
                r == Err::<FeatureGeometries, FetchError>(FetchError::DecodeFailed)
            },
            Err(_) => r == Err::<FeatureGeometries, FetchError>(FetchError::DecodeFailed),
        },
{
    match decoded {
        Ok(v) => if v.len() > 0 {
            Ok(v)
        } else {
            Err(FetchError::DecodeFailed)
        },
        Err(_) => Err(FetchError::DecodeFailed),
    }
}

/// The result of a feature fetch, given the response's status and body.
/// A status outside [200, 300) gives `RequestFailed` with that status, and
/// the body is not read. Otherwise each feature of the GeoJSON body gives
/// one geometry, in order; a body that does not decode, or has no feature,
/// gives `DecodeFailed`.
pub fn features_from_response(status: u16, body: &str) -> (r: Result<
    FeatureGeometries,
    FetchError,
>)
    ensures
        !is_success_status(status) ==> r == Err::<FeatureGeometries, FetchError>(
            FetchError::RequestFailed { status },
        ),
        is_success_status(status) ==> match geojson_feature_count(body@) {
            Some(n) => if n > 0 {
                r is Ok && geometry_count(r->Ok_0) == n
            } else {
                r == Err::<FeatureGeometries, FetchError>(FetchError::DecodeFailed)
            },
            None => r == Err::<FeatureGeometries, FetchError>(FetchError::DecodeFailed),
        },
{
    if let Some(e) = status_error(status) {
        return Err(e);
    }
    features_from_decoded(decode_features(body))
}

} // verus!
