use ogc_client::auth::{AuthHeader, AuthStrategy};
use ogc_client::http::{is_success, status_error, FetchError};
use ogc_client::text::{push_bool, push_decimal};
use ogc_client::wfs::WfsClient;
use ogc_client::wms::WmsClient;

const WFS_BASE: &str = "https://example.org/wfs";
const WMS_BASE: &str = "https://example.org/wms";

fn wfs(auth: Option<AuthStrategy>) -> WfsClient {
    WfsClient::new(WFS_BASE, auth).expect("transport")
}

fn wms(auth: Option<AuthStrategy>) -> WmsClient {
    WmsClient::new(WMS_BASE, auth).expect("transport")
}

fn api_key() -> AuthStrategy {
    AuthStrategy::ApiKey { param_name: "apikey".to_string(), key: "abc123".to_string() }
}

#[test]
fn feature_url_with_all_parameters() {
    let url = wfs(None).feature_url("roads", Some("1,2,3,4"), Some(10)).unwrap();
    assert_eq!(
        url,
        "https://example.org/wfs?service=WFS&version=2.0.0&request=GetFeature&typeName=roads&outputFormat=GEOJSON&srsname=EPSG:25832&bbox=1,2,3,4&count=10"
    );
}

#[test]
fn feature_url_without_optional_parameters() {
    let url = wfs(None).feature_url("roads", None, None).unwrap();
    assert_eq!(
        url,
        "https://example.org/wfs?service=WFS&version=2.0.0&request=GetFeature&typeName=roads&outputFormat=GEOJSON&srsname=EPSG:25832"
    );
}

#[test]
fn feature_url_empty_bbox_is_omitted() {
    let c = wfs(None);
    assert_eq!(c.feature_url("roads", Some(""), None), c.feature_url("roads", None, None));
}

#[test]
fn feature_url_count_only() {
    let url = wfs(None).feature_url("roads", None, Some(4294967295)).unwrap();
    assert!(url.ends_with("&srsname=EPSG:25832&count=4294967295"));
    assert!(!url.contains("bbox"));
}

#[test]
fn feature_url_zero_count_is_refused() {
    assert_eq!(wfs(None).feature_url("roads", None, Some(0)), Err(FetchError::InvalidQuery));
    assert!(matches!(wfs(None).feature_request("roads", Some("1,2,3,4"), Some(0)), Err(FetchError::InvalidQuery)));
}

#[test]
fn feature_url_empty_layer_is_refused() {
    assert_eq!(wfs(None).feature_url("", None, Some(5)), Err(FetchError::InvalidQuery));
}

#[test]
fn feature_url_uses_configured_crs_and_version() {
    let c = WfsClient::with_settings(WFS_BASE, None, "1.1.0", "EPSG:4326").unwrap();
    assert_eq!(c.crs(), "EPSG:4326");
    assert_eq!(c.base_url(), WFS_BASE);
    let url = c.feature_url("roads", None, None).unwrap();
    assert_eq!(
        url,
        "https://example.org/wfs?service=WFS&version=1.1.0&request=GetFeature&typeName=roads&outputFormat=GEOJSON&srsname=EPSG:4326"
    );
}

#[test]
fn api_key_goes_into_feature_url_only() {
    let req = wfs(Some(api_key())).feature_request("roads", Some("1,2,3,4"), Some(3)).unwrap();
    assert_eq!(
        req.url,
        "https://example.org/wfs?service=WFS&version=2.0.0&request=GetFeature&typeName=roads&outputFormat=GEOJSON&srsname=EPSG:25832&bbox=1,2,3,4&count=3&apikey=abc123"
    );
    assert!(req.auth_header.is_none());
}

#[test]
fn api_key_goes_into_tile_url_only() {
    let req = wms(Some(api_key())).tile_request("a", "0,0,1,1", 256, 256, "EPSG:3857", "image/png", false);
    assert!(req.url.ends_with("&styles=default&apikey=abc123"));
    assert!(req.auth_header.is_none());
}

#[test]
fn basic_auth_is_a_header() {
    let auth = AuthStrategy::Basic { username: "user".to_string(), password: "pw".to_string() };
    let plain = wfs(None).feature_request("roads", None, None).unwrap();
    let req = wfs(Some(auth)).feature_request("roads", None, None).unwrap();
    assert_eq!(req.url, plain.url);
    match req.auth_header {
        Some(AuthHeader::Basic { username, password }) => {
            assert_eq!(username, "user");
            assert_eq!(password, "pw");
        }
        other => panic!("unexpected header {:?}", other),
    }
}

#[test]
fn bearer_auth_is_a_header() {
    let req = wms(Some(AuthStrategy::BearerToken("tok".to_string())))
        .tile_request("a", "0,0,1,1", 10, 20, "EPSG:3857", "image/png", true);
    let plain = wms(None).tile_request("a", "0,0,1,1", 10, 20, "EPSG:3857", "image/png", true);
    assert_eq!(req.url, plain.url);
    assert!(matches!(req.auth_header, Some(AuthHeader::Bearer(ref t)) if t == "tok"));
}

#[test]
fn cookie_auth_is_a_header() {
    let req = wfs(Some(AuthStrategy::Cookie("session=1".to_string())))
        .feature_request("roads", None, Some(1))
        .unwrap();
    assert!(!req.url.contains("session"));
    assert!(matches!(req.auth_header, Some(AuthHeader::Cookie(ref c)) if c == "session=1"));
}

#[test]
fn no_auth_no_header() {
    assert!(wfs(None).feature_request("roads", None, None).unwrap().auth_header.is_none());
}

#[test]
fn tile_url_exact() {
    let url = wms(None).tile_url(
        "Temperatur",
        "645945.1,5720831.6,747959.0,5796011.4",
        1024,
        768,
        "EPSG:25832",
        "image/png",
        true,
    );
    assert_eq!(
        url,
        "https://example.org/wms?SERVICE=WMS&VERSION=1.3.0&REQUEST=GetMap&LAYERS=Temperatur&BBOX=645945.1,5720831.6,747959.0,5796011.4&WIDTH=1024&HEIGHT=768&CRS=EPSG:25832&FORMAT=image/png&TRANSPARENT=true&styles=default"
    );
}

#[test]
fn tile_url_with_version() {
    let c = WmsClient::with_version(WMS_BASE, None, "1.1.1").unwrap();
    assert_eq!(c.base_url(), WMS_BASE);
    let url = c.tile_url("a", "b", 0, 1, "c", "d", false);
    assert_eq!(
        url,
        "https://example.org/wms?SERVICE=WMS&VERSION=1.1.1&REQUEST=GetMap&LAYERS=a&BBOX=b&WIDTH=0&HEIGHT=1&CRS=c&FORMAT=d&TRANSPARENT=false&styles=default"
    );
}

#[test]
fn tile_urls_differ_only_in_transparency() {
    let c = wms(Some(api_key()));
    let f = c.tile_url("a", "0,0,1,1", 256, 128, "EPSG:3857", "image/png", false);
    let t = c.tile_url("a", "0,0,1,1", 256, 128, "EPSG:3857", "image/png", true);
    assert_eq!(f.replace("TRANSPARENT=false", "TRANSPARENT=true"), t);
    assert_ne!(f, t);
}

#[test]
fn tile_success_returns_body() {
    let body = vec![0x89u8, b'P', b'N', b'G', 0, 255];
    assert_eq!(WmsClient::tile_from_response(200, body.clone()), Ok(body.clone()));
    assert_eq!(WmsClient::tile_from_response(299, body.clone()), Ok(body));
}

#[test]
fn tile_failure_carries_status() {
    assert_eq!(WmsClient::tile_from_response(404, vec![1, 2, 3]), Err(FetchError::RequestFailed { status: 404 }));
    assert_eq!(WmsClient::tile_from_response(500, Vec::new()), Err(FetchError::RequestFailed { status: 500 }));
    assert_eq!(WmsClient::tile_from_response(300, vec![1]), Err(FetchError::RequestFailed { status: 300 }));
}

#[test]
fn success_class_bounds() {
    assert!(!is_success(199));
    assert!(is_success(200));
    assert!(is_success(299));
    assert!(!is_success(300));
    assert_eq!(status_error(204), None);
    assert_eq!(status_error(503), Some(FetchError::RequestFailed { status: 503 }));
}

#[test]
fn decimal_text() {
    let mut s = String::from("n=");
    push_decimal(&mut s, 0);
    assert_eq!(s, "n=0");
    let mut s = String::new();
    push_decimal(&mut s, 10);
    assert_eq!(s, "10");
    let mut s = String::new();
    push_decimal(&mut s, 4294967295);
    assert_eq!(s, "4294967295");
    let mut s = String::new();
    push_bool(&mut s, false);
    push_bool(&mut s, true);
    assert_eq!(s, "falsetrue");
}

#[test]
fn interleaved_calls_keep_their_own_parameters() {
    let c = wfs(Some(api_key()));
    let a = c.feature_request("a", Some("1,1,2,2"), Some(1)).unwrap();
    let b = c.feature_request("b", None, Some(2)).unwrap();
    let a2 = c.feature_request("a", Some("1,1,2,2"), Some(1)).unwrap();
    assert_eq!(a.url, a2.url);
    assert!(a.url.contains("typeName=a&") && a.url.contains("&count=1&"));
    assert!(b.url.contains("typeName=b&") && b.url.contains("&count=2&") && !b.url.contains("bbox"));
}

#[test]
fn constructors_record_user_agent() {
    assert_eq!(wfs(None).agent(), "rust-wfs-client/0.1.0");
    assert_eq!(wms(None).agent(), "rust-wms-client/0.1.0");
}

#[test]
fn wfs_from_built_transport() {
    let built = reqwest::Client::builder().user_agent("probe/1").build();
    let c = WfsClient::from_build(built, "probe/1", WFS_BASE, Some(api_key()), "1.1.0", "EPSG:4326").unwrap();
    assert_eq!(c.agent(), "probe/1");
    assert_eq!(c.base_url(), WFS_BASE);
    assert_eq!(c.crs(), "EPSG:4326");
    assert!(matches!(c.auth(), Some(AuthStrategy::ApiKey { .. })));
}

#[test]
fn wms_from_built_transport() {
    let built = reqwest::Client::builder().build();
    let c = WmsClient::from_build(built, "probe/2", WMS_BASE, None, "1.1.1").unwrap();
    assert_eq!(c.agent(), "probe/2");
    assert_eq!(c.base_url(), WMS_BASE);
    assert!(c.auth().is_none());
}

#[test]
fn failed_transport_build_is_transport_error() {
    let built = reqwest::Client::builder().user_agent("bad\nagent").build();
    assert!(built.is_err());
    let r = WfsClient::from_build(built, "bad\nagent", WFS_BASE, None, "2.0.0", "EPSG:25832");
    assert!(matches!(r, Err(FetchError::TransportError(_))));
    let built = reqwest::Client::builder().user_agent("bad\nagent").build();
    let r = WmsClient::from_build(built, "bad\nagent", WMS_BASE, None, "1.3.0");
    assert!(matches!(r, Err(FetchError::TransportError(_))));
}
