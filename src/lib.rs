//! Clients for OGC feature (WFS) and map-tile (WMS) services: request
//! construction, authentication placement, and response handling.
//!
//! The library builds each request in plain values (`http::HttpRequest`),
//! and judges each response from its status and body. Sending the request
//! and reading the body are left to the caller.
pub mod auth;
pub mod geojson;
pub mod http;
pub mod laws;
pub mod text;
pub mod wfs;
pub mod wms;
