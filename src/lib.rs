//! Maps analytics events (page views, custom tracks, identify calls) onto the
//! batch format of the Amplitude HTTP ingestion API.

pub mod component;
pub mod error;
pub mod event;
pub mod inbound;
pub mod json;
pub mod laws;
pub mod links;
pub mod mapping;
pub mod payload;
pub mod session;
pub mod value;
