//! Verified core of the Codex app-server harness adapter.

pub mod answer_laws;
pub mod answers;
pub mod approval;
pub mod attaching;
pub mod background;
pub mod catalog;
pub mod catalog_laws;
pub mod control;
pub mod control_laws;
pub mod decode;
pub mod diff;
pub mod discovery;
pub mod error;
pub mod event;
pub mod event_laws;
pub mod frame_laws;
pub mod frames;
pub mod handle;
pub mod ids;
pub mod instance;
pub mod item_laws;
pub mod items;
pub mod json;
pub mod log_fields;
pub mod mapper;
pub mod mapper_laws;
pub mod mapper_model;
pub mod maps;
pub mod model_laws;
pub mod modes;
pub mod native_routes;
pub mod number;
pub mod opening;
pub mod paths;
pub mod protocol;
pub mod queue;
pub mod reading;
pub mod request_laws;
pub mod requests;
pub mod route_laws;
pub mod route_model;
pub mod routes;
pub mod rpc;
pub mod scope;
pub mod split;
pub mod text;
pub mod text_laws;
pub mod transport;
pub mod turn_error;
pub mod turn_laws;
pub mod turns;
pub mod upload_laws;
pub mod uploads;
pub mod version;
pub mod wire_items;
pub mod wire_laws;
pub mod wire_notifications;
pub mod wire_requests;
