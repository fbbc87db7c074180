//! The local-to-cloud message plane of an edge agent.
//!
//! Devices publish their telemetry on local MQTT topics; the agent registers
//! who publishes, translates what they publish, and hands it to a cloud.
//!
//! - [`mqtt_topics`], [`mqtt_channel`]: entity topic identifiers, channels,
//!   topics, filters and messages.
//! - [`entity_store`], [`entity_laws`]: the registry of the main device, its
//!   child devices and their services, and what holds of it.
//! - [`tedge_to_te_converter`]: the legacy topics `tedge/...`, translated to
//!   the topics of the entities.
//! - [`converter`], [`service_monitor`], [`health_status`]: what the clouds
//!   get: measurements, events and alarms within the size that each accepts,
//!   and the status of the services.
//! - [`c8y_http_proxy`]: the requests to the REST API of Cumulocity, with a
//!   fresh token or a fresh internal identifier where the cloud asks for one.
//! - [`mapper`], [`health`], [`config`], [`session`], [`mqtt_cli`],
//!   [`direct_connection`], [`c8y_mapper_config`], [`system_config`],
//!   [`host`]: the mappers, their health, their connections and their
//!   configuration.
//! - [`file_transfer`], [`logged_command`]: the files that the file transfer
//!   service serves, and the log of the commands that the agent runs.
//! - [`json`], [`timestamp`], [`text`], [`assoc`]: JSON objects, RFC 3339
//!   times, texts, and lists of pairs read as maps.

pub mod assoc;
pub mod c8y_http_proxy;
pub mod c8y_mapper_config;
pub mod config;
pub mod converter;
pub mod direct_connection;
pub mod entity_laws;
pub mod entity_store;
pub mod file_transfer;
pub mod health;
pub mod health_status;
pub mod host;
pub mod json;
pub mod logged_command;
pub mod mapper;
pub mod mqtt_channel;
pub mod mqtt_cli;
pub mod mqtt_topics;
pub mod service_monitor;
pub mod session;
pub mod system_config;
pub mod tedge_to_te_converter;
pub mod text;
pub mod timestamp;
