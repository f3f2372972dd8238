//! Connection settings of the single-file configuration layout.

use std::path::PathBuf;
use vstd::prelude::*;

verus! {

/// HTTP listener settings.
#[derive(Debug)]
pub struct ServerConfig {
    pub host: String,
    pub port: u16,
    pub static_dir: PathBuf,
}

/// MQTT broker settings.
#[derive(Debug, Clone)]
pub struct MqttConfig {
    pub broker: String,
    pub port: u16,
    pub client_id: String,
    pub topic: String,
    pub username: Option<String>,
    pub password: Option<String>,
}

/// Time-series store settings.
#[derive(Debug, Clone)]
pub struct ClickHouseConfig {
    pub url: String,
    pub database: String,
    pub user: String,
    pub password: String,
}

} // verus!
