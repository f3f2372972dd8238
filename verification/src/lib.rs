//! Verified core of the urn-listening acoustic monitoring backend: the
//! integer and text logic of its pipeline (alert cooldown, metrics, query
//! text, configuration choices, validation bookkeeping).

pub mod text;
pub mod metrics;
pub mod alerts;
pub mod acoustics;
pub mod pipeline;
pub mod source_locator;
pub mod db_writer;
pub mod store;
pub mod handlers;
pub mod localization;
pub mod config_loader;
pub mod config;
pub mod mqtt_receiver;
