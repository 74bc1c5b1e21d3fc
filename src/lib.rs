//! Polling engine for a remote water-metering service: request building and
//! response interpretation, entity adapters, the credential session, the
//! refresh scheduler, and the policy that separates transient failures from
//! fatal ones.

pub mod bridge;
pub mod classifier;
pub mod client;
pub mod configuration;
pub mod device;
pub mod downloader;
pub mod flume;
pub mod flume_builder;
pub mod metrics;
pub mod sensor;
pub mod timestamps;
