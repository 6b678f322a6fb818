//! A metrics-reporting agent library: statistical accumulation of metric
//! samples between delivery windows, per-component delivery bookkeeping,
//! payload construction, and response classification for a remote
//! metrics-ingestion endpoint.

pub mod agent;
pub mod clock;
pub mod component;
pub mod config;
pub mod context;
pub mod metric;
pub mod numbers;
pub mod payload;
pub mod response;

pub use agent::Agent;
pub use component::Component;
pub use context::Context;
pub use config::Config;
pub use metric::Metric;
pub use response::{DeliveryOutcome, TransportResponse};
