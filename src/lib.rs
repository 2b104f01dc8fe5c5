//! A lookup service over a hot-swappable geo database: locale-filtered
//! reply assembly, error mapping and the reload protocol.
pub mod names;
pub mod image;
pub mod record;
pub mod status;
pub mod locale;
pub mod metadata;
pub mod db;
pub mod service;
pub mod health;

pub use health::HealthService;
pub use service::CityService;
