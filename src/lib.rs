//! A newsletter backend: settings, deployment selection, connection
//! parameters and the decisions behind the health-check and subscription
//! routes.

pub mod configuration;
pub mod routers;
pub mod text;
