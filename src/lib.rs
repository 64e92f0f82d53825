//! A dynamic-DNS client library: it decides whether a host's address record
//! is stale, paces its checks with a capped backoff, and drives a DNS
//! provider's zone and record API through requests and responses that the
//! caller carries over the network.

pub mod models;
pub mod reconcile;
pub mod services;
