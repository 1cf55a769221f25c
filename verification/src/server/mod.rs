//! The gateway server: its device registry, request bookkeeping, tool
//! routing, configuration and the responses it writes.

pub mod registry;
pub mod pending;
pub mod device_session;
pub mod status;
pub mod dashboard;
pub mod frontend;
pub mod routing;
pub mod auth;
pub mod web;
pub mod config;
pub mod models;
