//! The process topology of a multi-router TCP proxy: its configuration, the
//! routers and admin runner built from it, and the shutdown protocol.
//!
//! A configuration is loaded from JSON or YAML text with
//! [`AppConfig::from_str`] and built into an [`App`] with
//! [`AppConfig::into_app`]. Each [`RouterSpawner`] of the app launches its
//! servers on the serving context; the [`AdminRunner`] runs on a context of
//! its own, where it polls service discovery, exports metrics and, when
//! asked to, sends the shutdown deadline through the latch made by
//! [`closer`].

pub mod admin;
pub mod config;
pub mod document;
pub mod error;
pub mod format;
pub mod metrics;
pub mod net;
pub mod schema;
pub mod shutdown;
pub mod text;
pub mod topology;

pub use admin::AdminRunner;
pub use config::{AdminConfig, AppConfig, InterpreterConfig, RouterConfig};
pub use error::Error;
pub use shutdown::{closer, Closed, Closer};
pub use topology::{App, RouterSpawner};
