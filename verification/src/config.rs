//! The configuration of a process: admin settings, routers and the size of
//! the shared transfer buffer.

use crate::document::{Entry, Node};
use crate::net::{localhost_addr, spec_localhost, IpAddr, SocketAddr};
use vstd::prelude::*;

verus! {

/// The admin port where none is configured.
pub const DEFAULT_ADMIN_PORT: u16 = 9989;

/// The size of the transfer buffer where none is configured: 16 KiB.
pub const DEFAULT_BUFFER_SIZE_BYTES: usize = 16384;

/// The grace period where none is configured, in seconds.
pub const DEFAULT_GRACE_SECS: u64 = 10;

/// The metrics export interval where none is configured, in seconds.
pub const DEFAULT_METRICS_INTERVAL_SECS: u64 = 60;

/// Configures the admin server.
#[derive(Clone, Copy, Debug)]
pub struct AdminConfig {
    /// The port on which the admin server listens.
    pub port: Option<u16>,
    /// The IP address on which the admin server listens.
    pub ip: Option<IpAddr>,
    /// The interval at which metrics are snapshot, and reset, for export.
    pub metrics_interval_secs: Option<u64>,
    /// How long connections may take to complete between the shutdown
    /// trigger and the process exiting.
    pub grace_secs: Option<u64>,
}

/// Configures an interpreter, which turns request destinations into a
/// stream of address pool updates.
///
/// In a document an interpreter is an object whose field `kind` names the
/// variant; the other fields are the variant's own settings.
#[derive(Clone, Debug)]
pub enum InterpreterConfig {
    /// Polls namerd over HTTP for updates: kind `io.l5d.namerd.http`, with
    /// the resolver's settings.
    NamerdHttp(Vec<Entry>),
}

/// An interpreter's configuration as a plain value.
pub enum InterpreterView {
    /// The namerd resolver's settings.
    NamerdHttp(Seq<Entry>),
}

impl View for InterpreterConfig {
    type V = InterpreterView;

    open spec fn view(&self) -> InterpreterView {
        match self {
            InterpreterConfig::NamerdHttp(settings) => InterpreterView::NamerdHttp(settings@),
        }
    }
}

/// Holds the configuration for a single stream router.
#[derive(Clone, Debug)]
pub struct RouterConfig {
    /// A descriptive name for this router, for stats reporting.
    pub label: String,
    /// The configuration of each server, in declared order.
    pub servers: Vec<Node>,
    /// How outbound connections are initiated, where that is configured.
    pub client: Option<Node>,
    /// Interprets request destinations.
    pub interpreter: InterpreterConfig,
}

/// A router's configuration as a plain value.
pub struct RouterView {
    /// The router's label.
    pub label: Seq<char>,
    /// The configuration of each server, in declared order.
    pub servers: Seq<Node>,
    /// The connector configuration, where there is one.
    pub client: Option<Node>,
    /// The interpreter's configuration.
    pub interpreter: InterpreterView,
}

impl View for RouterConfig {
    type V = RouterView;

    open spec fn view(&self) -> RouterView {
        RouterView {
            label: self.label@,
            servers: self.servers@,
            client: self.client,
            interpreter: self.interpreter@,
        }
    }
}

/// Holds the configuration for a process.
#[derive(Clone, Debug)]
pub struct AppConfig {
    /// Configures the process's admin server.
    pub admin: Option<AdminConfig>,
    /// Configures the routers, in declared order.
    pub routers: Vec<RouterConfig>,
    /// The size of the shared buffer used for transferring data.
    pub buffer_size_bytes: Option<usize>,
}

/// A process's configuration as a plain value.
pub struct AppConfigView {
    /// The admin settings, where there are any.
    pub admin: Option<AdminConfig>,
    /// The configuration of each router, in declared order.
    pub routers: Seq<RouterView>,
    /// The size of the transfer buffer, where it is configured.
    pub buffer_size_bytes: Option<usize>,
}

impl View for AppConfig {
    type V = AppConfigView;

    open spec fn view(&self) -> AppConfigView {
        AppConfigView {
            admin: self.admin,
            routers: self.routers@.map_values(|router: RouterConfig| router@),
            buffer_size_bytes: self.buffer_size_bytes,
        }
    }
}

/// The address the admin server listens on: each part as configured, or
/// else the loopback address and the default port.
pub open spec fn admin_addr(admin: Option<AdminConfig>) -> SocketAddr {
    SocketAddr {
        ip: match admin {
            Some(AdminConfig { ip: Some(ip), .. }) => ip,
            _ => spec_localhost(),
        },
        port: match admin {
            Some(AdminConfig { port: Some(port), .. }) => port,
            _ => DEFAULT_ADMIN_PORT,
        },
    }
}

/// The grace period in seconds: as configured, or else the default.
pub open spec fn admin_grace_secs(admin: Option<AdminConfig>) -> u64 {
    match admin {
        Some(AdminConfig { grace_secs: Some(secs), .. }) => secs,
        _ => DEFAULT_GRACE_SECS,
    }
}

/// The metrics export interval in seconds: as configured, or else the
/// default.
pub open spec fn admin_metrics_interval_secs(admin: Option<AdminConfig>) -> u64 {
    match admin {
        Some(AdminConfig { metrics_interval_secs: Some(secs), .. }) => secs,
        _ => DEFAULT_METRICS_INTERVAL_SECS,
    }
}

/// The size of the transfer buffer in bytes: as configured, or else the
/// default.
pub open spec fn buffer_size(configured: Option<usize>) -> usize {
    match configured {
        Some(size) => size,
        None => DEFAULT_BUFFER_SIZE_BYTES,
    }
}

/// The admin settings with every default resolved.
#[derive(Clone, Copy, Debug, PartialEq, Eq, Structural)]
pub struct AdminSettings {
    /// Where the admin server listens.
    pub addr: SocketAddr,
    /// The grace period, in seconds.
    pub grace_secs: u64,
    /// The metrics export interval, in seconds.
    pub metrics_interval_secs: u64,
}

/// The admin settings that a configuration resolves to.
pub open spec fn admin_settings(admin: Option<AdminConfig>) -> AdminSettings {
    AdminSettings {
        addr: admin_addr(admin),
        grace_secs: admin_grace_secs(admin),
        metrics_interval_secs: admin_metrics_interval_secs(admin),
    }
}

/// Resolves the admin settings: each one as configured, or else its
/// default.
pub fn resolve_admin(admin: &Option<AdminConfig>) -> (settings: AdminSettings)
    ensures
        settings == admin_settings(*admin),
{
    let ip = match admin {
        Some(AdminConfig { ip: Some(ip), .. }) => *ip,
        _ => localhost_addr(),
    };
    let port = match admin {
        Some(AdminConfig { port: Some(port), .. }) => *port,
        _ => DEFAULT_ADMIN_PORT,
    };
    let grace_secs = match admin {
        Some(AdminConfig { grace_secs: Some(secs), .. }) => *secs,
        _ => DEFAULT_GRACE_SECS,
    };
    let metrics_interval_secs = match admin {
        Some(AdminConfig { metrics_interval_secs: Some(secs), .. }) => *secs,
        _ => DEFAULT_METRICS_INTERVAL_SECS,
    };
    AdminSettings { addr: SocketAddr::new(ip, port), grace_secs, metrics_interval_secs }
}

/// Resolves the size of the transfer buffer: as configured, or else the
/// default.
pub fn resolve_buffer_size(configured: Option<usize>) -> (size: usize)
    ensures
        size == buffer_size(configured),
{
    match configured {
        Some(size) => size,
        None => DEFAULT_BUFFER_SIZE_BYTES,
    }
}

/// Defaulting: with no admin block, or with one that leaves every field
/// out, the admin server listens on `127.0.0.1:9989`, the grace period is
/// 10 seconds and metrics are exported every 60 seconds. A field that is
/// configured is taken as it is, whatever the others are.
pub proof fn admin_settings_default_field_by_field(admin: AdminConfig)
    ensures
        admin_settings(None) == (AdminSettings {
            addr: SocketAddr { ip: IpAddr::V4(127, 0, 0, 1), port: 9989 },
            grace_secs: 10,
            metrics_interval_secs: 60,
        }),
        admin_settings(
            Some(AdminConfig { port: None, ip: None, metrics_interval_secs: None, grace_secs: None }),
        ) == admin_settings(None),
        admin.port matches Some(port) ==> admin_settings(Some(admin)).addr.port == port,
        admin.ip matches Some(ip) ==> admin_settings(Some(admin)).addr.ip == ip,
        admin.grace_secs matches Some(secs) ==> admin_settings(Some(admin)).grace_secs == secs,
        admin.metrics_interval_secs matches Some(secs) ==> admin_settings(
            Some(admin),
        ).metrics_interval_secs == secs,
        admin.port is None ==> admin_settings(Some(admin)).addr.port == 9989,
        admin.ip is None ==> admin_settings(Some(admin)).addr.ip == IpAddr::V4(127, 0, 0, 1),
        admin.grace_secs is None ==> admin_settings(Some(admin)).grace_secs == 10,
        admin.metrics_interval_secs is None ==> admin_settings(Some(admin)).metrics_interval_secs
            == 60,
{
}

} // verus!
