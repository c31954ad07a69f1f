//! Fixed names and default values shared by the configuration, the watcher and the daemon.
use vstd::prelude::*;

verus! {

/// Version of ergosphere.
pub const ERGOSPHERE_VERSION: &'static str = "0.1.0";

/// Root Pi-hole configuration directory watched by default.
pub const PIHOLE_CONFIG_DIR: &'static str = "/etc/pihole";

/// Pi-hole's main configuration file inside the watched directory.
pub const PIHOLE_CONFIG_FILE: &'static str = "pihole.toml";

/// Pi-hole's gravity database inside the watched directory.
pub const PIHOLE_GRAVITY_DB: &'static str = "gravity.db";

/// Name of ergosphere's own configuration file.
pub const ERGOSPHERE_CONFIG_FILE: &'static str = "config.toml";

/// Default timezone for logging timestamps (IANA name).
pub const ERGOSPHERE_DAEMON_TIMEZONE: &'static str = "UTC";

/// Default HTTP client timeout, in seconds.
pub const ERGOSPHERE_DAEMON_CLIENT_TIMEOUT_SECONDS: u64 = 20u64;

/// Default debounce window, in seconds.
pub const ERGOSPHERE_DAEMON_DEBOUNCE_SECONDS: u64 = 3u64;

} // verus!
