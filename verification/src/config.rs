//! Application configuration: where the snapshot file lives, where the
//! frontend is served, and how often the sources are polled.

use vstd::prelude::*;
use core::time::Duration;
use crate::text::dec_digits;
use crate::text::u64_to_string;
use vstd::string::StringExecFns;

verus! {

/// The monitor's configuration.
#[derive(Debug, Clone, Copy)]
pub struct Config {
    /// Where the aggregated snapshot is written.
    pub status_file: &'static str,
    /// The port the frontend server binds.
    pub frontend_port: u16,
    /// The directory the frontend is served from.
    pub frontend_dir: &'static str,
    /// Seconds between two poll cycles.
    pub refresh_interval_secs: u64,
    /// The address the frontend server binds.
    pub server_bind_addr: &'static str,
}

impl Config {
    /// The default configuration.
    pub fn default() -> (r: Config)
        ensures
            r.status_file@ == "frontend/status.json"@,
            r.frontend_port == 5959,
            r.frontend_dir@ == "frontend"@,
            r.refresh_interval_secs == 300,
            r.server_bind_addr@ == "0.0.0.0"@,
    {
        Config {
            status_file: "frontend/status.json",
            frontend_port: 5959,
            frontend_dir: "frontend",
            refresh_interval_secs: 300,
            server_bind_addr: "0.0.0.0",
        }
    }

    /// The full bind address of the frontend server: the address, a colon,
    /// and the port in decimal.
    pub fn server_address(&self) -> (r: String)
        ensures
            r@ == self.server_bind_addr@ + ":"@ + dec_digits(self.frontend_port as int),
    {
        let mut s = String::from_str(self.server_bind_addr);
        s.append(":");
        let port = u64_to_string(self.frontend_port as u64);
        s.append(port.as_str());
        s
    }

    /// The URL under which the frontend answers locally.
    pub fn local_url(&self) -> (r: String)
        ensures
            r@ == "http://localhost:"@ + dec_digits(self.frontend_port as int),
    {
        let mut s = String::from_str("http://localhost:");
        let port = u64_to_string(self.frontend_port as u64);
        s.append(port.as_str());
        s
    }

    /// Relies on `core::time::Duration::from_secs`: the refresh interval as a
    /// `Duration` of `refresh_interval_secs` whole seconds.  `Duration` is
    /// opaque here, so nothing further is stated of the result.
    #[verifier::external_body]
    pub fn refresh_interval(&self) -> Duration {
        Duration::from_secs(self.refresh_interval_secs)
    }
}

} // verus!
