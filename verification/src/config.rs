//! The configuration record the run consumes, and the request values
//! derived from it: the hidden-service provisioning line and the
//! daemon's launch arguments.

use vstd::prelude::*;
use crate::protocol::setconf_line;
use crate::render::{decimal, decimal_string, push_decimal, push_normalized};

verus! {

/// One hidden service: the local port its traffic reaches, an optional
/// service directory, and an optional SSL port (carried but unused by
/// the provisioning request).
pub struct HiddenServiceConfig {
    pub port: u16,
    pub path: Option<String>,
    pub ssl_port: Option<u16>,
}

/// The directory a descriptor provisions: its own path, or the fixed
/// relative default when none is configured.
pub open spec fn hs_dir(path: Option<String>) -> Seq<char> {
    match path {
        Option::Some(p) => p@,
        Option::None => ".hidden-service"@,
    }
}

impl HiddenServiceConfig {
    /// Renders this descriptor's provisioning request line, with every
    /// backslash in the directory converted to a forward slash.
    pub fn format_request(&self) -> (r: String)
        ensures
            r@ == setconf_line(hs_dir(self.path), self.port),
    {
        proof {
            reveal_strlit("SETCONF HiddenServiceDir=\"");
            reveal_strlit("\" HiddenServicePort=\"80 127.0.0.1:");
            reveal_strlit("\"\r\n");
        }
        let mut s = String::from_str("SETCONF HiddenServiceDir=\"");
        match &self.path {
            Option::Some(p) => push_normalized(&mut s, p.as_str()),
            Option::None => push_normalized(&mut s, ".hidden-service"),
        }
        s.append("\" HiddenServicePort=\"80 127.0.0.1:");
        push_decimal(&mut s, self.port as u64);
        s.append("\"\r\n");
        assert(s@ =~= setconf_line(hs_dir(self.path), self.port));
        s
    }
}

/// The whole configuration of one run, constructed once and never
/// mutated: the control port, an optional SOCKS port, the command to
/// run once the services stand, an optional daemon executable path,
/// an optional control-channel password, and the hidden services.
pub struct Config {
    pub config_port: u16,
    pub socks_port: Option<u16>,
    pub command: String,
    pub tor_exe: Option<String>,
    pub tor_password: Option<String>,
    pub hidden_services: Vec<HiddenServiceConfig>,
}

/// The daemon's launch arguments: the control port, the owner-process
/// marker with the supervisor's process id, and the SOCKS port when one
/// is configured.
pub open spec fn daemon_args_spec(c: Config, pid: u64) -> Seq<Seq<char>> {
    let base = seq![
        "ControlPort"@,
        decimal(c.config_port as nat),
        "__OwningControllerProcess"@,
        decimal(pid as nat),
    ];
    match c.socks_port {
        Option::Some(sp) => base + seq!["SocksPort"@, decimal(sp as nat)],
        Option::None => base,
    }
}

impl Config {
    /// Builds the daemon's launch arguments. The supervisor's process
    /// id is passed in rather than read ambiently.
    pub fn daemon_args(&self, pid: u64) -> (r: Vec<String>)
        ensures
            r.deep_view() == daemon_args_spec(*self, pid),
    {
        let mut r: Vec<String> = Vec::new();
        r.push(String::from_str("ControlPort"));
        r.push(decimal_string(self.config_port as u64));
        r.push(String::from_str("__OwningControllerProcess"));
        r.push(decimal_string(pid));
        match self.socks_port {
            Option::Some(sp) => {
                r.push(String::from_str("SocksPort"));
                r.push(decimal_string(sp as u64));
            },
            Option::None => {},
        }
        assert(r.deep_view() =~~= daemon_args_spec(*self, pid));
        r
    }
}

} // verus!
