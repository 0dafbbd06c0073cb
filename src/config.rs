//! Service configuration, and the checks made on it at startup.

use vstd::prelude::*;

use crate::text::{header_safe, is_header_safe};

verus! {

/// Whole seconds of a `Duration`, as `Duration::as_secs` gives them.
pub uninterp spec fn whole_secs(d: core::time::Duration) -> u64;

/// Relies on `Duration::from_secs`: a duration of exactly `secs` whole seconds.
pub assume_specification[ core::time::Duration::from_secs ](secs: u64) -> (d: core::time::Duration)
    ensures
        whole_secs(d) == secs,
;

/// Relies on `Duration::as_secs`: the whole seconds of the duration.
pub assume_specification[ core::time::Duration::as_secs ](d: &core::time::Duration) -> (r: u64)
    ensures
        r == whole_secs(*d),
;

/// Shortest pepper accepted, in bytes.
pub const MIN_PEPPER_LEN: usize = 16;

pub struct ServerCfg {
    pub bind: String,
    pub cookie_name: String,
    pub session_ttl_secs: u64,
    pub pepper_file: String,
}

pub struct DbCfg {
    pub url: String,
}

pub struct Ovpn {
    pub vpncertctl_path: String,
    pub socket_path: String,
    pub ccd_dir: String,
    pub cn_pattern: String,
    pub bundle_remote: String,
    pub bundle_port: u16,
    pub bundle_proto: String,
    pub bundles_dir: String,
}

pub struct AppCfg {
    pub server: ServerCfg,
    pub db: DbCfg,
    pub ovpn: Ovpn,
}

/// The pepper was shorter than 16 bytes.
#[derive(Debug, Clone, Copy, PartialEq, Eq, Structural)]
pub struct PepperTooShort;

/// Session lifetime in seconds as a signed count, held to `i64::MAX`.
pub open spec fn ttl_as_i64(secs: u64) -> i64 {
    if secs > i64::MAX as u64 {
        i64::MAX
    } else {
        secs as i64
    }
}

impl AppCfg {
    /// How long a session lives.
    pub fn session_ttl(&self) -> (d: core::time::Duration)
        ensures
            whole_secs(d) == self.server.session_ttl_secs,
    {
        core::time::Duration::from_secs(self.server.session_ttl_secs)
    }

    /// Whether the session cookie's name can be sent in a header; the
    /// service refuses to start otherwise.
    pub fn cookie_name_sendable(&self) -> (r: bool)
        ensures
            r == header_safe(self.server.cookie_name@),
    {
        is_header_safe(self.server.cookie_name.as_str())
    }

    /// Session lifetime in seconds, as sessions and cookies record it.
    pub fn session_ttl_seconds(&self) -> (r: i64)
        ensures
            r == ttl_as_i64(self.server.session_ttl_secs),
    {
        let s = self.session_ttl().as_secs();
        if s > i64::MAX as u64 {
            i64::MAX
        } else {
            s as i64
        }
    }
}

/// Takes the bytes read from the pepper file as the pepper, unless they are
/// fewer than 16.
pub fn accept_pepper(bytes: Vec<u8>) -> (r: Result<Vec<u8>, PepperTooShort>)
    ensures
        r is Ok <==> bytes@.len() >= MIN_PEPPER_LEN,
        r matches Ok(p) ==> p@ == bytes@,
{
    if bytes.len() < MIN_PEPPER_LEN {
        Err(PepperTooShort)
    } else {
        Ok(bytes)
    }
}

} // verus!
