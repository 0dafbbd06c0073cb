//! Authentication, session and access-control core of a VPN credential
//! administration service, with the small pieces of certificate bookkeeping
//! that sit around it.

pub mod text;
pub mod cookies;
pub mod password;
pub mod status;
pub mod tokens;
pub mod csrf;
pub mod clock;
pub mod session;
pub mod throttle;
pub mod audit;
pub mod guards;
pub mod config;
pub mod auth;
pub mod vpncertd;
pub mod openvpn;
pub mod laws;
pub mod web;
