//! Fixed settings: the run mode, the ports it selects, timeouts and names.

pub mod health_check;
pub mod ports;
pub mod process;
pub mod timeouts;

use crate::text::{decimal, decimal_string, parse_u16, parsed_u16};
use vstd::prelude::*;
use vstd::string::*;

verus! {

/// The run mode. It is fixed for the lifetime of a run and selects the stable
/// proxy port and the range in which backends are looked for.
#[derive(Debug, Clone, Copy, PartialEq, Eq, Structural)]
pub enum ServerMode {
    Dev,
    Build,
}

impl ServerMode {
    /// The mode of this build: `Dev` for a debug build, `Build` otherwise.
    pub fn current(debug_build: bool) -> (mode: ServerMode)
        ensures
            mode == (if debug_build {
                ServerMode::Dev
            } else {
                ServerMode::Build
            }),
    {
        if debug_build {
            ServerMode::Dev
        } else {
            ServerMode::Build
        }
    }
}

/// The port that a configured override selects, or `fallback` where there is
/// no override or it is not a port number.
pub open spec fn port_or(configured: Option<Seq<char>>, fallback: u16) -> u16 {
    match configured {
        Some(text) => match parsed_u16(text) {
            Some(port) => port,
            None => fallback,
        },
        None => fallback,
    }
}

fn port_from(configured: Option<&str>, fallback: u16) -> (port: u16)
    ensures
        port == port_or(
            match configured {
                Some(text) => Some(text@),
                None => None,
            },
            fallback,
        ),
{
    match configured {
        Some(text) => match parse_u16(text) {
            Some(port) => port,
            None => fallback,
        },
        None => fallback,
    }
}

/// The view of an optional text.
pub open spec fn text_of(value: Option<&str>) -> Option<Seq<char>> {
    match value {
        Some(text) => Some(text@),
        None => None,
    }
}

/// The stable backend port: the configured override where it is a port
/// number, else the port of the mode.
pub fn get_backend_port(configured: Option<&str>, mode: ServerMode) -> (port: u16)
    ensures
        port == port_or(text_of(configured), ports::spec_backend_port(mode)),
{
    port_from(configured, ports::backend_port(mode))
}

/// The frontend port: the configured override where it is a port number,
/// else the port of the mode.
pub fn get_frontend_port(configured: Option<&str>, mode: ServerMode) -> (port: u16)
    ensures
        port == port_or(text_of(configured), ports::spec_frontend_port(mode)),
{
    port_from(configured, ports::frontend_port(mode))
}

/// The address of the stable backend port on the loopback interface.
pub fn get_backend_url(configured: Option<&str>, mode: ServerMode) -> (url: String)
    ensures
        url@ == "http://127.0.0.1:"@ + decimal(
            port_or(text_of(configured), ports::spec_backend_port(mode)) as nat,
        ),
{
    let mut url = String::from_str("http://127.0.0.1:");
    let digits = decimal_string(get_backend_port(configured, mode) as u64);
    url.append(digits.as_str());
    url
}

/// The address of the frontend.
pub fn get_frontend_url(configured: Option<&str>, mode: ServerMode) -> (url: String)
    ensures
        url@ == "http://localhost:"@ + decimal(
            port_or(text_of(configured), ports::spec_frontend_port(mode)) as nat,
        ),
{
    let mut url = String::from_str("http://localhost:");
    let digits = decimal_string(get_frontend_port(configured, mode) as u64);
    url.append(digits.as_str());
    url
}

} // verus!
