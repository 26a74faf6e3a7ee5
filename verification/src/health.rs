//! Whether the server is up: told by a connection to its port, not by the
//! child that the supervisor may hold, so that a server started by someone
//! else counts too.

use vstd::prelude::*;
use vstd::string::*;
use crate::host::{HostFacts, Query};
use crate::text::{decimal, spec_decimal};

verus! {

/// The port on which the server listens.
pub const SERVER_PORT: u16 = 4847;

/// The address that is tried for `port`: the local host and the port in
/// decimal.
pub open spec fn spec_probe_address(port: u16) -> Seq<char> {
    "127.0.0.1:"@ + spec_decimal(port as nat)
}

/// What is reported of a server that does, or does not, accept a connection.
pub open spec fn spec_status_text(listening: bool) -> Seq<char> {
    if listening {
        "running"@
    } else {
        "stopped"@
    }
}

/// The address that is tried for `port`.
pub fn probe_address(port: u16) -> (address: String)
    ensures
        address@ == spec_probe_address(port),
{
    let mut address = String::from_str("127.0.0.1:");
    let digits = decimal(port);
    address.append(digits.as_str());
    address
}

/// What is reported of a server that does, or does not, accept a connection.
pub fn status_text(listening: bool) -> (text: &'static str)
    ensures
        text@ == spec_status_text(listening),
{
    if listening {
        "running"
    } else {
        "stopped"
    }
}

/// Whether a server runs on `port` of `host`: whether anything there accepts a
/// connection.
pub fn is_server_running(host: &HostFacts, port: u16) -> (running: bool)
    ensures
        running == host@.listens(port),
{
    host.answer(&Query::Listening(port)).into_flag()
}

/// The status of the server on `host`, by its port alone.
pub fn get_server_status(host: &HostFacts) -> (status: String)
    ensures
        status@ == spec_status_text(host@.listens(SERVER_PORT)),
{
    String::from_str(status_text(is_server_running(host, SERVER_PORT)))
}

} // verus!
