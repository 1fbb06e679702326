//! The client's part: whether it may send at all, and what it sends where.

use crate::codec::{encode, encoded};
use crate::config::CodeOpenConfig;
use crate::request::CodeOpenRequest;
use vstd::prelude::*;
use vstd::string::*;

verus! {

/// The environment variable that an SSH session sets.
pub const SSH_SESSION_VARIABLE: &'static str = "SSH_CONNECTION";

/// Whether one of the names is that of the SSH session variable.
pub open spec fn names_ssh_session(variable_names: Seq<String>) -> bool {
    exists|i: int|
        0 <= i < variable_names.len() && (#[trigger] variable_names[i])@ == SSH_SESSION_VARIABLE@
}

/// Whether the process runs in an SSH session, going by the names of its
/// environment variables. A client outside of one sends nothing.
pub fn in_ssh_session(variable_names: &Vec<String>) -> (found: bool)
    ensures
        found == names_ssh_session(variable_names@),
{
    let wanted = String::from_str(SSH_SESSION_VARIABLE);
    let mut at: usize = 0;
    while at < variable_names.len()
        invariant
            at <= variable_names.len(),
            wanted@ == SSH_SESSION_VARIABLE@,
            forall|i: int| 0 <= i < at ==> (#[trigger] variable_names@[i])@ != SSH_SESSION_VARIABLE@,
        decreases variable_names.len() - at,
    {
        if variable_names[at] == wanted {
            return true;
        }
        at += 1;
    }
    false
}

/// One request on its way: where to connect, and the bytes to write there.
#[derive(Debug)]
pub struct Delivery {
    pub ip: String,
    pub port: u16,
    /// The one frame that is written to the connection.
    pub frame: Vec<u8>,
}

/// What it takes to send `code_open_req` to the configured server: one
/// connection to its address, and one frame that holds the request.
/// Nothing is expected back.
pub fn send_request_to_server(
    code_open_config: &CodeOpenConfig,
    code_open_req: &CodeOpenRequest,
) -> (delivery: Delivery)
    ensures
        delivery.ip@ == code_open_config.ip@,
        delivery.port == code_open_config.port,
        delivery.frame@ == encoded::<CodeOpenRequest>(code_open_req@),
{
    Delivery {
        ip: code_open_config.ip.clone(),
        port: code_open_config.port,
        frame: encode(code_open_req),
    }
}

} // verus!
