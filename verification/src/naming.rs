//! The names that a start gives to what it creates: the socket a worker
//! connects to, the files that keep what it prints, and the text of its port.

use crate::text::{decimal, hexadecimal, push_decimal, push_hexadecimal};
use vstd::prelude::*;

verus! {

/// Draws the number that a start names its socket and files after, with
/// `rand::random`. Nothing holds of the number but its type.
#[verifier::external_body]
fn random_socket_id() -> (r: u32) {
    rand::random::<u32>()
}

/// The short name that stands for one start: `z` and the number in
/// hexadecimal.
pub open spec fn prefix_of(id: u32) -> Seq<char> {
    "z"@ + hexadecimal(id as nat)
}

/// The name of the socket of a start.
pub open spec fn socket_name_of(id: u32) -> Seq<char> {
    prefix_of(id) + ".sock"@
}

/// The name of the file that keeps what a worker prints.
pub open spec fn stdout_name_of(id: u32) -> Seq<char> {
    prefix_of(id) + "-stdout.log"@
}

/// The name of the file that keeps the errors that a worker prints.
pub open spec fn stderr_name_of(id: u32) -> Seq<char> {
    prefix_of(id) + "-stderr.log"@
}

/// The text that sets the port of the remote API's websocket: the port in
/// decimal, between double quotes.
pub open spec fn port_text_of(port: u16) -> Seq<char> {
    "\""@ + decimal(port as nat) + "\""@
}

/// The name of the worker's binary, beside the supervisor's own.
pub open spec fn binary_name_of(windows: bool) -> Seq<char> {
    if windows {
        "zenoh_runtime.exe"@
    } else {
        "zenoh_runtime"@
    }
}

/// The short name that stands for one start.
pub fn log_prefix(id: u32) -> (r: String)
    ensures
        r@ == prefix_of(id),
{
    let mut name = String::from_str("z");
    push_hexadecimal(&mut name, id as u64);
    name
}

/// The name of the socket of a start. It is short, since the path of a
/// socket is limited in length.
pub fn socket_file_name(id: u32) -> (r: String)
    ensures
        r@ == socket_name_of(id),
{
    let mut name = log_prefix(id);
    name.append(".sock");
    name
}

/// The name of the file that keeps what a worker prints.
pub fn stdout_log_name(id: u32) -> (r: String)
    ensures
        r@ == stdout_name_of(id),
{
    let mut name = log_prefix(id);
    name.append("-stdout.log");
    name
}

/// The name of the file that keeps the errors that a worker prints.
pub fn stderr_log_name(id: u32) -> (r: String)
    ensures
        r@ == stderr_name_of(id),
{
    let mut name = log_prefix(id);
    name.append("-stderr.log");
    name
}

/// The text that sets the port of the remote API's websocket.
pub fn websocket_port_text(port: u16) -> (r: String)
    ensures
        r@ == port_text_of(port),
{
    let mut text = String::from_str("\"");
    push_decimal(&mut text, port as u64);
    text.append("\"");
    text
}

/// The name of the worker's binary, beside the supervisor's own.
pub fn worker_binary_name(windows: bool) -> (r: &'static str)
    ensures
        r@ == binary_name_of(windows),
{
    if windows {
        "zenoh_runtime.exe"
    } else {
        "zenoh_runtime"
    }
}

/// The names of a start that draws its number now.
pub fn fresh_socket_file_name() -> (r: (u32, String))
    ensures
        r.1@ == socket_name_of(r.0),
{
    let id = random_socket_id();
    (id, socket_file_name(id))
}

} // verus!
