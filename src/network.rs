//! The decisions of the network actions: port validation, the address to
//! connect to, and what a send's outcome becomes. Sockets are opened by the
//! caller between these steps.

use vstd::prelude::*;
use crate::common::{GenerationError, kind_network};
use crate::log::{Log, adapt_log_network, information};
use crate::text::{decimal, decimal_text};

verus! {

/// The loopback interface that the self-test listens on and connects to.
pub open spec fn loopback_host() -> Seq<char> {
    "127.0.0.1"@
}

/// The loopback interface, as text.
pub fn loopback_text() -> (r: String)
    ensures
        r@ == loopback_host(),
{
    String::from_str("127.0.0.1")
}

/// The socket address text `host:port`.
pub open spec fn address_text(host: Seq<char>, port: nat) -> Seq<char> {
    host + ":"@ + decimal(port)
}

/// The socket address text `host:port`.
pub fn socket_address(host: &String, port: u16) -> (r: String)
    ensures
        r@ == address_text(host@, port as nat),
{
    host.clone().concat(":").concat(decimal_text(port as u64).as_str())
}

/// Validates a connect target: port `0` is refused with a `network` error
/// before any connection is attempted; otherwise the address to connect to.
pub fn send_target(host: &String, port: u16) -> (r: Result<String, GenerationError>)
    ensures
        r is Err <==> port == 0,
        r matches Ok(a) ==> a@ == address_text(host@, port as nat),
        r matches Err(e) ==> e.kind@ == kind_network() && e.message@ == "Invalid Port Number"@,
{
    if port == 0 {
        return Err(GenerationError::new(String::from_str("network"), String::from_str("Invalid Port Number")));
    }
    Ok(socket_address(host, port))
}

/// How a send ended: the payload was written from the given local
/// address and port, the connection could not be made, or the payload
/// could not be written.
#[derive(Debug)]
pub enum SendOutcome {
    Sent { local_addr: String, local_port: u16, bytes: usize },
    ConnectFailed,
    WriteFailed,
}

/// The protocol column of a network event.
pub open spec fn tcp() -> Seq<char> {
    "TCP"@
}

/// The event of a send to `host:port`, or its `network` error.
pub fn send_result(host: String, port: u16, outcome: SendOutcome) -> (r: Result<Log, GenerationError>)
    ensures
        r is Ok <==> outcome is Sent,
        r matches Err(e) ==> e.kind@ == kind_network(),
        outcome is ConnectFailed ==> (r matches Err(e) && e.message@ == "Unable to Connect"@),
        outcome is WriteFailed ==> (r matches Err(e) && e.message@ == "Unable to open stream for writing"@),
        outcome matches SendOutcome::Sent { local_addr, local_port, bytes } ==> (r matches Ok(l) && {
            &&& l.t@ == information()
            &&& l.source_addr@ == local_addr@
            &&& l.source_port@ == decimal(local_port as nat)
            &&& l.dest_addr@ == host@
            &&& l.dest_port@ == decimal(port as nat)
            &&& l.bytes_sent@ == decimal(bytes as nat)
            &&& l.protocol@ == tcp()
            &&& l.file_path@.len() == 0
        }),
{
    match outcome {
        SendOutcome::Sent { local_addr, local_port, bytes } => Ok(
            adapt_log_network(
                String::from_str("Network Connection"),
                local_addr,
                local_port,
                host,
                port,
                bytes,
                String::from_str("TCP"),
            ),
        ),
        SendOutcome::ConnectFailed => Err(
            GenerationError::new(String::from_str("network"), String::from_str("Unable to Connect")),
        ),
        SendOutcome::WriteFailed => Err(
            GenerationError::new(
                String::from_str("network"),
                String::from_str("Unable to open stream for writing"),
            ),
        ),
    }
}

/// The `network` error of a listener that could not be bound.
pub fn listener_failed() -> (r: GenerationError)
    ensures
        r.kind@ == kind_network(),
        r.message@ == "Unable to Start Server"@,
{
    GenerationError::new(String::from_str("network"), String::from_str("Unable to Start Server"))
}

} // verus!
