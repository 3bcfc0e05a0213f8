//! The command dispatcher's decisions: validating a wake request,
//! classifying the outcome of the network action, and wording the
//! message that is logged and shown. The network action itself — the
//! datagram send and the TCP connect — is the caller's, which hands
//! the outcome back in.
//!
//! Policy on invalid input: a wake request whose address does not
//! parse is rejected before any I/O and leaves no log record.

use vstd::prelude::*;
use vstd::string::StringExecFns;

use crate::mac::MacAddr;
use crate::mac::spec_mac_bytes;
use crate::mac::valid_mac_text;
use crate::text::str_eq;
use crate::wol::magic_packet;
use crate::wol::spec_magic_packet;

verus! {

/// The single byte written to the sleep agent on the target host.
pub const SLEEP_SIGNAL: u8 = 0x77;

/// The default broadcast endpoint for magic packets.
pub fn default_broadcast_addr() -> (r: &'static str)
    ensures
        r@ == "255.255.255.255:9"@,
{
    "255.255.255.255:9"
}

/// What came of sending the magic packet: the kernel accepted it, or
/// the send failed with a cause.
pub enum SendOutcome {
    Sent,
    SendFailed { cause: String },
}

/// What came of the sleep signal: the stream was opened and the byte
/// written; the connect was refused — the agent listens only while
/// awake, so the target is already asleep; or some other connect or
/// write error.
pub enum SleepOutcome {
    Sent,
    TargetAsleep { cause: String },
    ConnectFailed { cause: String },
}

/// The step a wake request leads to: send the magic packet, or reject
/// the address with a message, without any I/O and without a record.
pub enum WakePlan {
    Send { packet: Vec<u8> },
    Reject { message: String },
}

/// The message for a rejected wake request.
pub open spec fn invalid_mac_text_msg(input: Seq<char>) -> Seq<char> {
    "Invalid Mac Address: "@ + input + "."@
}

/// The message for an accepted wake dispatch.
pub open spec fn wake_ok_msg(input: Seq<char>) -> Seq<char> {
    "MAC Address: "@ + input
}

/// The message for a failed magic-packet send.
pub open spec fn wake_failed_msg(cause: Seq<char>) -> Seq<char> {
    "Failed to send packet: "@ + cause
}

/// The message for a delivered sleep signal.
pub open spec fn sleep_ok_msg(address: Seq<char>) -> Seq<char> {
    "Server: "@ + address
}

/// The message for a refused sleep connect.
pub open spec fn sleep_asleep_msg(cause: Seq<char>) -> Seq<char> {
    "Server is already asleep: "@ + cause
}

/// The message for any other sleep failure.
pub open spec fn sleep_error_msg(cause: Seq<char>) -> Seq<char> {
    "Got error when connecting address: "@ + cause
}

/// The rejection message for a wake request whose address is invalid.
pub fn invalid_mac_message(mac_address: &str) -> (r: String)
    ensures
        r@ == invalid_mac_text_msg(mac_address@),
{
    let mut m = String::from_str("Invalid Mac Address: ");
    m.append(mac_address);
    m.append(".");
    m
}

/// Decides a wake request. An address in the accepted text form yields
/// the magic packet to broadcast; any other input is rejected with the
/// outcome message. A rejection carries no packet and no record: the
/// attempt performs no I/O and is not logged.
pub fn plan_wake(mac_address: &str) -> (r: WakePlan)
    ensures
        valid_mac_text(mac_address@) ==> (r matches WakePlan::Send { packet } && packet@
            == spec_magic_packet(spec_mac_bytes(mac_address@))),
        !valid_mac_text(mac_address@) ==> (r matches WakePlan::Reject { message } && message@
            == invalid_mac_text_msg(mac_address@)),
{
    match MacAddr::parse(mac_address) {
        Ok(mac) => WakePlan::Send { packet: magic_packet(&mac) },
        Err(_) => WakePlan::Reject { message: invalid_mac_message(mac_address) },
    }
}

/// Classifies a wake attempt: the success flag and the message that is
/// logged and shown.
pub fn wake_report(mac_address: &str, outcome: &SendOutcome) -> (r: (bool, String))
    ensures
        outcome is Sent ==> r.0 && r.1@ == wake_ok_msg(mac_address@),
        outcome matches SendOutcome::SendFailed { cause } ==> !r.0 && r.1@ == wake_failed_msg(
            cause@,
        ),
{
    match outcome {
        SendOutcome::Sent => {
            let mut m = String::from_str("MAC Address: ");
            m.append(mac_address);
            (true, m)
        },
        SendOutcome::SendFailed { cause } => {
            let mut m = String::from_str("Failed to send packet: ");
            m.append(cause.as_str());
            (false, m)
        },
    }
}

/// Classifies a sleep attempt: the success flag and the message that
/// is logged and shown. A refused connect counts as "already asleep"
/// and is distinguished from genuine errors.
pub fn sleep_report(address: &str, outcome: &SleepOutcome) -> (r: (bool, String))
    ensures
        outcome is Sent ==> r.0 && r.1@ == sleep_ok_msg(address@),
        outcome matches SleepOutcome::TargetAsleep { cause } ==> !r.0 && r.1@ == sleep_asleep_msg(
            cause@,
        ),
        outcome matches SleepOutcome::ConnectFailed { cause } ==> !r.0 && r.1@ == sleep_error_msg(
            cause@,
        ),
{
    match outcome {
        SleepOutcome::Sent => {
            let mut m = String::from_str("Server: ");
            m.append(address);
            (true, m)
        },
        SleepOutcome::TargetAsleep { cause } => {
            let mut m = String::from_str("Server is already asleep: ");
            m.append(cause.as_str());
            (false, m)
        },
        SleepOutcome::ConnectFailed { cause } => {
            let mut m = String::from_str("Got error when connecting address: ");
            m.append(cause.as_str());
            (false, m)
        },
    }
}

/// The routing rule for the log page: a request whose `Hx-Target`
/// header names the status table gets only the table fragment, any
/// other request the full page.
pub fn wants_fragment(hx_target: Option<&str>) -> (r: bool)
    ensures
        r == (hx_target matches Some(t) && t@ == "status-table"@),
{
    match hx_target {
        Some(t) => str_eq(t, "status-table"),
        None => false,
    }
}

} // verus!
