//! The engine subprocess: how it is started and how its socket is reached.
//!
//! The caller spawns, connects, waits and kills. What is decided here is
//! how the engine is called, where its socket is, and how long the caller
//! goes on trying to connect.

use vstd::prelude::*;
use vstd::string::StringExecFns;
use crate::text::{chars_of, decimal, decimal_text, join_text, string_of};

verus! {

/// How often the caller tries to connect to the engine.
pub const CONNECT_ATTEMPTS: u32 = 60;

/// Seconds between two tries.
pub const CONNECT_PAUSE_SECS: u64 = 1;

/// Seconds after which a try is given up.
pub const CONNECT_TIMEOUT_SECS: u64 = 120;

/// What came of one try to connect to the engine.
#[derive(Debug, Clone, Copy, PartialEq, Eq, Structural)]
pub enum ConnectTry {
    Connected,
    /// The engine does not listen yet.
    Refused,
    /// The try took too long.
    TimedOut,
    /// Any other failure.
    Failed,
}

/// What the caller does after a try to connect.
#[derive(Debug, Clone, Copy, PartialEq, Eq, Structural)]
pub enum ConnectStep {
    /// Open the framed connection on the socket.
    Handshake,
    /// Try again after the pause.
    Retry,
    /// There is no connection to be had.
    GiveUp,
    /// The caller cannot go on.
    Fail,
}

/// The arguments with which the engine is started.
pub open spec fn launch_args(ws_port: u16, data_dir: Seq<char>, temp_dir: Seq<char>) -> Seq<
    Seq<char>,
> {
    seq![
        "-listen"@,
        "127.0.0.1"@,
        "-port"@,
        decimal(ws_port as nat),
        "-dataDir"@,
        data_dir,
        "-displayMode"@,
        "0"@,
        "-tempDir"@,
        temp_dir,
    ]
}

/// The address of the engine's socket.
pub open spec fn socket_url(ws_port: u16) -> Seq<char> {
    "ws://127.0.0.1:"@ + decimal(ws_port as nat) + "/sc2api"@
}

/// The arguments with which the engine is started: it listens on the local
/// host at `ws_port`, reads its data from `data_dir`, shows no window and
/// keeps its temporary files in `temp_dir`.
pub fn engine_args(ws_port: u16, data_dir: &str, temp_dir: &str) -> (args: Vec<String>)
    ensures
        args.deep_view() == launch_args(ws_port, data_dir@, temp_dir@),
{
    let mut args: Vec<String> = Vec::new();
    args.push(String::from_str("-listen"));
    args.push(String::from_str("127.0.0.1"));
    args.push(String::from_str("-port"));
    args.push(string_of(&decimal_text(ws_port as u64)));
    args.push(String::from_str("-dataDir"));
    args.push(String::from_str(data_dir));
    args.push(String::from_str("-displayMode"));
    args.push(String::from_str("0"));
    args.push(String::from_str("-tempDir"));
    args.push(String::from_str(temp_dir));
    assert(args.deep_view() =~= launch_args(ws_port, data_dir@, temp_dir@));
    args
}

/// The address of the engine's socket.
pub fn engine_url(ws_port: u16) -> (url: String)
    ensures
        url@ == socket_url(ws_port),
{
    let head = join_text(&chars_of("ws://127.0.0.1:"), &decimal_text(ws_port as u64));
    string_of(&join_text(&head, &chars_of("/sc2api")))
}

/// What the caller does after the try number `attempt`, counted from 0: a
/// connection is used, a refusal is tried again while tries are left, a try
/// that took too long ends the connecting.
pub fn connect_step(attempt: u32, outcome: ConnectTry) -> (step: ConnectStep)
    ensures
        step == (match outcome {
            ConnectTry::Connected => ConnectStep::Handshake,
            ConnectTry::Refused => if attempt + 1 < CONNECT_ATTEMPTS {
                ConnectStep::Retry
            } else {
                ConnectStep::GiveUp
            },
            ConnectTry::TimedOut => ConnectStep::GiveUp,
            ConnectTry::Failed => ConnectStep::Fail,
        }),
{
    match outcome {
        ConnectTry::Connected => ConnectStep::Handshake,
        ConnectTry::Refused => if attempt < CONNECT_ATTEMPTS - 1 {
            ConnectStep::Retry
        } else {
            ConnectStep::GiveUp
        },
        ConnectTry::TimedOut => ConnectStep::GiveUp,
        ConnectTry::Failed => ConnectStep::Fail,
    }
}

} // verus!
