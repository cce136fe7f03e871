//! Match arbiter and protocol proxy for two StarCraft II bots on one host.
//!
//! The arbiter runs one engine for each bot, relays the requests of a bot to
//! its engine and the answers back, brings both engines into one game, ends
//! the game when a bot wins, leaves, vanishes or runs out of time, and
//! reports the result to a supervisor.
//!
//! This library holds the decisions of the arbiter, proved against their
//! contracts; it opens no socket, starts no process and reads no file. A
//! caller does these things, tells the library what happened, and carries
//! out the step that the library returns.
//!
//! - [`controller`]: the state machine of a match, from the supervisor's
//!   connection to the report.
//! - [`handler`]: the lobby and its handshake, the driver of each player,
//!   and the runner that gathers the outcomes.
//! - [`proto`]: the boundary to the engine protocol, whose messages the
//!   `protobuf` runtime decodes and encodes; what is stated there is
//!   trusted, not proved.
//! - [`config`], [`result`], [`sc2`]: the configuration of a match, its
//!   report, and the races and outcomes of the game.
//! - [`paths`], [`maps`], [`build_info`], [`sc2process`], [`portconfig`],
//!   [`proxy`], [`server`]: where the engine and its maps are found, how an
//!   engine is started and reached, the ports of a match, and how a
//!   connection is told to be the supervisor's.
//! - [`text`]: texts as sequences of characters.

pub mod build_info;
pub mod config;
pub mod controller;
pub mod handler;
pub mod maps;
pub mod paths;
pub mod portconfig;
pub mod proto;
pub mod proxy;
pub mod result;
pub mod sc2;
pub mod sc2process;
pub mod server;
pub mod text;
