//! The ports that the two engines of a match use to find each other.

use vstd::prelude::*;
use crate::proto::{join_contents, set_client_ports, set_server_ports, set_shared_port, JoinContents};
use sc2_proto::sc2api::RequestJoinGame;

verus! {

/// Full set of ports needed by the engines of one match.
#[derive(Debug, Clone, Copy, PartialEq, Eq, Structural)]
pub struct PortConfig {
    pub shared: u16,
    pub server_game: u16,
    pub server_base: u16,
    pub client_game: u16,
    pub client_base: u16,
}

/// `portpicker::pick_unused_port`: a port that was free on TCP and UDP when
/// it was tried, or `None` where none was found. The port is picked at
/// random, so nothing is stated of it.
#[verifier::external_body]
fn pick_port() -> (port: Option<u16>) {
    portpicker::pick_unused_port()
}

impl PortConfig {
    /// What a join request holds once these ports are applied to a request
    /// that held `before`.
    pub open spec fn applied(self, before: JoinContents, singleplayer: bool) -> JoinContents {
        if singleplayer {
            JoinContents { shared_port: Some(self.shared as i32), ..before }
        } else {
            JoinContents {
                shared_port: Some(self.shared as i32),
                server_ports: Some((self.server_game as i32, self.server_base as i32)),
                client_ports: seq![(self.client_game as i32, self.client_base as i32)],
                ..before
            }
        }
    }

    /// The port configuration of five picked ports: none where a pick
    /// failed.
    pub fn from_picks(
        shared: Option<u16>,
        server_game: Option<u16>,
        server_base: Option<u16>,
        client_game: Option<u16>,
        client_base: Option<u16>,
    ) -> (config: Option<PortConfig>)
        ensures
            config == (if shared is Some && server_game is Some && server_base is Some
                && client_game is Some && client_base is Some {
                Some(
                    PortConfig {
                        shared: shared->Some_0,
                        server_game: server_game->Some_0,
                        server_base: server_base->Some_0,
                        client_game: client_game->Some_0,
                        client_base: client_base->Some_0,
                    },
                )
            } else {
                None
            }),
    {
        match (shared, server_game, server_base, client_game, client_base) {
            (Some(shared), Some(server_game), Some(server_base), Some(client_game), Some(client_base)) => Some(
                PortConfig { shared, server_game, server_base, client_game, client_base },
            ),
            _ => None,
        }
    }

    /// A set of five ports that were free when they were picked; none where
    /// a pick failed. No pick is made after one that failed.
    pub fn new() -> (config: Option<PortConfig>) {
        let shared = pick_port();
        if shared.is_none() {
            return None;
        }
        let server_game = pick_port();
        if server_game.is_none() {
            return None;
        }
        let server_base = pick_port();
        if server_base.is_none() {
            return None;
        }
        let client_game = pick_port();
        if client_game.is_none() {
            return None;
        }
        let client_base = pick_port();
        PortConfig::from_picks(shared, server_game, server_base, client_game, client_base)
    }

    /// Applies the ports to a join request: the shared port, and for a game
    /// of more than one player the ports of the hosting engine and one set
    /// of ports for the joining engine.
    pub fn apply_proto(&self, req: &mut RequestJoinGame, singleplayer: bool)
        ensures
            join_contents(*final(req)) == self.applied(join_contents(*old(req)), singleplayer),
    {
        set_shared_port(req, self.shared as i32);
        if !singleplayer {
            set_server_ports(req, self.server_game as i32, self.server_base as i32);
            set_client_ports(req, self.client_game as i32, self.client_base as i32);
        }
    }
}

} // verus!
