//! Race obfuscation: a bot does not learn the actual race of a player that
//! asked for a random race. In a `game_info` response every other player's
//! actual race reads as the requested one.

use vstd::prelude::*;
use crate::proto::{
    game_info_players, response_contents, response_kind, set_race_actual, PlayerInfoEntry,
    ResponseContents, ResponseKind,
};
use sc2_proto::sc2api::Response;

verus! {

/// A player of a `game_info` response as the player with id `own_id` may
/// see it: of every other player, the actual race reads as the requested
/// one.
pub open spec fn obfuscated(entry: PlayerInfoEntry, own_id: u32) -> PlayerInfoEntry {
    if entry.player_id != own_id {
        PlayerInfoEntry { race_actual: entry.race_requested, ..entry }
    } else {
        entry
    }
}

/// The players of a `game_info` response of which the first `count` are as
/// the player with id `own_id` may see them.
pub open spec fn obfuscated_upto(players: Seq<PlayerInfoEntry>, own_id: u32, count: int) -> Seq<
    PlayerInfoEntry,
> {
    Seq::new(
        players.len(),
        |k: int|
            if k < count {
                obfuscated(players[k], own_id)
            } else {
                players[k]
            },
    )
}

/// Whether a `game_info` response with these players shows the player with
/// id `own_id` the actual race of another player where it differs from the
/// requested one.
pub open spec fn needs_rewrite(players: Seq<PlayerInfoEntry>, own_id: u32) -> bool {
    exists|i: int| 0 <= i < players.len() && obfuscated(#[trigger] players[i], own_id) != players[i]
}

/// Executable form of [`needs_rewrite`].
pub fn rewrite_needed(players: &Vec<PlayerInfoEntry>, own_id: u32) -> (needed: bool)
    ensures
        needed == needs_rewrite(players@, own_id),
{
    let mut i: usize = 0;
    while i < players.len()
        invariant
            i <= players.len(),
            forall|k: int| 0 <= k < i ==> obfuscated(#[trigger] players@[k], own_id) == players@[k],
        decreases players.len() - i,
    {
        let entry = players[i];
        if entry.player_id != own_id && entry.race_actual != entry.race_requested {
            assert(obfuscated(players@[i as int], own_id) != players@[i as int]);
            return true;
        }
        i += 1;
    }
    false
}

/// Hides the actual races of the other players in a `game_info` response:
/// each reads as the race that the player asked for. Nothing else changes,
/// and no other response changes at all.
pub fn obfuscate_races(response: &mut Response, own_id: u32)
    ensures
        response_contents(*old(response)).kind != ResponseKind::GameInfo ==> *final(response)
            == *old(response),
        response_contents(*old(response)).kind == ResponseKind::GameInfo ==> response_contents(
            *final(response),
        ) == (ResponseContents {
            players: response_contents(*old(response)).players.map_values(
                |e: PlayerInfoEntry| obfuscated(e, own_id),
            ),
            ..response_contents(*old(response))
        }),
{
    match response_kind(response) {
        ResponseKind::GameInfo => {},
        _ => {
            return ;
        },
    }
    let ghost before = response_contents(*response);
    let players = game_info_players(response);
    let mut i: usize = 0;
    assert(obfuscated_upto(players@, own_id, 0) =~= players@);
    while i < players.len()
        invariant
            i <= players.len(),
            players@ == before.players,
            before.kind == ResponseKind::GameInfo,
            forall|k: int|
                0 <= k < players@.len() ==> (#[trigger] players@[k].race_requested matches Some(n)
                    ==> 0 <= n <= 4),
            response_contents(*response) == (ResponseContents {
                players: obfuscated_upto(players@, own_id, i as int),
                ..before
            }),
        decreases players.len() - i,
    {
        let entry = players[i];
        if entry.player_id != own_id {
            set_race_actual(response, i, entry.race_requested);
        }
        assert(response_contents(*response).players =~= obfuscated_upto(
            players@,
            own_id,
            i + 1,
        ));
        i += 1;
    }
    assert(obfuscated_upto(players@, own_id, players.len() as int) =~= players@.map_values(
        |e: PlayerInfoEntry| obfuscated(e, own_id),
    ));
}

/// In a `game_info` response whose races were hidden for the player with id
/// `own_id`, every other player's actual race equals the requested one, and
/// the player's own entry is untouched.
pub proof fn obfuscation_hides_opponents(players: Seq<PlayerInfoEntry>, own_id: u32, i: int)
    requires
        0 <= i < players.len(),
    ensures
        ({
            let seen = players.map_values(|e: PlayerInfoEntry| obfuscated(e, own_id));
            &&& seen.len() == players.len()
            &&& seen[i].player_id == players[i].player_id
            &&& seen[i].race_requested == players[i].race_requested
            &&& seen[i].player_id != own_id ==> seen[i].race_actual == seen[i].race_requested
            &&& seen[i].player_id == own_id ==> seen[i] == players[i]
        }),
{
}

} // verus!
