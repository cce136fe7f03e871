//! The match report that the supervisor receives when a match is over.

use vstd::prelude::*;
use vstd::string::StringExecFns;
use crate::config::Config;
use crate::handler::game::GameResult;
use crate::handler::player::Player;
use crate::handler::tags::copy_tags;
use crate::sc2::PlayerResult;
use crate::text::{chars_of, same_text};

verus! {

/// The entries `items` of a record with the value of `key` set to `value`:
/// the value of the first entry under that key is replaced, and where there
/// is none a new entry is added at the end.
pub open spec fn with_entry<V>(items: Seq<(Seq<char>, V)>, key: Seq<char>, value: V) -> Seq<
    (Seq<char>, V),
>
    decreases items.len(),
{
    if items.len() == 0 {
        seq![(key, value)]
    } else if items[0].0 == key {
        seq![(key, value)] + items.drop_first()
    } else {
        seq![items[0]] + with_entry(items.drop_first(), key, value)
    }
}

/// The entries of a record as mathematical values.
pub open spec fn entries<V: DeepView>(items: Seq<(String, V)>) -> Seq<(Seq<char>, V::V)> {
    items.map_values(|e: (String, V)| (e.0@, e.1.deep_view()))
}

/// Whether no two entries have the same key.
pub open spec fn distinct_keys<V>(items: Seq<(Seq<char>, V)>) -> bool {
    forall|i: int, j: int| 0 <= i < j < items.len() ==> items[i].0 != items[j].0
}

/// Setting a key that the first `i` entries do not have, and the next one
/// has, replaces the value of that entry.
pub proof fn with_entry_replaces<V>(items: Seq<(Seq<char>, V)>, key: Seq<char>, value: V, i: int)
    requires
        0 <= i < items.len(),
        items[i].0 == key,
        forall|k: int| 0 <= k < i ==> items[k].0 != key,
    ensures
        with_entry(items, key, value) == items.update(i, (key, value)),
    decreases items.len(),
{
    if i == 0 {
        assert(seq![(key, value)] + items.drop_first() =~= items.update(0, (key, value)));
    } else {
        with_entry_replaces(items.drop_first(), key, value, i - 1);
        assert(seq![items[0]] + items.drop_first().update(i - 1, (key, value)) =~= items.update(
            i,
            (key, value),
        ));
    }
}

/// Setting a key that no entry has adds an entry at the end.
pub proof fn with_entry_appends<V>(items: Seq<(Seq<char>, V)>, key: Seq<char>, value: V)
    requires
        forall|k: int| 0 <= k < items.len() ==> items[k].0 != key,
    ensures
        with_entry(items, key, value) == items.push((key, value)),
    decreases items.len(),
{
    if items.len() == 0 {
        assert(seq![(key, value)] =~= items.push((key, value)));
    } else {
        with_entry_appends(items.drop_first(), key, value);
        assert(seq![items[0]] + items.drop_first().push((key, value)) =~= items.push(
            (key, value),
        ));
    }
}

/// Setting a key keeps the keys of a record pairwise different.
pub proof fn with_entry_keeps_keys_distinct<V>(
    items: Seq<(Seq<char>, V)>,
    key: Seq<char>,
    value: V,
)
    requires
        distinct_keys(items),
    ensures
        distinct_keys(with_entry(items, key, value)),
        with_entry(items, key, value).len() >= 1,
{
    if exists|i: int| 0 <= i < items.len() && items[i].0 == key {
        let i = choose|i: int| 0 <= i < items.len() && items[i].0 == key;
        assert forall|k: int| 0 <= k < i implies items[k].0 != key by {}
        with_entry_replaces(items, key, value, i);
    } else {
        with_entry_appends(items, key, value);
    }
}

/// Sets the value of `key` in the entries of a record.
pub fn set_entry<V: DeepView>(items: &mut Vec<(String, V)>, key: String, value: V)
    ensures
        entries(final(items)@) == with_entry(entries(old(items)@), key@, value.deep_view()),
{
    let wanted = chars_of(key.as_str());
    let mut i: usize = 0;
    while i < items.len()
        invariant
            i <= items.len(),
            *items == *old(items),
            wanted@ == key@,
            forall|k: int| 0 <= k < i ==> entries(items@)[k].0 != key@,
        decreases items.len() - i,
    {
        let have = chars_of(items[i].0.as_str());
        if same_text(&have, &wanted) {
            proof {
                with_entry_replaces(entries(items@), key@, value.deep_view(), i as int);
            }
            let _ = items.remove(i);
            items.insert(i, (key, value));
            assert(entries(items@) =~= entries(old(items)@).update(
                i as int,
                (key@, value.deep_view()),
            ));
            return ;
        }
        assert(entries(items@)[i as int].0 == items@[i as int].0@);
        i += 1;
    }
    proof {
        with_entry_appends(entries(items@), key@, value.deep_view());
    }
    items.push((key, value));
    assert(entries(items@) =~= entries(old(items)@).push((key@, value.deep_view())));
}

/// Report of a finished match. Records are lists of entries with pairwise
/// different keys, in the order in which the keys were first set. Times are
/// in microseconds.
#[derive(Debug, Clone, Default, PartialEq, Eq)]
pub struct JsonResult {
    pub match_id: i64,
    /// Outcome of each bot, by name.
    pub result: Vec<(String, String)>,
    /// Game loops played.
    pub game_time: u32,
    pub game_time_formatted: String,
    /// Mean frame time of each bot, by name.
    pub average_frame_time: Vec<(String, u64)>,
    pub status: String,
    /// Name of each bot, by player number.
    pub bots: Vec<(u8, String)>,
    pub map: String,
    pub replay_path: String,
    /// Tags of each bot, by name.
    pub tags: Vec<(String, Vec<String>)>,
}

/// The name of a player that has one.
pub open spec fn name_of(player: Player) -> Seq<char> {
    player.data.name->Some_0@
}

/// Whether every player has a name.
pub open spec fn all_named(players: Seq<Player>) -> bool {
    forall|i: int| 0 <= i < players.len() ==> (#[trigger] players[i]).data.name is Some
}

/// The mean frame times of the first `count` players, by name.
pub open spec fn frame_times_of(players: Seq<Player>, count: int) -> Seq<(Seq<char>, u64)>
    decreases count,
{
    if count <= 0 {
        Seq::empty()
    } else {
        with_entry(
            frame_times_of(players, count - 1),
            name_of(players[count - 1]),
            players[count - 1].frame_time,
        )
    }
}

/// The tags of the first `count` players, by name.
pub open spec fn tags_of(players: Seq<Player>, count: int) -> Seq<(Seq<char>, Seq<Seq<char>>)>
    decreases count,
{
    if count <= 0 {
        Seq::empty()
    } else {
        with_entry(
            tags_of(players, count - 1),
            name_of(players[count - 1]),
            players[count - 1].tags.deep_view(),
        )
    }
}

/// The outcomes of the two players of a match, by the names `player1` and
/// `player2`.
pub open spec fn outcomes_of(
    player1: Seq<char>,
    player2: Seq<char>,
    results: Seq<PlayerResult>,
) -> Seq<(Seq<char>, Seq<char>)> {
    with_entry(
        with_entry(Seq::empty(), player1, results[0].name()),
        player2,
        results[1].name(),
    )
}

/// The names of the two players of a match, by player number.
pub open spec fn bots_of(player1: Seq<char>, player2: Seq<char>) -> Seq<(u8, Seq<char>)> {
    seq![(1u8, player1), (2u8, player2)]
}

/// The entries of the record of bots as mathematical values.
pub open spec fn bot_entries(bots: Seq<(u8, String)>) -> Seq<(u8, Seq<char>)> {
    bots.map_values(|b: (u8, String)| (b.0, b.1@))
}

/// Where the two bots of a match go by different names, the record of
/// outcomes has exactly two entries: one under the name of player 1 and one
/// under the name of player 2, each with the outcome of that player.
pub proof fn outcomes_have_two_entries(
    player1: Seq<char>,
    player2: Seq<char>,
    results: Seq<PlayerResult>,
)
    requires
        player1 != player2,
    ensures
        outcomes_of(player1, player2, results) == seq![
            (player1, results[0].name()),
            (player2, results[1].name()),
        ],
        outcomes_of(player1, player2, results).len() == 2,
{
    let first = with_entry(Seq::<(Seq<char>, Seq<char>)>::empty(), player1, results[0].name());
    assert(first =~= seq![(player1, results[0].name())]);
    with_entry_appends(first, player2, results[1].name());
    assert(first.push((player2, results[1].name())) =~= seq![
        (player1, results[0].name()),
        (player2, results[1].name()),
    ]);
}

impl JsonResult {
    /// A report of the given parts; a part that is missing is empty or 0.
    pub fn from(
        result: Option<Vec<(String, String)>>,
        game_time: Option<u32>,
        game_time_formatted: Option<String>,
        average_frame_time: Option<Vec<(String, u64)>>,
        status: Option<String>,
        bots: Option<Vec<(u8, String)>>,
        map: Option<String>,
        replay_path: Option<String>,
        match_id: Option<i64>,
        tags: Option<Vec<(String, Vec<String>)>>,
    ) -> (report: JsonResult)
        ensures
            report.result@ == (match result {
                Some(r) => r@,
                None => Seq::empty(),
            }),
            report.game_time == (match game_time {
                Some(t) => t,
                None => 0,
            }),
            report.game_time_formatted@ == (match game_time_formatted {
                Some(t) => t@,
                None => Seq::empty(),
            }),
            report.average_frame_time@ == (match average_frame_time {
                Some(a) => a@,
                None => Seq::empty(),
            }),
            report.status@ == (match status {
                Some(s) => s@,
                None => Seq::empty(),
            }),
            report.bots@ == (match bots {
                Some(b) => b@,
                None => Seq::empty(),
            }),
            report.map@ == (match map {
                Some(m) => m@,
                None => Seq::empty(),
            }),
            report.replay_path@ == (match replay_path {
                Some(p) => p@,
                None => Seq::empty(),
            }),
            report.match_id == (match match_id {
                Some(id) => id,
                None => 0,
            }),
            report.tags@ == (match tags {
                Some(t) => t@,
                None => Seq::empty(),
            }),
    {
        JsonResult {
            result: match result {
                Some(r) => r,
                None => Vec::new(),
            },
            game_time: match game_time {
                Some(t) => t,
                None => 0,
            },
            game_time_formatted: match game_time_formatted {
                Some(t) => t,
                None => String::new(),
            },
            average_frame_time: match average_frame_time {
                Some(a) => a,
                None => Vec::new(),
            },
            status: match status {
                Some(s) => s,
                None => String::new(),
            },
            bots: match bots {
                Some(b) => b,
                None => Vec::new(),
            },
            map: match map {
                Some(m) => m,
                None => String::new(),
            },
            replay_path: match replay_path {
                Some(p) => p,
                None => String::new(),
            },
            match_id: match match_id {
                Some(id) => id,
                None => 0,
            },
            tags: match tags {
                Some(t) => t,
                None => Vec::new(),
            },
        }
    }

    /// Whether this is the report of a match with the configuration
    /// `config` that ended with `result`, with the drivers `players` left.
    ///
    /// The outcomes go by the names of the configuration, player 1 first;
    /// the mean frame times and the tags go by the names of the drivers. The
    /// status is `Complete`; the replay is reported under its configured
    /// name.
    pub open spec fn reports(self, config: Config, result: GameResult, players: Seq<Player>) -> bool {
        &&& self.match_id == config.match_id
        &&& entries(self.result@) == outcomes_of(
            config.player1@,
            config.player2@,
            result.player_results@,
        )
        &&& self.game_time == result.game_loops
        &&& self.game_time_formatted@ == Seq::<char>::empty()
        &&& entries(self.average_frame_time@) == frame_times_of(players, players.len() as int)
        &&& self.status@ == "Complete"@
        &&& bot_entries(self.bots@) == bots_of(config.player1@, config.player2@)
        &&& self.map@ == config.map@
        &&& self.replay_path@ == config.replay_name@
        &&& entries(self.tags@) == tags_of(players, players.len() as int)
    }

    /// The report of a match with the configuration `config` that ended
    /// with `result`, with the drivers `players` left. The result holds the
    /// outcomes of two players, and every driver has a name.
    pub fn of_game(config: &Config, result: &GameResult, players: &Vec<Player>) -> (report:
        JsonResult)
        requires
            result.player_results@.len() >= 2,
            all_named(players@),
        ensures
            report.reports(*config, *result, players@),
    {
        let mut average: Vec<(String, u64)> = Vec::new();
        let mut tags: Vec<(String, Vec<String>)> = Vec::new();
        assert(entries(average@) =~= frame_times_of(players@, 0));
        assert(entries(tags@) =~= tags_of(players@, 0));
        let mut i: usize = 0;
        while i < players.len()
            invariant
                i <= players.len(),
                all_named(players@),
                entries(average@) == frame_times_of(players@, i as int),
                entries(tags@) == tags_of(players@, i as int),
            decreases players.len() - i,
        {
            let player = &players[i];
            match &player.data.name {
                Some(name) => {
                    set_entry(&mut average, name.clone(), player.frame_time);
                    set_entry(&mut tags, name.clone(), copy_tags(&player.tags));
                },
                None => {},
            }
            i += 1;
        }
        let mut outcomes: Vec<(String, String)> = Vec::new();
        assert(entries(outcomes@) =~= Seq::<(Seq<char>, Seq<char>)>::empty());
        set_entry(&mut outcomes, config.player1.clone(), result.player_results[0].to_string());
        set_entry(&mut outcomes, config.player2.clone(), result.player_results[1].to_string());
        let mut bots: Vec<(u8, String)> = Vec::new();
        bots.push((1, config.player1.clone()));
        bots.push((2, config.player2.clone()));
        assert(bot_entries(bots@) =~= bots_of(config.player1@, config.player2@));
        JsonResult::from(
            Some(outcomes),
            Some(result.game_loops),
            None,
            Some(average),
            Some(String::from_str("Complete")),
            Some(bots),
            Some(config.map.clone()),
            Some(config.replay_name.clone()),
            Some(config.match_id),
            Some(tags),
        )
    }
}

} // verus!
