//! The per-player summary: games, wins, win rate, favourite choices, the
//! commonest cause of death and place of death, and runes collected.

use vstd::prelude::*;
use vstd::string::*;
use crate::catalog::{Background, CodeError, God, Species};
use crate::freq::{all_known, code_texts, coded_favourite, favourite, first_unknown, is_favourite, texts};
use crate::record::GameRecord;
use crate::seqs::{lemma_filter_push, lemma_map_push};
use crate::text::{digit_str, nat_digits, push_nat, two_digits};

verus! {

broadcast use vstd::seq_lib::group_seq_properties;

/// The win rate as a percentage with two decimals, rounded half up, or
/// "N/A" when no game was played.
pub open spec fn win_rate_text(wins: nat, games: nat) -> Seq<char> {
    if games == 0 {
        "N/A"@
    } else {
        let hundredths = (wins * 20000 + games) / (2 * games);
        nat_digits(hundredths / 100) + "."@ + two_digits(hundredths % 100)
    }
}

/// Renders `wins` out of `games` as a percentage with two decimals ("50.00"),
/// rounded half up; "N/A" when `games` is zero.
pub fn win_rate(wins: usize, games: usize) -> (r: String)
    requires
        wins <= games,
    ensures
        r@ == win_rate_text(wins as nat, games as nat),
{
    if games == 0 {
        return String::from_str("N/A");
    }
    let w = wins as u128;
    let g = games as u128;
    let hundredths: u128 = (w * 20000 + g) / (2 * g);
    assert(hundredths <= 10000) by (nonlinear_arith)
        requires
            hundredths == (w * 20000 + g) / (2 * g),
            w <= g,
            g > 0,
    ;
    proof {
        reveal_strlit(".");
    }
    let mut out = String::new();
    push_nat(&mut out, (hundredths / 100) as u64);
    out.append(".");
    let rest = (hundredths % 100) as u64;
    out.append(digit_str(rest / 10));
    out.append(digit_str(rest % 10));
    assert(out@ =~= win_rate_text(wins as nat, games as nat));
    out
}

/// The game was played by `name`; every game when no name is given.
pub open spec fn played_by(name: Option<String>) -> spec_fn(GameRecord) -> bool {
    |g: GameRecord| name matches Some(n) ==> g.name@ == n@
}

/// The games of `rows` that `name` played, in stored order.
pub open spec fn player_games(rows: Seq<GameRecord>, name: Option<String>) -> Seq<GameRecord> {
    rows.filter(played_by(name))
}

/// The termination messages of a game that ended other than by death.
pub open spec fn is_exit_message(t: Seq<char>) -> bool {
    ||| t == "got out of the dungeon alive"@
    ||| t == "quit the game"@
    ||| t == "safely got out of the dungeon"@
}

/// The game was won.
pub open spec fn won() -> spec_fn(GameRecord) -> bool {
    |g: GameRecord| g.spec_is_victory()
}

/// The character worshipped some god.
pub open spec fn had_god() -> spec_fn(GameRecord) -> bool {
    |g: GameRecord| g.god_id != God::Atheist.spec_code()
}

/// The game ended in death.
pub open spec fn died() -> spec_fn(GameRecord) -> bool {
    |g: GameRecord| !is_exit_message(g.tmsg@)
}

pub open spec fn species_codes(games: Seq<GameRecord>) -> Seq<i64> {
    games.map_values(|g: GameRecord| g.species_id)
}

pub open spec fn background_codes(games: Seq<GameRecord>) -> Seq<i64> {
    games.map_values(|g: GameRecord| g.background_id)
}

/// The codes of the gods worshipped, games without a god left out.
pub open spec fn god_codes(games: Seq<GameRecord>) -> Seq<i64> {
    games.filter(had_god()).map_values(|g: GameRecord| g.god_id)
}

/// The causes of death, games that ended otherwise left out.
pub open spec fn death_causes(games: Seq<GameRecord>) -> Seq<Seq<char>> {
    games.filter(died()).map_values(|g: GameRecord| g.tmsg@)
}

pub open spec fn final_places(games: Seq<GameRecord>) -> Seq<Seq<char>> {
    games.map_values(|g: GameRecord| g.place@)
}

/// The runes of all `games` together.
pub open spec fn rune_total(games: Seq<GameRecord>) -> int
    decreases games.len(),
{
    if games.len() == 0 {
        0
    } else {
        rune_total(games.drop_last()) + games.last().runes
    }
}

/// A player's summary, or the server's when no player is named.
pub struct UserContext {
    pub fav_species: String,
    pub fav_background: String,
    /// The favourite god, games without one left out.
    pub fav_god: String,
    pub wins: usize,
    pub games: usize,
    pub winrate: String,
    pub name: String,
    /// The commonest cause of death.
    pub nemesis: String,
    /// The commonest place where games ended.
    pub death_spot: String,
    pub num_runes: i128,
}

/// The columns of a player's games that the summary is computed from.
struct Columns {
    species: Vec<i64>,
    backgrounds: Vec<i64>,
    gods: Vec<i64>,
    deaths: Vec<String>,
    places: Vec<String>,
    wins: usize,
    games: usize,
    runes: i128,
}

fn collect_columns(rows: &Vec<GameRecord>, name: &Option<String>) -> (c: Columns)
    ensures
        c.games == player_games(rows@, *name).len(),
        c.wins == player_games(rows@, *name).filter(won()).len(),
        c.runes == rune_total(player_games(rows@, *name)),
        c.species@ == species_codes(player_games(rows@, *name)),
        c.backgrounds@ == background_codes(player_games(rows@, *name)),
        c.gods@ == god_codes(player_games(rows@, *name)),
        texts(c.deaths@) == death_causes(player_games(rows@, *name)),
        texts(c.places@) == final_places(player_games(rows@, *name)),
{
    let mut c = Columns {
        species: Vec::new(),
        backgrounds: Vec::new(),
        gods: Vec::new(),
        deaths: Vec::new(),
        places: Vec::new(),
        wins: 0,
        games: 0,
        runes: 0,
    };
    let atheist = God::Atheist.code();
    let exits = [
        String::from_str("got out of the dungeon alive"),
        String::from_str("quit the game"),
        String::from_str("safely got out of the dungeon"),
    ];
    let mut i: usize = 0;
    proof {
        reveal_with_fuel(Seq::filter, 1);
        assert(rows@.take(0) =~= Seq::<GameRecord>::empty());
        assert(species_codes(player_games(rows@.take(0), *name)) =~= c.species@);
        assert(background_codes(player_games(rows@.take(0), *name)) =~= c.backgrounds@);
        assert(god_codes(player_games(rows@.take(0), *name)) =~= c.gods@);
        assert(death_causes(player_games(rows@.take(0), *name)) =~= texts(c.deaths@));
        assert(final_places(player_games(rows@.take(0), *name)) =~= texts(c.places@));
    }
    while i < rows.len()
        invariant
            i <= rows@.len(),
            atheist == God::Atheist.spec_code(),
            exits@[0]@ == "got out of the dungeon alive"@,
            exits@[1]@ == "quit the game"@,
            exits@[2]@ == "safely got out of the dungeon"@,
            c.games == player_games(rows@.take(i as int), *name).len(),
            c.games <= i,
            c.wins == player_games(rows@.take(i as int), *name).filter(won()).len(),
            c.wins <= c.games,
            c.runes == rune_total(player_games(rows@.take(i as int), *name)),
            -(c.games * 9223372036854775808) <= c.runes <= c.games * 9223372036854775807,
            c.species@ == species_codes(player_games(rows@.take(i as int), *name)),
            c.backgrounds@ == background_codes(player_games(rows@.take(i as int), *name)),
            c.gods@ == god_codes(player_games(rows@.take(i as int), *name)),
            texts(c.deaths@) == death_causes(player_games(rows@.take(i as int), *name)),
            texts(c.places@) == final_places(player_games(rows@.take(i as int), *name)),
        decreases rows@.len() - i,
    {
        let g = &rows[i];
        let ghost before = player_games(rows@.take(i as int), *name);
        proof {
            assert(rows@.take(i + 1) =~= rows@.take(i as int).push(*g));
            lemma_filter_push(rows@.take(i as int), *g, played_by(*name));
        }
        let mine = match name {
            Some(n) => g.name == *n,
            None => true,
        };
        if mine {
            let ghost after = before.push(*g);
            proof {
                lemma_filter_push(before, *g, won());
                lemma_filter_push(before, *g, had_god());
                lemma_filter_push(before, *g, died());
                before.lemma_filter_len(won());
                lemma_map_push(before, *g, |g: GameRecord| g.species_id);
                lemma_map_push(before, *g, |g: GameRecord| g.background_id);
                lemma_map_push(before, *g, |g: GameRecord| g.place@);
                lemma_map_push(before.filter(had_god()), *g, |g: GameRecord| g.god_id);
                lemma_map_push(before.filter(died()), *g, |g: GameRecord| g.tmsg@);
                assert(after.drop_last() =~= before);
            }
            c.games = c.games + 1;
            if g.is_victory() {
                c.wins = c.wins + 1;
            }
            c.runes = c.runes + g.runes as i128;
            c.species.push(g.species_id);
            c.backgrounds.push(g.background_id);
            if g.god_id != atheist {
                c.gods.push(g.god_id);
            }
            if !(g.tmsg == exits[0] || g.tmsg == exits[1] || g.tmsg == exits[2]) {
                let ghost old_deaths = c.deaths@;
                c.deaths.push(g.tmsg.clone());
                assert(texts(c.deaths@) =~= texts(old_deaths).push(g.tmsg@));
            }
            let ghost old_places = c.places@;
            c.places.push(g.place.clone());
            assert(texts(c.places@) =~= texts(old_places).push(g.place@));
        }
        i = i + 1;
    }
    proof {
        assert(rows@.take(rows@.len() as int) =~= rows@);
    }
    c
}

/// The summary of the games that `name` played (every game when no name is
/// given): how many, how many won and at what rate, the favourite species,
/// background and god, the commonest cause and place of death, and the runes
/// collected. A stored code that names no value is an error: species codes
/// are checked first, then backgrounds, then the gods of games with one.
pub fn user_context(rows: &Vec<GameRecord>, name: Option<String>) -> (r: Result<UserContext, CodeError>)
    ensures
        ({
            let games = player_games(rows@, name);
            &&& !all_known::<Species>(species_codes(games)) ==> exists|i: int|
                first_unknown::<Species>(species_codes(games), i) && r == Err::<UserContext, CodeError>(
                    CodeError::UnknownSpecies(#[trigger] species_codes(games)[i]),
                )
            &&& all_known::<Species>(species_codes(games)) && !all_known::<Background>(background_codes(games))
                ==> exists|i: int|
                first_unknown::<Background>(background_codes(games), i) && r == Err::<UserContext, CodeError>(
                    CodeError::UnknownBackground(#[trigger] background_codes(games)[i]),
                )
            &&& all_known::<Species>(species_codes(games)) && all_known::<Background>(background_codes(games))
                && !all_known::<God>(god_codes(games)) ==> exists|i: int|
                first_unknown::<God>(god_codes(games), i) && r == Err::<UserContext, CodeError>(
                    CodeError::UnknownGod(#[trigger] god_codes(games)[i]),
                )
            &&& all_known::<Species>(species_codes(games)) && all_known::<Background>(background_codes(games))
                && all_known::<God>(god_codes(games)) ==> r is Ok
        }),
        player_games(rows@, name).len() == 0 ==> (r matches Ok(u) && u.games == 0 && u.winrate@ == "N/A"@),
        r matches Ok(u) ==> ({
            let games = player_games(rows@, name);
            &&& u.games == games.len()
            &&& u.wins == games.filter(won()).len()
            &&& u.winrate@ == win_rate_text(u.wins as nat, u.games as nat)
            &&& u.name@ == (if name is Some { name->Some_0@ } else { "Server"@ })
            &&& u.num_runes == rune_total(games)
            &&& is_favourite(u.fav_species@, code_texts::<Species>(species_codes(games)))
            &&& is_favourite(u.fav_background@, code_texts::<Background>(background_codes(games)))
            &&& is_favourite(u.fav_god@, code_texts::<God>(god_codes(games)))
            &&& is_favourite(u.nemesis@, death_causes(games))
            &&& is_favourite(u.death_spot@, final_places(games))
        }),
{
    let c = collect_columns(rows, &name);
    proof {
        player_games(rows@, name).lemma_filter_len(had_god());
    }
    let fav_species = match coded_favourite::<Species>(&c.species) {
        Ok(f) => f,
        Err(e) => {
            return Err(e);
        },
    };
    let fav_background = match coded_favourite::<Background>(&c.backgrounds) {
        Ok(f) => f,
        Err(e) => {
            return Err(e);
        },
    };
    let fav_god = match coded_favourite::<God>(&c.gods) {
        Ok(f) => f,
        Err(e) => {
            return Err(e);
        },
    };
    let nemesis = favourite(&c.deaths);
    let death_spot = favourite(&c.places);
    let winrate = win_rate(c.wins, c.games);
    let name = match name {
        Some(n) => n,
        None => String::from_str("Server"),
    };
    Ok(UserContext {
        fav_species,
        fav_background,
        fav_god,
        wins: c.wins,
        games: c.games,
        winrate,
        name,
        nemesis,
        death_spot,
        num_runes: c.runes,
    })
}

} // verus!
