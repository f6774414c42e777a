//! A finished game as stored, and how one is shown.

use vstd::prelude::*;
use vstd::string::*;
use crate::catalog::{Background, CodeError, God, Species};
use crate::text::{duration_text, seconds_to_humantime, text_eq};

verus! {

/// The termination message of a won game.
pub open spec fn victory_message() -> Seq<char> {
    "escaped with the Orb"@
}

/// One finished game, as the record store holds it.
pub struct GameRecord {
    /// The player's handle.
    pub name: String,
    pub species_id: i64,
    pub background_id: i64,
    pub god_id: i64,
    pub score: i64,
    /// How many runes the character held at the end.
    pub runes: i64,
    /// Experience level at the end.
    pub xl: i64,
    /// Real time played, in seconds.
    pub dur: i64,
    /// Game turns played.
    pub turn: i64,
    /// How the game ended.
    pub tmsg: String,
    /// Where the game ended.
    pub place: String,
    /// When the game ended, in seconds since the epoch.
    pub end: i64,
}

/// A stored morgue file's summary line.
pub struct DbMorgue {
    pub file_name: String,
    pub name: String,
    pub version: String,
    pub score: i64,
    pub race: i64,
    pub background: i64,
}

impl GameRecord {
    /// The game was won.
    pub open spec fn spec_is_victory(&self) -> bool {
        self.tmsg@ == victory_message()
    }

    /// Whether the game was won: its termination message is exactly the
    /// victory message.
    pub fn is_victory(&self) -> (r: bool)
        ensures
            r == self.spec_is_victory(),
    {
        text_eq(self.tmsg.as_str(), "escaped with the Orb")
    }
}

/// The known handles and the nicknames they are shown under.
pub open spec fn nickname_table() -> Seq<(Seq<char>, Seq<char>)> {
    seq![
        ("brick"@, "Richard"@),
        ("Peen"@, "Paul"@),
        ("paul"@, "Paul"@),
        ("max"@, "Max"@),
        ("PunishedMax"@, "Max"@),
        ("OgreStreak"@, "Max"@),
        ("daddy"@, "James"@),
        ("fuckboy3000"@, "James"@),
        ("peepeedarts"@, "James"@),
        ("sweetBro"@, "Luca"@),
        ("hellaJeff"@, "Ben H"@),
        ("bigBootyJudy"@, "Ben H"@),
        ("Richard"@, "Ben S"@),
        ("BoonShekel"@, "Ben S"@),
        ("THEBLIMP"@, "Ben S"@),
        ("xXBloodSuckerXx"@, "Ben S"@),
        ("bobjr93"@, "Brennan"@),
        ("jish"@, "Josh S"@),
        ("GrapeApe"@, "Mason C."@),
        ("Doomlord5"@, "Dan"@),
        ("MikeyBoy"@, "Mike"@),
        ("BigSweetPP"@, "Seth"@),
        ("Idyll"@, "Emma"@),
    ]
}

/// The nickname of the first entry of `table` whose handle is `handle`, or
/// "?" when there is none.
pub open spec fn lookup_nickname(table: Seq<(Seq<char>, Seq<char>)>, handle: Seq<char>) -> Seq<char>
    decreases table.len(),
{
    if table.len() == 0 {
        "?"@
    } else if table[0].0 == handle {
        table[0].1
    } else {
        lookup_nickname(table.drop_first(), handle)
    }
}

/// The nickname a handle is shown under.
pub open spec fn nickname_of(handle: Seq<char>) -> Seq<char> {
    lookup_nickname(nickname_table(), handle)
}

fn nickname_entries() -> (r: Vec<(&'static str, &'static str)>)
    ensures
        r@.len() == nickname_table().len(),
        forall|i: int| 0 <= i < r@.len() ==> (#[trigger] r@[i]).0@ == nickname_table()[i].0
            && r@[i].1@ == nickname_table()[i].1,
{
    vec![
        ("brick", "Richard"),
        ("Peen", "Paul"),
        ("paul", "Paul"),
        ("max", "Max"),
        ("PunishedMax", "Max"),
        ("OgreStreak", "Max"),
        ("daddy", "James"),
        ("fuckboy3000", "James"),
        ("peepeedarts", "James"),
        ("sweetBro", "Luca"),
        ("hellaJeff", "Ben H"),
        ("bigBootyJudy", "Ben H"),
        ("Richard", "Ben S"),
        ("BoonShekel", "Ben S"),
        ("THEBLIMP", "Ben S"),
        ("xXBloodSuckerXx", "Ben S"),
        ("bobjr93", "Brennan"),
        ("jish", "Josh S"),
        ("GrapeApe", "Mason C."),
        ("Doomlord5", "Dan"),
        ("MikeyBoy", "Mike"),
        ("BigSweetPP", "Seth"),
        ("Idyll", "Emma"),
    ]
}

/// The nickname a player's handle is shown under; "?" for an unknown handle.
pub fn real_name(handle: &str) -> (r: String)
    ensures
        r@ == nickname_of(handle@),
{
    let entries = nickname_entries();
    let mut i: usize = 0;
    assert(nickname_table().skip(0) =~= nickname_table());
    while i < entries.len()
        invariant
            entries@.len() == nickname_table().len(),
            forall|k: int| 0 <= k < entries@.len() ==> (#[trigger] entries@[k]).0@ == nickname_table()[k].0
                && entries@[k].1@ == nickname_table()[k].1,
            i <= entries@.len(),
            nickname_of(handle@) == lookup_nickname(nickname_table().skip(i as int), handle@),
        decreases entries@.len() - i,
    {
        let (known, nickname) = entries[i];
        assert(nickname_table().skip(i as int).drop_first() =~= nickname_table().skip(i + 1));
        if text_eq(handle, known) {
            return String::from_str(nickname);
        }
        i = i + 1;
    }
    assert(nickname_table().skip(i as int).len() == 0);
    String::from_str("?")
}

/// The error for the first unknown code of a record, species checked first,
/// then background, then god; none when all three are known.
pub open spec fn code_check(species_id: i64, background_id: i64, god_id: i64) -> Option<CodeError> {
    if Species::spec_from_code(species_id as int) is None {
        Some(CodeError::UnknownSpecies(species_id))
    } else if Background::spec_from_code(background_id as int) is None {
        Some(CodeError::UnknownBackground(background_id))
    } else if God::spec_from_code(god_id as int) is None {
        Some(CodeError::UnknownGod(god_id))
    } else {
        None
    }
}

/// A game as it is shown on the hiscore page.
pub struct FormattedGame {
    /// The nickname of the player.
    pub real_name: String,
    /// The player's handle.
    pub name: String,
    pub score: i64,
    pub species: String,
    pub background: String,
    pub god: String,
    pub runes: i64,
    pub xl: i64,
    pub victory: bool,
    /// The real time played, as text.
    pub duration: String,
    pub turns: i64,
}

impl FormattedGame {
    /// `self` is how `game` is shown, given that its three codes are known.
    pub open spec fn shows(self, game: GameRecord) -> bool {
        &&& self.real_name@ == nickname_of(game.name@)
        &&& self.name@ == game.name@
        &&& self.score == game.score
        &&& self.species@ == (Species::spec_from_code(game.species_id as int)->Some_0).spec_label()
        &&& self.background@ == (Background::spec_from_code(
            game.background_id as int,
        )->Some_0).spec_label()
        &&& self.god@ == (God::spec_from_code(game.god_id as int)->Some_0).spec_label()
        &&& self.runes == game.runes
        &&& self.xl == game.xl
        &&& self.victory == game.spec_is_victory()
        &&& self.duration@ == duration_text(game.dur as int)
        &&& self.turns == game.turn
    }

    /// The display form of a record: codes become labels, the handle gets its
    /// nickname, the duration becomes text. An unknown code is an error.
    pub fn from_record(game: &GameRecord) -> (r: Result<FormattedGame, CodeError>)
        ensures
            code_check(game.species_id, game.background_id, game.god_id) matches Some(e) ==> r
                == Err::<FormattedGame, CodeError>(e),
            code_check(game.species_id, game.background_id, game.god_id) is None ==> (r matches Ok(
                f,
            ) && f.shows(*game)),
    {
        let species = match Species::from_code(game.species_id) {
            Some(s) => s,
            None => {
                return Err(CodeError::UnknownSpecies(game.species_id));
            },
        };
        let background = match Background::from_code(game.background_id) {
            Some(b) => b,
            None => {
                return Err(CodeError::UnknownBackground(game.background_id));
            },
        };
        let god = match God::from_code(game.god_id) {
            Some(g) => g,
            None => {
                return Err(CodeError::UnknownGod(game.god_id));
            },
        };
        let victory = game.is_victory();
        let real_name = real_name(game.name.as_str());
        let duration = seconds_to_humantime(game.dur);
        Ok(FormattedGame {
            real_name,
            name: game.name.clone(),
            score: game.score,
            species: species.label(),
            background: background.label(),
            god: god.label(),
            runes: game.runes,
            xl: game.xl,
            victory,
            duration,
            turns: game.turn,
        })
    }
}

} // verus!
