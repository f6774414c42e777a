//! What each page of the site shows, computed from the stored games: the
//! hiscore list and the frequency tables.

use vstd::prelude::*;
use crate::catalog::{Background, CodeError, God, Species};
use crate::freq::{
    all_known, code_texts, coded_frequencies, first_unknown, frequencies, is_frequency_table, texts,
    FormattedFreqItem,
};
use crate::query::{is_page, select_games, GameQuery};
use crate::record::{code_check, FormattedGame, GameRecord};
use crate::seqs::lemma_filter_push;
use crate::summary::{background_codes, final_places, played_by, player_games, species_codes};

verus! {

broadcast use vstd::seq_lib::group_seq_properties;

/// The hiscore page: one page of games and how many games the named player
/// (every player, when none is named) has played.
pub struct IndexContext {
    pub games: Vec<FormattedGame>,
    pub count: usize,
}

/// Every code of every game of `page` is known.
pub open spec fn all_codes_known(page: Seq<GameRecord>) -> bool {
    forall|i: int|
        0 <= i < page.len() ==> (code_check(
            (#[trigger] page[i]).species_id,
            page[i].background_id,
            page[i].god_id,
        ) is None)
}

/// `i` is the first game of `page` with an unknown code.
pub open spec fn first_bad_game(page: Seq<GameRecord>, i: int) -> bool {
    &&& 0 <= i < page.len()
    &&& code_check(page[i].species_id, page[i].background_id, page[i].god_id) is Some
    &&& forall|j: int|
        0 <= j < i ==> (code_check(
            (#[trigger] page[j]).species_id,
            page[j].background_id,
            page[j].god_id,
        ) is None)
}

/// `out` shows the games of `page`, one for one.
pub open spec fn shows_all(out: Seq<FormattedGame>, page: Seq<GameRecord>) -> bool {
    &&& out.len() == page.len()
    &&& forall|i: int| 0 <= i < out.len() ==> (#[trigger] out[i]).shows(page[i])
}

/// The display form of each game of `page`, or the error for the first game
/// with an unknown code.
pub fn format_games(page: &Vec<GameRecord>) -> (r: Result<Vec<FormattedGame>, CodeError>)
    ensures
        all_codes_known(page@) ==> (r matches Ok(v) && shows_all(v@, page@)),
        !all_codes_known(page@) ==> exists|i: int|
            first_bad_game(page@, i) && r == Err::<Vec<FormattedGame>, CodeError>(
                code_check(
                    (#[trigger] page@[i]).species_id,
                    page@[i].background_id,
                    page@[i].god_id,
                )->Some_0,
            ),
{
    let mut out: Vec<FormattedGame> = Vec::new();
    let mut i: usize = 0;
    while i < page.len()
        invariant
            i <= page@.len(),
            out@.len() == i,
            forall|j: int|
                0 <= j < i ==> (code_check(
                    (#[trigger] page@[j]).species_id,
                    page@[j].background_id,
                    page@[j].god_id,
                ) is None),
            forall|j: int| 0 <= j < i ==> (#[trigger] out@[j]).shows(page@[j]),
        decreases page@.len() - i,
    {
        match FormattedGame::from_record(&page[i]) {
            Ok(f) => {
                out.push(f);
            },
            Err(e) => {
                assert(first_bad_game(page@, i as int));
                return Err(e);
            },
        }
        i = i + 1;
    }
    Ok(out)
}

/// How many of `rows` the named player played; all of them when no name is
/// given.
pub fn count_games(rows: &Vec<GameRecord>, name: &Option<String>) -> (r: usize)
    ensures
        r == player_games(rows@, *name).len(),
{
    let mut count: usize = 0;
    let mut i: usize = 0;
    proof {
        reveal_with_fuel(Seq::filter, 1);
        assert(rows@.take(0) =~= Seq::<GameRecord>::empty());
    }
    while i < rows.len()
        invariant
            i <= rows@.len(),
            count == player_games(rows@.take(i as int), *name).len(),
            count <= i,
        decreases rows@.len() - i,
    {
        proof {
            assert(rows@.take(i + 1) =~= rows@.take(i as int).push(rows@[i as int]));
            lemma_filter_push(rows@.take(i as int), rows@[i as int], played_by(*name));
        }
        let mine = match name {
            Some(n) => rows[i].name == *n,
            None => true,
        };
        if mine {
            count = count + 1;
        }
        i = i + 1;
    }
    proof {
        assert(rows@.take(rows@.len() as int) =~= rows@);
    }
    count
}

/// The hiscore page for `query`: a page of the games it admits, in its order,
/// each in display form, and the count of games of the player it names.
pub fn hiscore_page(rows: Vec<GameRecord>, query: &GameQuery) -> (r: Result<IndexContext, CodeError>)
    ensures
        exists|page: Seq<GameRecord>|
            #[trigger] is_page(page, rows@, *query) && (all_codes_known(page) ==> (r matches Ok(ctx)
                && shows_all(ctx.games@, page) && ctx.count == player_games(rows@, query.name).len()))
                && (!all_codes_known(page) ==> exists|i: int|
                first_bad_game(page, i) && r == Err::<IndexContext, CodeError>(
                    code_check(
                        (#[trigger] page[i]).species_id,
                        page[i].background_id,
                        page[i].god_id,
                    )->Some_0,
                )),
{
    let count = count_games(&rows, &query.name);
    let page = select_games(rows, query);
    match format_games(&page) {
        Ok(games) => Ok(IndexContext { games, count }),
        Err(e) => Err(e),
    }
}

/// The termination messages of `rows`.
pub open spec fn messages(rows: Seq<GameRecord>) -> Seq<Seq<char>> {
    rows.map_values(|g: GameRecord| g.tmsg@)
}

/// A text field of a game.
pub enum TextColumn {
    Message,
    Place,
}

impl TextColumn {
    pub open spec fn of(self, g: GameRecord) -> Seq<char> {
        match self {
            TextColumn::Message => g.tmsg@,
            TextColumn::Place => g.place@,
        }
    }
}

/// A code field of a game.
pub enum CodeColumn {
    Species,
    Background,
    God,
}

impl CodeColumn {
    pub open spec fn of(self, g: GameRecord) -> i64 {
        match self {
            CodeColumn::Species => g.species_id,
            CodeColumn::Background => g.background_id,
            CodeColumn::God => g.god_id,
        }
    }
}

fn text_column(rows: &Vec<GameRecord>, column: &TextColumn) -> (r: Vec<String>)
    ensures
        texts(r@) == rows@.map_values(|g: GameRecord| column.of(g)),
{
    let mut out: Vec<String> = Vec::new();
    let mut i: usize = 0;
    while i < rows.len()
        invariant
            i <= rows@.len(),
            out@.len() == i,
            forall|j: int| 0 <= j < i ==> (#[trigger] out@[j])@ == column.of(rows@[j]),
        decreases rows@.len() - i,
    {
        let value = match column {
            TextColumn::Message => rows[i].tmsg.clone(),
            TextColumn::Place => rows[i].place.clone(),
        };
        out.push(value);
        i = i + 1;
    }
    assert(texts(out@) =~= rows@.map_values(|g: GameRecord| column.of(g)));
    out
}

fn code_column(rows: &Vec<GameRecord>, column: &CodeColumn) -> (r: Vec<i64>)
    ensures
        r@ == rows@.map_values(|g: GameRecord| column.of(g)),
{
    let mut out: Vec<i64> = Vec::new();
    let mut i: usize = 0;
    while i < rows.len()
        invariant
            i <= rows@.len(),
            out@.len() == i,
            forall|j: int| 0 <= j < i ==> #[trigger] out@[j] == column.of(rows@[j]),
        decreases rows@.len() - i,
    {
        let value = match column {
            CodeColumn::Species => rows[i].species_id,
            CodeColumn::Background => rows[i].background_id,
            CodeColumn::God => rows[i].god_id,
        };
        out.push(value);
        i = i + 1;
    }
    assert(out@ =~= rows@.map_values(|g: GameRecord| column.of(g)));
    out
}

/// How often each termination message occurs, most frequent first.
pub fn deaths(rows: &Vec<GameRecord>) -> (r: Vec<FormattedFreqItem>)
    ensures
        is_frequency_table(r@, messages(rows@)),
{
    let column = text_column(rows, &TextColumn::Message);
    assert(messages(rows@) =~= rows@.map_values(|g: GameRecord| TextColumn::Message.of(g)));
    frequencies(&column)
}

/// How often each final place occurs, most frequent first.
pub fn places(rows: &Vec<GameRecord>) -> (r: Vec<FormattedFreqItem>)
    ensures
        is_frequency_table(r@, final_places(rows@)),
{
    let column = text_column(rows, &TextColumn::Place);
    assert(final_places(rows@) =~= rows@.map_values(|g: GameRecord| TextColumn::Place.of(g)));
    frequencies(&column)
}

/// The god codes of `rows`, `Atheist` included.
pub open spec fn gods_of(rows: Seq<GameRecord>) -> Seq<i64> {
    rows.map_values(|g: GameRecord| g.god_id)
}

/// How often each species is played, most frequent first; the error for the
/// first unknown species code.
pub fn species(rows: &Vec<GameRecord>) -> (r: Result<Vec<FormattedFreqItem>, CodeError>)
    ensures
        all_known::<Species>(species_codes(rows@)) ==> (r matches Ok(t) && is_frequency_table(
            t@,
            code_texts::<Species>(species_codes(rows@)),
        )),
        !all_known::<Species>(species_codes(rows@)) ==> exists|i: int|
            first_unknown::<Species>(species_codes(rows@), i) && r == Err::<Vec<FormattedFreqItem>, CodeError>(
                CodeError::UnknownSpecies(#[trigger] species_codes(rows@)[i]),
            ),
{
    let column = code_column(rows, &CodeColumn::Species);
    assert(species_codes(rows@) =~= rows@.map_values(|g: GameRecord| CodeColumn::Species.of(g)));
    coded_frequencies::<Species>(&column)
}

/// How often each background is played, most frequent first; the error for
/// the first unknown background code.
pub fn backgrounds(rows: &Vec<GameRecord>) -> (r: Result<Vec<FormattedFreqItem>, CodeError>)
    ensures
        all_known::<Background>(background_codes(rows@)) ==> (r matches Ok(t) && is_frequency_table(
            t@,
            code_texts::<Background>(background_codes(rows@)),
        )),
        !all_known::<Background>(background_codes(rows@)) ==> exists|i: int|
            first_unknown::<Background>(background_codes(rows@), i) && r == Err::<Vec<FormattedFreqItem>, CodeError>(
                CodeError::UnknownBackground(#[trigger] background_codes(rows@)[i]),
            ),
{
    let column = code_column(rows, &CodeColumn::Background);
    assert(background_codes(rows@) =~= rows@.map_values(|g: GameRecord| CodeColumn::Background.of(g)));
    coded_frequencies::<Background>(&column)
}

/// How often each god is worshipped (`Atheist` counted too), most frequent
/// first; the error for the first unknown god code.
pub fn gods(rows: &Vec<GameRecord>) -> (r: Result<Vec<FormattedFreqItem>, CodeError>)
    ensures
        all_known::<God>(gods_of(rows@)) ==> (r matches Ok(t) && is_frequency_table(
            t@,
            code_texts::<God>(gods_of(rows@)),
        )),
        !all_known::<God>(gods_of(rows@)) ==> exists|i: int|
            first_unknown::<God>(gods_of(rows@), i) && r == Err::<Vec<FormattedFreqItem>, CodeError>(
                CodeError::UnknownGod(#[trigger] gods_of(rows@)[i]),
            ),
{
    let column = code_column(rows, &CodeColumn::God);
    assert(gods_of(rows@) =~= rows@.map_values(|g: GameRecord| CodeColumn::God.of(g)));
    coded_frequencies::<God>(&column)
}

} // verus!
