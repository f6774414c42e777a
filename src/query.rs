//! The filters and sort order of the hiscore page, and the selection of one
//! page of games under them.

use vstd::prelude::*;
use vstd::string::*;
use crate::catalog::{Background, God, Species};
use crate::record::GameRecord;
use crate::seqs::{lemma_filter_prepend_to_multiset, lemma_insert_to_multiset};
use crate::text::{eq_ignore_ascii_case, same_ignoring_ascii_case};

verus! {

broadcast use vstd::seq_lib::group_seq_properties, vstd::multiset::group_multiset_axioms;

/// The most games one page holds.
pub const PAGE_SIZE: usize = 100;

/// The order in which the hiscore page lists games.
#[derive(Clone, Copy, Debug, PartialEq, Eq, Structural)]
pub enum SortOption {
    /// Longest real time first.
    Longest,
    /// Shortest real time first.
    Shortest,
    /// Most recently ended first.
    New,
    /// Highest score first.
    Score,
    /// Fewest turns first.
    Turns,
}

impl SortOption {
    /// The word that names the order in a query.
    pub open spec fn spec_name(self) -> Seq<char> {
        match self {
            SortOption::Longest => "longest"@,
            SortOption::Shortest => "shortest"@,
            SortOption::New => "new"@,
            SortOption::Score => "score"@,
            SortOption::Turns => "turns"@,
        }
    }

    /// The order named by `text`, ASCII letters compared without case.
    pub fn from_form_value(text: &str) -> (r: Option<SortOption>)
        ensures
            r matches Some(v) ==> same_ignoring_ascii_case(text@, v.spec_name()),
            r is None ==> forall|v: SortOption| !same_ignoring_ascii_case(text@, #[trigger] v.spec_name()),
    {
        if eq_ignore_ascii_case(text, "longest") {
            Some(SortOption::Longest)
        } else if eq_ignore_ascii_case(text, "shortest") {
            Some(SortOption::Shortest)
        } else if eq_ignore_ascii_case(text, "new") {
            Some(SortOption::New)
        } else if eq_ignore_ascii_case(text, "score") {
            Some(SortOption::Score)
        } else if eq_ignore_ascii_case(text, "turns") {
            Some(SortOption::Turns)
        } else {
            None
        }
    }

    /// `a` may stand before `b` in this order.
    pub open spec fn spec_may_precede(self, a: GameRecord, b: GameRecord) -> bool {
        match self {
            SortOption::Longest => a.dur >= b.dur,
            SortOption::Shortest => a.dur <= b.dur,
            SortOption::New => a.end >= b.end,
            SortOption::Score => a.score >= b.score,
            SortOption::Turns => a.turn <= b.turn,
        }
    }

    /// Whether `a` may stand before `b` in this order.
    pub fn may_precede(&self, a: &GameRecord, b: &GameRecord) -> (r: bool)
        ensures
            r == self.spec_may_precede(*a, *b),
    {
        match self {
            SortOption::Longest => a.dur >= b.dur,
            SortOption::Shortest => a.dur <= b.dur,
            SortOption::New => a.end >= b.end,
            SortOption::Score => a.score >= b.score,
            SortOption::Turns => a.turn <= b.turn,
        }
    }
}

impl Default for SortOption {
    fn default() -> (r: SortOption)
        ensures
            r == SortOption::Score,
    {
        SortOption::Score
    }
}

/// Every game of `s` may stand before every later one in `order`.
pub open spec fn is_sorted_by(s: Seq<GameRecord>, order: SortOption) -> bool {
    forall|i: int, j: int| 0 <= i < j < s.len() ==> order.spec_may_precede(#[trigger] s[i], #[trigger] s[j])
}

/// The filters and order asked for on the hiscore page; an absent filter
/// admits every game.
pub struct GameQuery {
    pub god: Option<God>,
    pub background: Option<Background>,
    pub species: Option<Species>,
    /// The player's handle, exactly.
    pub name: Option<String>,
    /// The number of runes, exactly.
    pub runes: Option<i64>,
    /// Won games only, or lost games only.
    pub victory: Option<bool>,
    pub sort_by: SortOption,
}

impl Default for GameQuery {
    fn default() -> (r: GameQuery)
        ensures
            r.god is None,
            r.background is None,
            r.species is None,
            r.name is None,
            r.runes is None,
            r.victory is None,
            r.sort_by == SortOption::Score,
    {
        GameQuery {
            god: None,
            background: None,
            species: None,
            name: None,
            runes: None,
            victory: None,
            sort_by: SortOption::Score,
        }
    }
}

impl GameQuery {
    /// `game` passes every filter that is present.
    pub open spec fn admits(self, game: GameRecord) -> bool {
        &&& (self.god matches Some(g) ==> game.god_id == g.spec_code())
        &&& (self.background matches Some(b) ==> game.background_id == b.spec_code())
        &&& (self.species matches Some(s) ==> game.species_id == s.spec_code())
        &&& (self.name matches Some(n) ==> game.name@ == n@)
        &&& (self.runes matches Some(k) ==> game.runes == k)
        &&& (self.victory matches Some(v) ==> game.spec_is_victory() == v)
    }

    /// Whether `game` passes every filter that is present.
    pub fn matches(&self, game: &GameRecord) -> (r: bool)
        ensures
            r == self.admits(*game),
    {
        if let Some(g) = &self.god {
            if game.god_id != g.code() {
                return false;
            }
        }
        if let Some(b) = &self.background {
            if game.background_id != b.code() {
                return false;
            }
        }
        if let Some(s) = &self.species {
            if game.species_id != s.code() {
                return false;
            }
        }
        if let Some(n) = &self.name {
            if !(game.name == *n) {
                return false;
            }
        }
        if let Some(k) = self.runes {
            if game.runes != k {
                return false;
            }
        }
        if let Some(v) = self.victory {
            if game.is_victory() != v {
                return false;
            }
        }
        true
    }
}

/// The games of `rows` that the query admits, in their stored order.
pub open spec fn admitted(rows: Seq<GameRecord>, query: GameQuery) -> Seq<GameRecord> {
    rows.filter(|g: GameRecord| query.admits(g))
}

/// `a` and `b` tie in `order`: each may stand before the other.
pub open spec fn ties(order: SortOption, a: GameRecord, b: GameRecord) -> bool {
    order.spec_may_precede(a, b) && order.spec_may_precede(b, a)
}

/// `pos` gives for each game of `s` a position in `rows` where it is stored,
/// and games of `s` that tie in `order` keep the order of their positions.
pub open spec fn stored_positions(s: Seq<GameRecord>, rows: Seq<GameRecord>, order: SortOption, pos: Seq<int>) -> bool {
    &&& pos.len() == s.len()
    &&& forall|k: int| 0 <= k < s.len() ==> 0 <= #[trigger] pos[k] < rows.len() && s[k] == rows[pos[k]]
    &&& forall|a: int, b: int|
        0 <= a < b < s.len() && ties(order, #[trigger] s[a], #[trigger] s[b]) ==> pos[a] < pos[b]
}

/// The games of `s` that tie in `order` stand in the order in which `rows`
/// stores them.
pub open spec fn keeps_stored_order(s: Seq<GameRecord>, rows: Seq<GameRecord>, order: SortOption) -> bool {
    exists|pos: Seq<int>| #[trigger] stored_positions(s, rows, order, pos)
}

/// `page` is a page of the hiscore list over `rows`: the games that the
/// query admits, put in its order with ties kept in stored order, cut to the
/// first `PAGE_SIZE`.
pub open spec fn is_page(page: Seq<GameRecord>, rows: Seq<GameRecord>, query: GameQuery) -> bool {
    &&& page.len() == if admitted(rows, query).len() < PAGE_SIZE {
        admitted(rows, query).len()
    } else {
        PAGE_SIZE as nat
    }
    &&& exists|s: Seq<GameRecord>|
        #[trigger] s.to_multiset() == admitted(rows, query).to_multiset() && is_sorted_by(s, query.sort_by)
            && keeps_stored_order(s, rows, query.sort_by) && page == s.take(page.len() as int)
}

/// One page of the hiscore list: the games that pass every filter of the
/// query, put in its order, and cut to the first `PAGE_SIZE`.
pub fn select_games(rows: Vec<GameRecord>, query: &GameQuery) -> (r: Vec<GameRecord>)
    ensures
        is_page(r@, rows@, *query),
        r@.len() <= PAGE_SIZE,
        forall|i: int| 0 <= i < r@.len() ==> query.admits(#[trigger] r@[i]),
        is_sorted_by(r@, query.sort_by),
{
    let ghost stored = rows@;
    let ghost pred = |g: GameRecord| query.admits(g);
    let ghost n = stored.len();
    let order = query.sort_by;
    let mut rows = rows;
    let mut out: Vec<GameRecord> = Vec::new();
    let ghost mut pos: Seq<int> = Seq::empty();
    assert(stored.subrange(n as int, n as int).filter(pred) =~= Seq::<GameRecord>::empty()) by {
        reveal_with_fuel(Seq::filter, 1);
    }
    while rows.len() > 0
        invariant
            rows@ == stored.subrange(0, rows@.len() as int),
            rows@.len() <= n,
            n == stored.len(),
            pred == (|g: GameRecord| query.admits(g)),
            order == query.sort_by,
            out@.to_multiset() == stored.subrange(rows@.len() as int, n as int).filter(pred).to_multiset(),
            forall|i: int| 0 <= i < out@.len() ==> query.admits(#[trigger] out@[i]),
            is_sorted_by(out@, order),
            pos.len() == out@.len(),
            forall|k: int| 0 <= k < out@.len() ==> rows@.len() <= #[trigger] pos[k] < n && out@[k] == stored[pos[k]],
            forall|a: int, b: int|
                0 <= a < b < out@.len() && ties(order, #[trigger] out@[a], #[trigger] out@[b]) ==> pos[a] < pos[b],
        decreases rows@.len(),
    {
        let ghost k = rows@.len() as int;
        let game = rows.pop().unwrap();
        proof {
            assert(stored.subrange(k - 1, n as int) =~= seq![game] + stored.subrange(k, n as int));
            lemma_filter_prepend_to_multiset(stored.subrange(k, n as int), game, pred);
        }
        if query.matches(&game) {
            let mut p: usize = 0;
            while p < out.len() && !order.may_precede(&game, &out[p])
                invariant
                    p <= out@.len(),
                    forall|i: int| 0 <= i < p ==> !order.spec_may_precede(game, #[trigger] out@[i]),
                decreases out@.len() - p,
            {
                p = p + 1;
            }
            let ghost before = out@;
            let ghost before_pos = pos;
            out.insert(p, game);
            proof {
                pos = before_pos.insert(p as int, k - 1);
                lemma_insert_to_multiset(before, p as int, game);
                assert(stored[k - 1] == game);
                assert forall|a: int| 0 <= a < out@.len() implies k - 1 <= #[trigger] pos[a] < n && out@[a] == stored[pos[a]] by {
                    if a < p {
                        assert(out@[a] == before[a] && pos[a] == before_pos[a]);
                    } else if a > p {
                        assert(out@[a] == before[a - 1] && pos[a] == before_pos[a - 1]);
                    }
                }
                assert forall|a: int, b: int|
                    0 <= a < b < out@.len() && ties(order, #[trigger] out@[a], #[trigger] out@[b]) implies pos[a] < pos[b] by {
                    if b < p {
                        assert(out@[a] == before[a] && out@[b] == before[b]);
                    } else if b == p {
                        assert(out@[a] == before[a]);
                        assert(!order.spec_may_precede(game, before[a]));
                    } else if a > p {
                        assert(out@[a] == before[a - 1] && out@[b] == before[b - 1]);
                    } else if a == p {
                        assert(pos[b] == before_pos[b - 1]);
                    } else {
                        assert(out@[a] == before[a] && out@[b] == before[b - 1]);
                    }
                }
                assert forall|i: int, j: int| 0 <= i < j < out@.len() implies order.spec_may_precede(
                    #[trigger] out@[i],
                    #[trigger] out@[j],
                ) by {
                    if j < p {
                        assert(out@[i] == before[i] && out@[j] == before[j]);
                    } else if j == p {
                        assert(out@[i] == before[i]);
                        assert(!order.spec_may_precede(game, before[i]));
                    } else if i > p {
                        assert(out@[i] == before[i - 1] && out@[j] == before[j - 1]);
                    } else if i == p {
                        assert(out@[j] == before[j - 1]);
                        assert(order.spec_may_precede(game, before[p as int]));
                        assert(order.spec_may_precede(before[p as int], before[j - 1]) || j - 1 == p);
                    } else {
                        assert(out@[i] == before[i] && out@[j] == before[j - 1]);
                    }
                }
                assert forall|i: int| 0 <= i < out@.len() implies query.admits(#[trigger] out@[i]) by {
                    if i < p {
                        assert(out@[i] == before[i]);
                    } else if i > p {
                        assert(out@[i] == before[i - 1]);
                    }
                }
            }
        }
    }
    let ghost sorted = out@;
    proof {
        assert(stored_positions(sorted, stored, order, pos));
        assert(stored.subrange(0, n as int) =~= stored);
        sorted.to_multiset_ensures();
        stored.filter(pred).to_multiset_ensures();
    }
    out.truncate(PAGE_SIZE);
    proof {
        assert(out@ =~= sorted.take(out@.len() as int));
        assert(admitted(stored, *query) == stored.filter(pred));
    }
    out
}

} // verus!
