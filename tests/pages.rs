use crawl_scores::catalog::{CodeError, God, Species};
use crawl_scores::freq::{favourite, frequencies};
use crawl_scores::pages::{backgrounds, count_games, deaths, gods, hiscore_page, places, species};
use crawl_scores::query::{select_games, GameQuery, SortOption};
use crawl_scores::record::GameRecord;
use crawl_scores::summary::user_context;

fn rec(name: &str, score: i64, dur: i64, turn: i64, end: i64) -> GameRecord {
    GameRecord {
        name: name.to_string(),
        species_id: 0,
        background_id: 0,
        god_id: 0,
        score,
        runes: 0,
        xl: 1,
        dur,
        turn,
        tmsg: "slain by a jackal".to_string(),
        place: "D:1".to_string(),
        end,
    }
}

fn sample() -> Vec<GameRecord> {
    let mut rows = Vec::new();
    let mut a = rec("brick", 500, 300, 900, 10);
    a.species_id = 2;
    a.god_id = 10;
    a.runes = 3;
    rows.push(a);
    let mut b = rec("brick", 9000, 100, 5000, 30);
    b.species_id = 2;
    b.tmsg = "escaped with the Orb".to_string();
    b.place = "D:1".to_string();
    b.runes = 15;
    rows.push(b);
    let mut c = rec("paul", 70, 50, 300, 20);
    c.species_id = 4;
    c.god_id = 10;
    c.place = "Lair:2".to_string();
    rows.push(c);
    let mut d = rec("brick", 20, 900, 100, 5);
    d.species_id = 4;
    d.god_id = 1;
    d.tmsg = "quit the game".to_string();
    d.place = "D:3".to_string();
    rows.push(d);
    rows
}

fn query() -> GameQuery {
    GameQuery::default()
}

fn scores(rows: &[GameRecord]) -> Vec<i64> {
    rows.iter().map(|g| g.score).collect()
}

#[test]
fn default_query_is_by_score_descending() {
    let page = select_games(sample(), &query());
    assert_eq!(scores(&page), vec![9000, 500, 70, 20]);
}

#[test]
fn shortest_is_non_decreasing_duration() {
    let mut q = query();
    q.sort_by = SortOption::Shortest;
    let page = select_games(sample(), &q);
    let durs: Vec<i64> = page.iter().map(|g| g.dur).collect();
    assert_eq!(durs, vec![50, 100, 300, 900]);
}

#[test]
fn other_orders() {
    let mut q = query();
    q.sort_by = SortOption::Longest;
    assert_eq!(scores(&select_games(sample(), &q)), vec![20, 500, 9000, 70]);
    q.sort_by = SortOption::New;
    assert_eq!(scores(&select_games(sample(), &q)), vec![9000, 70, 500, 20]);
    q.sort_by = SortOption::Turns;
    assert_eq!(scores(&select_games(sample(), &q)), vec![20, 70, 500, 9000]);
}

#[test]
fn filters_are_conjunctive() {
    let mut q = query();
    q.name = Some("brick".to_string());
    q.species = Some(Species::DeepElf);
    let page = select_games(sample(), &q);
    assert_eq!(scores(&page), vec![9000, 500]);
    q.god = Some(God::Trog);
    assert_eq!(scores(&select_games(sample(), &q)), vec![500]);
    q.runes = Some(4);
    assert!(select_games(sample(), &q).is_empty());
}

#[test]
fn victory_filter_both_ways() {
    let mut q = query();
    q.victory = Some(true);
    assert_eq!(scores(&select_games(sample(), &q)), vec![9000]);
    q.victory = Some(false);
    assert_eq!(scores(&select_games(sample(), &q)), vec![500, 70, 20]);
}

#[test]
fn page_holds_at_most_one_hundred() {
    let mut rows = Vec::new();
    for i in 0..150 {
        rows.push(rec("max", i, 150 - i, i, i));
    }
    let page = select_games(rows, &query());
    assert_eq!(page.len(), 100);
    assert_eq!(page[0].score, 149);
    assert_eq!(page[99].score, 50);
    for w in page.windows(2) {
        assert!(w[0].score >= w[1].score);
    }
}

#[test]
fn equal_keys_keep_stored_order() {
    let rows = vec![rec("a", 5, 1, 1, 1), rec("b", 5, 1, 1, 1), rec("c", 7, 1, 1, 1), rec("d", 5, 1, 1, 1)];
    let page = select_games(rows, &query());
    let names: Vec<String> = page.iter().map(|g| g.name.clone()).collect();
    assert_eq!(names, vec!["c", "a", "b", "d"]);
}

#[test]
fn hiscore_page_counts_named_player() {
    let mut q = query();
    q.name = Some("brick".to_string());
    q.victory = Some(false);
    let ctx = hiscore_page(sample(), &q).ok().unwrap();
    assert_eq!(ctx.count, 3);
    assert_eq!(ctx.games.len(), 2);
    assert_eq!(ctx.games[0].species, "DeepElf");
    assert_eq!(ctx.games[0].real_name, "Richard");
    assert_eq!(count_games(&sample(), &None), 4);
}

#[test]
fn hiscore_page_reports_unknown_code() {
    let mut rows = sample();
    rows[2].god_id = 500;
    assert_eq!(hiscore_page(rows, &query()).err(), Some(CodeError::UnknownGod(500)));
}

#[test]
fn frequency_groups_ordered_by_count() {
    let values: Vec<String> = ["a", "b", "b", "c", "b", "c"].iter().map(|s| s.to_string()).collect();
    let table = frequencies(&values);
    let rows: Vec<(String, usize)> = table.iter().map(|i| (i.value.clone(), i.frequency)).collect();
    assert_eq!(rows, vec![("b".to_string(), 3), ("c".to_string(), 2), ("a".to_string(), 1)]);
    assert!(frequencies(&Vec::new()).is_empty());
}

#[test]
fn frequency_table_truncated_at_one_hundred() {
    let mut values = Vec::new();
    for i in 0..150 {
        for _ in 0..(1 + i % 7) {
            values.push(format!("v{}", i));
        }
    }
    let table = frequencies(&values);
    assert_eq!(table.len(), 100);
    for w in table.windows(2) {
        assert!(w[0].frequency >= w[1].frequency);
    }
    assert_eq!(table[0].frequency, 7);
    assert!(table[99].frequency >= 1);
}

#[test]
fn favourite_of_nothing_is_na() {
    assert_eq!(favourite(&Vec::new()), "N/A");
    let values: Vec<String> = ["x", "y", "y"].iter().map(|s| s.to_string()).collect();
    assert_eq!(favourite(&values), "y");
}

#[test]
fn route_tables() {
    let rows = sample();
    let d = deaths(&rows);
    assert_eq!(d[0].value, "slain by a jackal");
    assert_eq!(d[0].frequency, 2);
    assert_eq!(d.len(), 3);
    let p = places(&rows);
    assert_eq!((p[0].value.as_str(), p[0].frequency), ("D:1", 2));
    let s = species(&rows).ok().unwrap();
    assert_eq!(s.len(), 2);
    assert_eq!(s[0].frequency, 2);
    let g = gods(&rows).ok().unwrap();
    assert_eq!((g[0].value.as_str(), g[0].frequency), ("Trog", 2));
    let b = backgrounds(&rows).ok().unwrap();
    assert_eq!((b[0].value.as_str(), b[0].frequency), ("Fighter", 4));
}

#[test]
fn route_table_unknown_code() {
    let mut rows = sample();
    rows[1].species_id = 77;
    rows[3].species_id = 78;
    assert_eq!(species(&rows).err(), Some(CodeError::UnknownSpecies(77)));
}

#[test]
fn summary_of_player() {
    let mut rows = sample();
    rows[3].tmsg = "slain by a jackal".to_string();
    let u = user_context(&rows, Some("brick".to_string())).ok().unwrap();
    assert_eq!(u.games, 3);
    assert_eq!(u.wins, 1);
    assert_eq!(u.winrate, "33.33");
    assert_eq!(u.name, "brick");
    assert_eq!(u.fav_species, "DeepElf");
    assert_eq!(u.fav_background, "Fighter");
    assert_eq!(u.nemesis, "slain by a jackal");
    assert_eq!(u.death_spot, "D:1");
    assert_eq!(u.num_runes, 18);
}

#[test]
fn summary_skips_atheists_and_exits() {
    let mut rows = sample();
    for r in rows.iter_mut() {
        r.god_id = 0;
    }
    rows[0].god_id = 5;
    rows[0].tmsg = "got out of the dungeon alive".to_string();
    let u = user_context(&rows, Some("brick".to_string())).ok().unwrap();
    assert_eq!(u.fav_god, "Xom");
    assert_eq!(u.nemesis, "escaped with the Orb");
    let none = user_context(&rows, Some("paul".to_string())).ok().unwrap();
    assert_eq!(none.fav_god, "N/A");
}

#[test]
fn summary_of_everyone() {
    let u = user_context(&sample(), None).ok().unwrap();
    assert_eq!(u.games, 4);
    assert_eq!(u.name, "Server");
    assert_eq!(u.winrate, "25.00");
    assert_eq!(u.fav_god, "Trog");
}

#[test]
fn summary_with_zero_games() {
    let u = user_context(&sample(), Some("nobody".to_string())).ok().unwrap();
    assert_eq!(u.games, 0);
    assert_eq!(u.wins, 0);
    assert_eq!(u.winrate, "N/A");
    assert_eq!(u.fav_species, "N/A");
    assert_eq!(u.fav_background, "N/A");
    assert_eq!(u.fav_god, "N/A");
    assert_eq!(u.nemesis, "N/A");
    assert_eq!(u.death_spot, "N/A");
    assert_eq!(u.num_runes, 0);
    let empty = user_context(&Vec::new(), None).ok().unwrap();
    assert_eq!(empty.winrate, "N/A");
}

#[test]
fn summary_unknown_code() {
    let mut rows = sample();
    rows[0].background_id = 40;
    assert_eq!(
        user_context(&rows, Some("brick".to_string())).err(),
        Some(CodeError::UnknownBackground(40))
    );
    assert!(user_context(&rows, Some("paul".to_string())).is_ok());
}
