use crawl_scores::catalog::{Background, CodeError, God, Species};
use crawl_scores::query::SortOption;
use crawl_scores::record::{real_name, DbMorgue, FormattedGame, GameRecord};
use crawl_scores::summary::win_rate;
use crawl_scores::text::seconds_to_humantime;

fn game(name: &str, species: i64, background: i64, god: i64, tmsg: &str) -> GameRecord {
    GameRecord {
        name: name.to_string(),
        species_id: species,
        background_id: background,
        god_id: god,
        score: 1234,
        runes: 3,
        xl: 14,
        dur: 3725,
        turn: 45000,
        tmsg: tmsg.to_string(),
        place: "D:10".to_string(),
        end: 1_500_000_000,
    }
}

#[test]
fn duration_zero_seconds() {
    assert_eq!(seconds_to_humantime(0), "0 seconds");
}

#[test]
fn duration_under_a_minute() {
    assert_eq!(seconds_to_humantime(59), "59 seconds");
}

#[test]
fn duration_one_minute() {
    assert_eq!(seconds_to_humantime(60), "1 minutes, 0 seconds");
}

#[test]
fn duration_with_hours() {
    assert_eq!(seconds_to_humantime(3661), "1 hours, 1 minutes, 1 seconds");
}

#[test]
fn duration_whole_hours_keep_zero_fields() {
    assert_eq!(seconds_to_humantime(7200), "2 hours, 0 minutes, 0 seconds");
    assert_eq!(seconds_to_humantime(3599), "59 minutes, 59 seconds");
}

#[test]
fn duration_large_and_negative() {
    assert_eq!(seconds_to_humantime(360_000), "100 hours, 0 minutes, 0 seconds");
    assert_eq!(seconds_to_humantime(-5), "-5 seconds");
}

#[test]
fn victory_needs_exact_message() {
    assert!(game("brick", 0, 0, 0, "escaped with the Orb").is_victory());
    assert!(!game("brick", 0, 0, 0, "escaped with the orb").is_victory());
    assert!(!game("brick", 0, 0, 0, "slain by an orc").is_victory());
    assert!(!game("brick", 0, 0, 0, "escaped with the Orb!").is_victory());
}

#[test]
fn nickname_known_and_unknown() {
    assert_eq!(real_name("brick"), "Richard");
    assert_eq!(real_name("unknown_handle_xyz"), "?");
    assert_eq!(real_name("Richard"), "Ben S");
    assert_eq!(real_name("Idyll"), "Emma");
    assert_eq!(real_name("BRICK"), "?");
    assert_eq!(real_name(""), "?");
}

#[test]
fn codes_and_labels() {
    assert_eq!(Species::from_code(0), Some(Species::Human));
    assert_eq!(Species::from_code(2), Some(Species::DeepElf));
    assert_eq!(Species::from_code(-1), None);
    assert_eq!(Species::from_code(28), None);
    assert_eq!(God::from_code(0), Some(God::Atheist));
    assert_eq!(God::Trog.code(), 10);
    assert_eq!(Background::from_code(1), Some(Background::Wizard));
    assert_eq!(Background::from_code(24), None);
    assert_eq!(Species::DeepElf.label(), "DeepElf");
    assert_eq!(God::TheShiningOne.label(), "TheShiningOne");
}

#[test]
fn labels_parse_without_case() {
    assert_eq!(Species::parse("deepelf"), Some(Species::DeepElf));
    assert_eq!(Species::parse("MINOTAUR"), Some(Species::Minotaur));
    assert_eq!(Species::parse("Elf"), None);
    assert_eq!(Background::parse("fighter"), Some(Background::Fighter));
    assert_eq!(God::parse("Trog"), Some(God::Trog));
    assert_eq!(God::parse("Trogg"), None);
}

#[test]
fn sort_option_parse() {
    assert_eq!(SortOption::from_form_value("LONGEST"), Some(SortOption::Longest));
    assert_eq!(SortOption::from_form_value("shortest"), Some(SortOption::Shortest));
    assert_eq!(SortOption::from_form_value("New"), Some(SortOption::New));
    assert_eq!(SortOption::from_form_value("score"), Some(SortOption::Score));
    assert_eq!(SortOption::from_form_value("turns"), Some(SortOption::Turns));
    assert_eq!(SortOption::from_form_value("fastest"), None);
    assert_eq!(SortOption::from_form_value(""), None);
    assert_eq!(SortOption::default(), SortOption::Score);
}

#[test]
fn formatted_game_fields() {
    let g = game("brick", 2, 1, 10, "escaped with the Orb");
    let f = FormattedGame::from_record(&g).ok().unwrap();
    assert_eq!(f.real_name, "Richard");
    assert_eq!(f.name, "brick");
    assert_eq!(f.species, "DeepElf");
    assert_eq!(f.background, "Wizard");
    assert_eq!(f.god, "Trog");
    assert_eq!(f.duration, "1 hours, 2 minutes, 5 seconds");
    assert!(f.victory);
    assert_eq!(f.score, 1234);
    assert_eq!(f.runes, 3);
    assert_eq!(f.xl, 14);
    assert_eq!(f.turns, 45000);
}

#[test]
fn formatted_game_unknown_codes() {
    assert_eq!(
        FormattedGame::from_record(&game("x", 99, 1, 0, "quit the game")).err(),
        Some(CodeError::UnknownSpecies(99))
    );
    assert_eq!(
        FormattedGame::from_record(&game("x", 0, -3, 0, "quit the game")).err(),
        Some(CodeError::UnknownBackground(-3))
    );
    assert_eq!(
        FormattedGame::from_record(&game("x", 0, 0, 27, "quit the game")).err(),
        Some(CodeError::UnknownGod(27))
    );
}

#[test]
fn win_rate_text() {
    assert_eq!(win_rate(0, 0), "N/A");
    assert_eq!(win_rate(0, 5), "0.00");
    assert_eq!(win_rate(1, 2), "50.00");
    assert_eq!(win_rate(1, 3), "33.33");
    assert_eq!(win_rate(2, 3), "66.67");
    assert_eq!(win_rate(1, 16), "6.25");
    assert_eq!(win_rate(3, 3), "100.00");
}

#[test]
fn morgue_record_holds_fields() {
    let m = DbMorgue {
        file_name: "morgue-brick.txt".to_string(),
        name: "brick".to_string(),
        version: "0.21".to_string(),
        score: 10,
        race: 2,
        background: 1,
    };
    assert_eq!(m.file_name, "morgue-brick.txt");
    assert_eq!(m.race, 2);
}
