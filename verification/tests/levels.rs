use pokertimer::level::Level;
use pokertimer::structures::{structure_by_name, structure_names, Structure};
use pokertimer::time::Duration;

fn blinds(small: u32, big: u32, ante: Option<u32>) -> Level {
    Level::Blinds {
        game: "NLHE".to_string(),
        small,
        big,
        ante,
        duration: Duration::minutes(20),
    }
}

#[test]
fn level_durations() {
    assert_eq!(blinds(100, 200, None).duration(), Duration::minutes(20));
    let limit = Level::Limit {
        game: "Hold Em".to_string(),
        small: 200,
        big: 400,
        duration: Duration::minutes(15),
    };
    assert_eq!(limit.duration(), Duration::minutes(15));
    let stud = Level::Stud {
        game: "Stud Hi/Lo".to_string(),
        ante: 100,
        bring_in: 200,
        small: 600,
        big: 1200,
        duration: Duration::minutes(30),
    };
    assert_eq!(stud.duration(), Duration::minutes(30));
    assert_eq!(Level::Break { duration: Duration::minutes(10) }.duration(), Duration::minutes(10));
    assert_eq!(Level::Done.duration(), Duration::zero());
}

#[test]
fn level_games() {
    assert_eq!(blinds(100, 200, None).game(), "NLHE");
    assert_eq!(Level::Break { duration: Duration::minutes(10) }.game(), "");
    assert_eq!(Level::Done.game(), "FINISHED");
    assert!(Level::Break { duration: Duration::minutes(10) }.is_break());
    assert!(!Level::Done.is_break());
    assert!(Level::Done.is_done());
    assert!(!blinds(1, 2, None).is_done());
}

#[test]
fn blinds_strings() {
    let with_ante = blinds(500, 1000, Some(1000));
    assert_eq!(with_ante.make_level_string(), "500 / 1000 / 1000");
    assert_eq!(with_ante.short_level_string(), "NLHE 500 / 1000 / 1000");
    let without = blinds(200, 300, None);
    assert_eq!(without.make_level_string(), "200 / 300");
    assert_eq!(without.short_level_string(), "NLHE 200 / 300");
}

#[test]
fn limit_strings_show_the_big_bet() {
    let limit = Level::Limit {
        game: "Omaha Hi/Lo".to_string(),
        small: 200,
        big: 500,
        duration: Duration::minutes(20),
    };
    assert_eq!(limit.make_level_string(), "200 / 500  Big Bet: 1000");
    assert_eq!(limit.short_level_string(), "Omaha Hi/Lo 200 / 500  Big Bet: 1000");
    let huge = Level::Limit {
        game: "Hold Em".to_string(),
        small: 1,
        big: u32::MAX,
        duration: Duration::minutes(20),
    };
    assert_eq!(huge.make_level_string(), "1 / 4294967295  Big Bet: 8589934590");
}

#[test]
fn stud_strings() {
    let stud = Level::Stud {
        game: "Stud Hi/Lo".to_string(),
        ante: 100,
        bring_in: 200,
        small: 600,
        big: 1200,
        duration: Duration::minutes(20),
    };
    assert_eq!(stud.make_level_string(), "Ante: 100 Bring: 200 Small: 600 Big: 1200");
    assert_eq!(
        stud.short_level_string(),
        "Stud Hi/Lo Ante: 100 Bring: 200 Small: 600 Big: 1200"
    );
}

#[test]
fn break_and_done_strings() {
    let pause = Level::Break { duration: Duration::minutes(10) };
    assert_eq!(pause.make_level_string(), "10 MINUTE BREAK");
    assert_eq!(pause.short_level_string(), "10 MINUTE BREAK");
    let odd = Level::Break { duration: Duration::milliseconds(659_999) };
    assert_eq!(odd.make_level_string(), "10 MINUTE BREAK");
    let negative = Level::Break { duration: Duration::minutes(-3) };
    assert_eq!(negative.make_level_string(), "-3 MINUTE BREAK");
    assert_eq!(Level::Done.make_level_string(), "FINISHED");
    assert_eq!(Level::Done.short_level_string(), "FINISHED");
}

#[test]
fn level_clone_is_equal() {
    let level = blinds(500, 1000, Some(1000));
    assert_eq!(level.clone(), level);
    assert_ne!(blinds(500, 1000, None), level);
}

fn three_levels() -> Structure {
    Structure {
        levels: vec![
            blinds(100, 200, None),
            Level::Break { duration: Duration::minutes(10) },
            Level::Done,
        ],
    }
}

#[test]
fn levels_are_counted_from_one() {
    let structure = three_levels();
    assert_eq!(structure.get_level(1), &blinds(100, 200, None));
    assert_eq!(structure.get_level(2), &Level::Break { duration: Duration::minutes(10) });
}

#[test]
fn numbers_from_the_length_on_are_the_end() {
    let structure = three_levels();
    assert_eq!(structure.get_level(3), &Level::Done);
    assert_eq!(structure.get_level(4), &Level::Done);
    assert_eq!(structure.get_level(usize::MAX), &Level::Done);
    let two = Structure { levels: vec![blinds(1, 2, None), blinds(2, 4, None)] };
    assert_eq!(two.get_level(1), &blinds(1, 2, None));
    // the last entry of the list is never played
    assert_eq!(two.get_level(2), &Level::Done);
}

#[test]
fn number_zero_is_the_end() {
    assert_eq!(three_levels().get_level(0), &Level::Done);
    assert_eq!(Structure { levels: vec![] }.get_level(0), &Level::Done);
    assert_eq!(Structure { levels: vec![] }.get_level(1), &Level::Done);
}

#[test]
fn structure_clone_is_equal() {
    let structure = three_levels();
    assert_eq!(structure.clone(), structure);
}

#[test]
fn catalog_names() {
    assert_eq!(
        structure_names(),
        vec![
            "Nightly TOC".to_string(),
            "Nightly NLHE".to_string(),
            "NHLE/PLO".to_string(),
            "FARGO Pairs".to_string()
        ]
    );
    for name in structure_names() {
        assert!(structure_by_name(&name).is_some());
    }
}

#[test]
fn catalog_rejects_unknown_names() {
    assert_eq!(structure_by_name("No such structure"), None);
    assert_eq!(structure_by_name(""), None);
    assert_eq!(structure_by_name("nightly nlhe"), None);
}

#[test]
fn catalog_nightly_toc() {
    let s = structure_by_name("Nightly TOC").unwrap();
    assert_eq!(s.levels.len(), 21);
    assert_eq!(
        s.levels[0],
        Level::Limit {
            game: "Hold Em".to_string(),
            small: 200,
            big: 400,
            duration: Duration::minutes(20)
        }
    );
    assert_eq!(
        s.levels[2],
        Level::Stud {
            game: "Stud Hi/Lo".to_string(),
            ante: 100,
            bring_in: 200,
            small: 600,
            big: 1200,
            duration: Duration::minutes(20)
        }
    );
    assert_eq!(s.levels[6], Level::Break { duration: Duration::minutes(10) });
    assert_eq!(s.levels[20], blinds(10000, 20000, Some(20000)));
}

#[test]
fn catalog_nightly_nlhe() {
    let s = structure_by_name("Nightly NLHE").unwrap();
    assert_eq!(s.levels.len(), 21);
    assert_eq!(s.levels[0], blinds(100, 200, Some(200)));
    assert_eq!(s.levels[5], Level::Break { duration: Duration::minutes(10) });
    assert_eq!(s.levels[19], blinds(10000, 15000, Some(15000)));
    assert_eq!(s.levels[20], blinds(10000, 20000, Some(20000)));
}

#[test]
fn catalog_nlhe_plo() {
    let s = structure_by_name("NHLE/PLO").unwrap();
    assert_eq!(s.levels.len(), 21);
    assert_eq!(s.levels[0], blinds(100, 200, Some(200)));
    assert_eq!(
        s.levels[1],
        Level::Blinds {
            game: "PLO".to_string(),
            small: 200,
            big: 300,
            ante: None,
            duration: Duration::minutes(20)
        }
    );
    assert_eq!(
        s.levels[20],
        Level::Blinds {
            game: "PLO".to_string(),
            small: 10000,
            big: 20000,
            ante: None,
            duration: Duration::minutes(20)
        }
    );
}

#[test]
fn catalog_fargo_pairs() {
    let s = structure_by_name("FARGO Pairs").unwrap();
    assert_eq!(s.levels.len(), 15);
    assert_eq!(
        s.levels[0],
        Level::Limit {
            game: "Hold Em".to_string(),
            small: 100,
            big: 100,
            duration: Duration::minutes(20)
        }
    );
    assert_eq!(s.levels[5], Level::Break { duration: Duration::minutes(20) });
    assert_eq!(
        s.levels[14],
        Level::Limit {
            game: "Omaha Hi/Lo".to_string(),
            small: 6000,
            big: 12000,
            duration: Duration::minutes(20)
        }
    );
}
