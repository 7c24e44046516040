use egg_breeder::catalog::{Database, Entry, Learnset, Membership, MoveStats};
use egg_breeder::resolver::{list_summary, lists_overlap, donor, GroupInfo, Outcome};
use egg_breeder::store::StoreError;

fn seeded() -> Database {
    match Database::open() {
        Ok(db) => db,
        Err(_) => panic!("the seeded catalog must open"),
    }
}

fn sorted(mut v: Vec<String>) -> Vec<String> {
    v.sort();
    v
}

fn names(v: &[&str]) -> Vec<String> {
    sorted(v.iter().map(|s| s.to_string()).collect())
}

#[test]
fn open_loads_every_table() {
    let db = seeded();
    assert_eq!(db.creatures.len(), 12);
    assert_eq!(db.groups.len(), 5);
    assert_eq!(db.moves.len(), 6);
    assert_eq!(db.move_stats.len(), 6);
    assert_eq!(db.move_stats[1].category, "Physical");
    assert_eq!(db.move_stats[1].power, Some(130));
    assert_eq!(db.move_stats[5].power, None);
    assert_eq!(db.move_stats[5].accuracy, Some(100));
    assert_eq!(db.memberships.len(), 3 * 2 + 3 + 3 + 1 + 5);
    assert_eq!(db.learnsets.len(), 5);
    assert!(db.is_valid());
}

#[test]
fn lookup_matches_every_casing() {
    let db = seeded();
    for n in ["Bulbasaur", "bulbasaur", "BULBASAUR", "bUlBaSaUr", "mewtwo", "DITTO"] {
        assert!(db.has_creature(n), "{n}");
    }
    for n in ["", "Bulba", "Bulbasaur ", "Pikachu", "Monster"] {
        assert!(!db.has_creature(n), "{n}");
    }
}

#[test]
fn egg_groups_of_bulbasaur() {
    let db = seeded();
    assert_eq!(sorted(db.egg_groups_of("Bulbasaur")), names(&["Monster", "Grass"]));
    assert_eq!(sorted(db.egg_groups_of("bulbasaur")), names(&["Monster", "Grass"]));
    assert!(db.egg_groups_of("Unknown").is_empty());
    assert!(db.egg_groups_of("MewTwo").is_empty());
    assert_eq!(db.egg_groups_of("Ditto").len(), 5);
}

#[test]
fn egg_moves_by_creature() {
    let db = seeded();
    assert_eq!(sorted(db.egg_moves_of("Bulbasaur")), names(&["Amnesia", "Skull Bash"]));
    assert_eq!(sorted(db.egg_moves_of("SQUIRTLE")), names(&["Fake Out", "Haze"]));
    assert_eq!(db.egg_moves_of("Charmander"), names(&["Dragon Dance"]));
    assert!(db.egg_moves_of("Caterpie").is_empty());
    assert!(db.egg_moves_of("Ivysaur").is_empty());
    assert!(db.egg_moves_of("Nobody").is_empty());
}

#[test]
fn compatible_with_caterpie() {
    let db = seeded();
    let partners = db.compatible_with("Caterpie");
    assert!(partners.contains(&"Caterpie".to_string()));
    assert_eq!(sorted(partners), names(&["Caterpie", "Ditto"]));
}

#[test]
fn compatible_lists_each_partner_once() {
    let db = seeded();
    let partners = db.compatible_with("bulbasaur");
    assert_eq!(
        sorted(partners),
        names(&[
            "Bulbasaur", "Ivysaur", "Venusaur", "Charmander", "Charmeleon", "Charizard",
            "Squirtle", "Wartortle", "Blastoise", "Ditto",
        ])
    );
    assert_eq!(db.compatible_with("Ditto").len(), 11);
    assert!(db.compatible_with("MewTwo").is_empty());
    assert!(db.compatible_with("Unknown").is_empty());
}

#[test]
fn breeding_bulbasaur_with_charmander() {
    let db = seeded();
    let r = db.resolve_breeding("Bulbasaur", "Charmander");
    match &r.mother {
        GroupInfo::Groups(g) => assert_eq!(sorted(g.clone()), names(&["Monster", "Grass"])),
        GroupInfo::NotFound => panic!("Bulbasaur is seeded"),
    }
    match &r.other {
        GroupInfo::Groups(g) => assert_eq!(g.clone(), names(&["Monster"])),
        GroupInfo::NotFound => panic!("Charmander is seeded"),
    }
    assert_eq!(r.other.summary(), "Egg Groups: Monster");
    match &r.outcome {
        Outcome::Compatible { donor, egg_moves } => {
            assert_eq!(donor, "Bulbasaur");
            assert_eq!(sorted(egg_moves.clone()), names(&["Amnesia", "Skull Bash"]));
        }
        Outcome::Incompatible => panic!("they share Monster"),
    }
}

#[test]
fn breeding_caterpie_with_charmander_either_order() {
    let db = seeded();
    for (a, b) in [("Caterpie", "Charmander"), ("Charmander", "Caterpie")] {
        let r = db.resolve_breeding(a, b);
        assert!(matches!(r.outcome, Outcome::Incompatible));
        assert_eq!(r.outcome.summary(), "Bad Match!");
    }
    let r = db.resolve_breeding("Caterpie", "Charmander");
    assert_eq!(r.mother.summary(), "Egg Groups: Bug");
    assert_eq!(r.other.summary(), "Egg Groups: Monster");
}

#[test]
fn breeding_ditto_with_squirtle() {
    let db = seeded();
    let r = db.resolve_breeding("Ditto", "Squirtle");
    match &r.outcome {
        Outcome::Compatible { donor, egg_moves } => {
            assert_eq!(donor, "Squirtle");
            assert_eq!(sorted(egg_moves.clone()), names(&["Fake Out", "Haze"]));
        }
        Outcome::Incompatible => panic!("Ditto breeds with everything"),
    }
}

#[test]
fn breeding_squirtle_with_ditto() {
    let db = seeded();
    let r = db.resolve_breeding("Squirtle", "Ditto");
    match &r.outcome {
        Outcome::Compatible { donor, egg_moves } => {
            assert_eq!(donor, "Squirtle");
            assert_eq!(sorted(egg_moves.clone()), names(&["Fake Out", "Haze"]));
        }
        Outcome::Incompatible => panic!("Ditto breeds with everything"),
    }
}

#[test]
fn breeder_rule_ignores_case_and_keeps_the_typed_name() {
    let db = seeded();
    let r = db.resolve_breeding("dItTo", "squirtle");
    match &r.outcome {
        Outcome::Compatible { donor, .. } => assert_eq!(donor, "squirtle"),
        Outcome::Incompatible => panic!("Ditto breeds with everything"),
    }
    assert_eq!(donor("DITTO", "Haze"), "Haze");
    assert_eq!(donor("Squirtle", "Ditto"), "Squirtle");
    assert_eq!(donor("Dittos", "Ditto"), "Dittos");
}

#[test]
fn breeding_caterpie_with_ditto_has_no_egg_moves() {
    let db = seeded();
    let r = db.resolve_breeding("Caterpie", "Ditto");
    assert_eq!(r.outcome.summary(), "Caterpie\nEgg Moves: None");
}

#[test]
fn breeding_reports_unknown_sides() {
    let db = seeded();
    let r = db.resolve_breeding("Missingno", "Ditto");
    assert!(matches!(r.mother, GroupInfo::NotFound));
    assert_eq!(r.mother.summary(), "Not Found");
    assert!(matches!(r.outcome, Outcome::Incompatible));
    let r = db.resolve_breeding("MewTwo", "Ditto");
    assert_eq!(r.mother.summary(), "Egg Groups: None");
    assert!(matches!(r.outcome, Outcome::Incompatible));
}

#[test]
fn repeated_queries_are_identical() {
    let db = seeded();
    for (a, b) in [("Bulbasaur", "Charmander"), ("Ditto", "Squirtle"), ("Caterpie", "Blastoise")] {
        let first = db.resolve_breeding(a, b);
        let second = db.resolve_breeding(a, b);
        assert_eq!(first.mother.summary(), second.mother.summary());
        assert_eq!(first.other.summary(), second.other.summary());
        assert_eq!(first.outcome.summary(), second.outcome.summary());
    }
    assert_eq!(db.compatible_with("Ditto"), db.compatible_with("Ditto"));
    assert_eq!(db.egg_groups_of("Ivysaur"), db.egg_groups_of("Ivysaur"));
    assert_eq!(db.search_summary("Squirtle"), db.search_summary("Squirtle"));
}

#[test]
fn search_texts() {
    let db = seeded();
    assert_eq!(db.search_summary("Nobody"), "Not Found");
    assert_eq!(db.search_summary("MewTwo"), "Breedable: None");
    let text = db.search_summary("caterpie");
    assert!(text == "Breedable: Caterpie, Ditto" || text == "Breedable: Ditto, Caterpie", "{text}");
}

#[test]
fn list_texts() {
    assert_eq!(list_summary(&vec![]), "None");
    assert_eq!(list_summary(&vec!["Haze".to_string()]), "Haze");
    let three = vec!["a".to_string(), "b".to_string(), "c".to_string()];
    assert_eq!(list_summary(&three), "a, b, c");
    assert!(lists_overlap(&three, &vec!["x".to_string(), "c".to_string()]));
    assert!(!lists_overlap(&three, &vec!["A".to_string()]));
    assert!(!lists_overlap(&vec![], &three));
}

fn entry(id: i64, name: &str) -> Entry {
    Entry { id, name: name.to_string() }
}

fn stats(move_id: i64, category: &str, power: Option<i64>, accuracy: Option<i64>) -> MoveStats {
    MoveStats { move_id, category: category.to_string(), power, accuracy }
}

fn small(creatures: Vec<Entry>, memberships: Vec<Membership>) -> Result<Database, StoreError> {
    with_stats(creatures, memberships, vec![stats(1, "Status", None, None)])
}

fn with_stats(
    creatures: Vec<Entry>,
    memberships: Vec<Membership>,
    move_stats: Vec<MoveStats>,
) -> Result<Database, StoreError> {
    Database::from_rows(
        creatures,
        vec![entry(1, "Monster"), entry(2, "Bug")],
        memberships,
        vec![entry(1, "Haze")],
        move_stats,
        vec![Learnset { creature_id: 1, move_id: 1, method: "egg".to_string() }],
    )
}

#[test]
fn from_rows_accepts_a_sound_catalog() {
    let db = small(
        vec![entry(1, "Alpha"), entry(2, "Beta")],
        vec![Membership { creature_id: 1, group_id: 1 }, Membership { creature_id: 2, group_id: 1 }],
    );
    match db {
        Ok(db) => {
            assert_eq!(db.compatible_with("BETA"), names(&["Alpha", "Beta"]));
            assert_eq!(db.egg_moves_of("alpha"), names(&["Haze"]));
        }
        Err(_) => panic!("the rows are sound"),
    }
}

#[test]
fn from_rows_refuses_broken_rows() {
    let bad = [
        small(vec![entry(1, "Alpha"), entry(1, "Beta")], vec![]),
        small(vec![entry(1, "Alpha"), entry(2, "ALPHA")], vec![]),
        small(vec![entry(0, "Alpha")], vec![]),
        small(vec![entry(1, "Alpha")], vec![Membership { creature_id: 1, group_id: 9 }]),
        small(vec![entry(1, "Alpha")], vec![Membership { creature_id: 3, group_id: 1 }]),
        small(
            vec![entry(1, "Alpha")],
            vec![Membership { creature_id: 1, group_id: 1 }, Membership { creature_id: 1, group_id: 1 }],
        ),
        small(vec![entry(2, "Alpha")], vec![]),
        with_stats(vec![entry(1, "Alpha")], vec![], vec![stats(1, "Ice", None, None)]),
        with_stats(vec![entry(1, "Alpha")], vec![], vec![stats(1, "status", None, None)]),
        with_stats(vec![entry(1, "Alpha")], vec![], vec![stats(1, "Physical", Some(0), Some(100))]),
        with_stats(vec![entry(1, "Alpha")], vec![], vec![stats(1, "Special", None, Some(-5))]),
        with_stats(vec![entry(1, "Alpha")], vec![], vec![stats(2, "Status", None, None)]),
        with_stats(vec![entry(1, "Alpha")], vec![], vec![]),
    ];
    for r in bad {
        assert!(matches!(r, Err(StoreError::Invalid)));
    }
}

#[test]
fn opened_catalog_is_the_seed() {
    let db = seeded();
    assert!(db.is_seeded());
    let other = small(vec![entry(1, "Alpha")], vec![Membership { creature_id: 1, group_id: 1 }]);
    match other {
        Ok(db) => assert!(!db.is_seeded()),
        Err(_) => panic!("the rows are sound"),
    }
}

#[test]
fn egg_tag_is_compared_exactly() {
    let db = Database::from_rows(
        vec![entry(1, "Alpha")],
        vec![entry(1, "Monster")],
        vec![Membership { creature_id: 1, group_id: 1 }],
        vec![entry(1, "Haze"), entry(2, "Fake Out"), entry(3, "Tackle")],
        vec![
            stats(1, "Status", None, None),
            stats(2, "Physical", Some(40), Some(100)),
            stats(3, "Physical", Some(40), None),
        ],
        vec![
            Learnset { creature_id: 1, move_id: 1, method: "egg".to_string() },
            Learnset { creature_id: 1, move_id: 2, method: "EGG".to_string() },
            Learnset { creature_id: 1, move_id: 3, method: "level".to_string() },
        ],
    );
    match db {
        Ok(db) => assert_eq!(db.egg_moves_of("alpha"), names(&["Haze"])),
        Err(_) => panic!("the rows are sound"),
    }
}
