use egg_breeder::catalog::Database;
use egg_breeder::menu::{
    breed_enter, breed_submit_button, button_highlight, search_submit_button, change_state_on_click, load_font, main_enter,
    quit_game_on_click, search_enter, Interaction, MenuAction, MenuPlugin, MenuState,
    PointerButton, Rgb,
};

#[test]
fn highlight_colours() {
    let pressed = Rgb { r: 0, g: 0, b: 0 };
    let hovered = Rgb { r: 0x77, g: 0x55, b: 0x33 };
    let resting = Rgb { r: 0x33, g: 0x55, b: 0x77 };
    assert_eq!(button_highlight(Interaction::Pressed, false), pressed);
    assert_eq!(button_highlight(Interaction::Pressed, true), pressed);
    assert_eq!(button_highlight(Interaction::Idle, true), pressed);
    assert_eq!(button_highlight(Interaction::Hovered, true), hovered);
    assert_eq!(button_highlight(Interaction::Hovered, false), hovered);
    assert_eq!(button_highlight(Interaction::Idle, false), resting);
    assert_eq!(Rgb::text(), Rgb { r: 0xFF, g: 0xFF, b: 0xFF });
    assert_eq!(Rgb::text_input(), Rgb { r: 0x33, g: 0x55, b: 0x33 });
}

#[test]
fn clicks() {
    assert!(quit_game_on_click(PointerButton::Primary));
    assert!(!quit_game_on_click(PointerButton::Secondary));
    assert!(!quit_game_on_click(PointerButton::Middle));
    assert_eq!(
        change_state_on_click(PointerButton::Primary, MenuState::Breed, PointerButton::Primary),
        Some(MenuState::Breed)
    );
    assert_eq!(
        change_state_on_click(PointerButton::Primary, MenuState::Breed, PointerButton::Middle),
        None
    );
}

#[test]
fn screens() {
    let main: Vec<(String, MenuAction)> =
        main_enter().into_iter().map(|b| (b.label, b.action)).collect();
    assert_eq!(
        main,
        vec![
            ("Breed".to_string(), MenuAction::Goto(MenuState::Breed)),
            ("Search".to_string(), MenuAction::Goto(MenuState::Search)),
            ("Quit".to_string(), MenuAction::Quit),
        ]
    );
    let breed = breed_enter();
    assert_eq!(breed[0].label, "Submit");
    assert_eq!(breed[0].action, MenuAction::SubmitBreed);
    assert_eq!(breed[1].action, MenuAction::Goto(MenuState::Main));
    let search = search_enter();
    assert_eq!(search[0].action, MenuAction::SubmitSearch);
    assert_eq!(search[1].label, "Back");
    assert_eq!(load_font().0, "embedded://assets/fonts/Ithaca/Ithaca-LVB75.ttf");
}

#[test]
fn menu_starts_loading_then_moves_to_main() {
    let start = MenuState::default();
    assert_eq!(start, MenuState::Loading);
    assert_eq!(MenuPlugin.on_update(start), Some(MenuState::Main));
    assert_eq!(MenuPlugin.on_update(MenuState::Main), None);
    assert_eq!(MenuPlugin.on_update(MenuState::Search), None);
}

#[test]
fn screens_by_state() {
    assert!(MenuPlugin.on_enter(MenuState::Loading).is_empty());
    let labels = |s: MenuState| -> Vec<String> {
        MenuPlugin.on_enter(s).into_iter().map(|b| b.label).collect()
    };
    assert_eq!(labels(MenuState::Main), vec!["Breed", "Search", "Quit"]);
    assert_eq!(labels(MenuState::Breed), vec!["Submit", "Back"]);
    assert_eq!(MenuPlugin.on_enter(MenuState::Search)[0].action, MenuAction::SubmitSearch);
}

#[test]
fn submit_buttons_fill_the_texts() {
    let db = match Database::open() {
        Ok(db) => db,
        Err(_) => panic!("the seeded catalog must open"),
    };
    assert!(breed_submit_button(&db, PointerButton::Secondary, "Ditto", "Squirtle").is_none());
    match breed_submit_button(&db, PointerButton::Primary, "Ditto", "Squirtle") {
        Some((m, o, r)) => {
            let prefix = "Egg Groups: ";
            assert!(m.starts_with(prefix), "{m}");
            let mut groups: Vec<&str> = m[prefix.len()..].split(", ").collect();
            groups.sort();
            assert_eq!(groups, vec!["Bug", "Grass", "Monster", "Normal", "Psychic"]);
            assert_eq!(o, "Egg Groups: Monster");
            assert!(r == "Squirtle\nEgg Moves: Fake Out, Haze" || r == "Squirtle\nEgg Moves: Haze, Fake Out", "{r}");
        }
        None => panic!("a primary click submits"),
    }
    match breed_submit_button(&db, PointerButton::Primary, "Caterpie", "Nobody") {
        Some((m, o, r)) => {
            assert_eq!(m, "Egg Groups: Bug");
            assert_eq!(o, "Not Found");
            assert_eq!(r, "Bad Match!");
        }
        None => panic!("a primary click submits"),
    }
    assert_eq!(search_submit_button(&db, PointerButton::Middle, "Ditto"), None);
    assert_eq!(search_submit_button(&db, PointerButton::Primary, "Nobody"), Some("Not Found".to_string()));
}
