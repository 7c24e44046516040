//! The decisions of the menu screens: which buttons each screen offers, where
//! they lead, how a button is coloured, and when the menu moves on.
use vstd::prelude::*;
use crate::catalog::Database;
use crate::resolver::{info_text, outcome_text};

verus! {

/// The menu's screens.
#[derive(Clone, Copy, Debug, PartialEq, Eq, Hash, Structural)]
pub enum MenuState {
    Loading,
    Main,
    Breed,
    Search,
}

impl Default for MenuState {
    fn default() -> (r: Self)
        ensures
            r == MenuState::Loading,
    {
        MenuState::Loading
    }
}

/// A pointer button.
#[derive(Clone, Copy, Debug, PartialEq, Eq, Hash, Structural)]
pub enum PointerButton {
    Primary,
    Secondary,
    Middle,
}

/// How the pointer is interacting with a button.
#[derive(Clone, Copy, Debug, PartialEq, Eq, Hash, Structural)]
pub enum Interaction {
    Pressed,
    Hovered,
    Idle,
}

/// An sRGB colour, one byte per channel.
#[derive(Clone, Copy, Debug, PartialEq, Eq, Hash, Structural)]
pub struct Rgb {
    pub r: u8,
    pub g: u8,
    pub b: u8,
}

/// What a menu button does when clicked.
#[derive(Clone, Copy, Debug, PartialEq, Eq, Hash, Structural)]
pub enum MenuAction {
    Goto(MenuState),
    Quit,
    SubmitBreed,
    SubmitSearch,
}

/// A button of a menu screen: its label and its action.
pub struct MenuButton {
    pub label: String,
    pub action: MenuAction,
}

/// The font that every menu text uses, by asset path.
pub struct GameFont(pub String);

/// The menu as a whole: the transitions that do not come from a button.
pub struct MenuPlugin;

pub open spec fn rgb(r: u8, g: u8, b: u8) -> Rgb {
    Rgb { r, g, b }
}

pub open spec fn button_rgb() -> Rgb {
    rgb(0x33, 0x55, 0x77)
}

pub open spec fn hovered_rgb() -> Rgb {
    rgb(0x77, 0x55, 0x33)
}

pub open spec fn pressed_rgb() -> Rgb {
    rgb(0x00, 0x00, 0x00)
}

impl Rgb {
    /// Menu text.
    pub fn text() -> (c: Rgb)
        ensures
            c == rgb(0xFF, 0xFF, 0xFF),
    {
        Rgb { r: 0xFF, g: 0xFF, b: 0xFF }
    }

    /// The background of a text input.
    pub fn text_input() -> (c: Rgb)
        ensures
            c == rgb(0x33, 0x55, 0x33),
    {
        Rgb { r: 0x33, g: 0x55, b: 0x33 }
    }

    /// A button at rest.
    pub fn button() -> (c: Rgb)
        ensures
            c == button_rgb(),
    {
        Rgb { r: 0x33, g: 0x55, b: 0x77 }
    }

    /// A button under the pointer.
    pub fn hovered_button() -> (c: Rgb)
        ensures
            c == hovered_rgb(),
    {
        Rgb { r: 0x77, g: 0x55, b: 0x33 }
    }

    /// A button being pressed, or the selected option.
    pub fn pressed_button() -> (c: Rgb)
        ensures
            c == pressed_rgb(),
    {
        Rgb { r: 0x00, g: 0x00, b: 0x00 }
    }
}

/// The colour of a button: pressed, or selected while idle, is the pressed
/// colour; under the pointer, the hovered colour; else the resting colour.
pub open spec fn highlight(interaction: Interaction, selected: bool) -> Rgb {
    match interaction {
        Interaction::Pressed => pressed_rgb(),
        Interaction::Hovered => hovered_rgb(),
        Interaction::Idle => if selected {
            pressed_rgb()
        } else {
            button_rgb()
        },
    }
}

/// The colour a button takes for its interaction and whether it is the
/// selected option.
pub fn button_highlight(interaction: Interaction, selected: bool) -> (c: Rgb)
    ensures
        c == highlight(interaction, selected),
{
    match interaction {
        Interaction::Pressed => Rgb::pressed_button(),
        Interaction::Hovered => Rgb::hovered_button(),
        Interaction::Idle => if selected {
            Rgb::pressed_button()
        } else {
            Rgb::button()
        },
    }
}

/// Whether a click on the quit button ends the program: only a primary click does.
pub fn quit_game_on_click(button: PointerButton) -> (r: bool)
    ensures
        r == (button == PointerButton::Primary),
{
    button == PointerButton::Primary
}

/// The screen a click leads to, for a button that moves to `state` on a
/// click of `click`: `state` when `pressed` is that button, else nowhere.
pub fn change_state_on_click(click: PointerButton, state: MenuState, pressed: PointerButton) -> (r:
    Option<MenuState>)
    ensures
        r == if pressed == click {
            Some(state)
        } else {
            None::<MenuState>
        },
{
    if pressed == click {
        Some(state)
    } else {
        None
    }
}

/// The font the menu loads at start-up.
pub fn load_font() -> (f: GameFont)
    ensures
        f.0@ == "embedded://assets/fonts/Ithaca/Ithaca-LVB75.ttf"@,
{
    GameFont(String::from_str("embedded://assets/fonts/Ithaca/Ithaca-LVB75.ttf"))
}

fn button(label: &str, action: MenuAction) -> (b: MenuButton)
    ensures
        b.label@ == label@,
        b.action == action,
{
    MenuButton { label: String::from_str(label), action }
}

/// Breed, Search and Quit, top to bottom.
pub open spec fn is_main_screen(r: Seq<MenuButton>) -> bool {
    &&& r.len() == 3
    &&& r[0].label@ == "Breed"@ && r[0].action == MenuAction::Goto(MenuState::Breed)
    &&& r[1].label@ == "Search"@ && r[1].action == MenuAction::Goto(MenuState::Search)
    &&& r[2].label@ == "Quit"@ && r[2].action == MenuAction::Quit
}

/// Submit, which runs `submit`, then Back to the main screen.
pub open spec fn is_form_screen(r: Seq<MenuButton>, submit: MenuAction) -> bool {
    &&& r.len() == 2
    &&& r[0].label@ == "Submit"@ && r[0].action == submit
    &&& r[1].label@ == "Back"@ && r[1].action == MenuAction::Goto(MenuState::Main)
}

/// The buttons of the main screen, top to bottom.
pub fn main_enter() -> (r: Vec<MenuButton>)
    ensures
        is_main_screen(r@),
{
    vec![
        button("Breed", MenuAction::Goto(MenuState::Breed)),
        button("Search", MenuAction::Goto(MenuState::Search)),
        button("Quit", MenuAction::Quit),
    ]
}

/// The buttons of the breeding screen, top to bottom.
pub fn breed_enter() -> (r: Vec<MenuButton>)
    ensures
        is_form_screen(r@, MenuAction::SubmitBreed),
{
    vec![button("Submit", MenuAction::SubmitBreed), button("Back", MenuAction::Goto(MenuState::Main))]
}

/// The buttons of the search screen, top to bottom.
pub fn search_enter() -> (r: Vec<MenuButton>)
    ensures
        is_form_screen(r@, MenuAction::SubmitSearch),
{
    vec![
        button("Submit", MenuAction::SubmitSearch),
        button("Back", MenuAction::Goto(MenuState::Main)),
    ]
}

impl MenuPlugin {
    /// The screen the menu moves to on its own: from loading to the main
    /// screen, and nowhere from any other.
    pub fn on_update(&self, current: MenuState) -> (r: Option<MenuState>)
        ensures
            r == if current == MenuState::Loading {
                Some(MenuState::Main)
            } else {
                None::<MenuState>
            },
    {
        if current == MenuState::Loading {
            Some(MenuState::Main)
        } else {
            None
        }
    }

    /// The buttons of the screen entered: none while loading.
    pub fn on_enter(&self, state: MenuState) -> (r: Vec<MenuButton>)
        ensures
            state == MenuState::Loading ==> r@.len() == 0,
            state == MenuState::Main ==> is_main_screen(r@),
            state == MenuState::Breed ==> is_form_screen(r@, MenuAction::SubmitBreed),
            state == MenuState::Search ==> is_form_screen(r@, MenuAction::SubmitSearch),
    {
        match state {
            MenuState::Loading => Vec::new(),
            MenuState::Main => main_enter(),
            MenuState::Breed => breed_enter(),
            MenuState::Search => search_enter(),
        }
    }
}

/// The three texts of the breeding screen after a click on Submit: the
/// mother's line, the other's line and the outcome; nothing changes unless
/// the click is a primary one.
pub fn breed_submit_button(db: &Database, button: PointerButton, mother: &str, other: &str) -> (r:
    Option<(String, String, String)>)
    ensures
        button != PointerButton::Primary ==> r is None,
        button == PointerButton::Primary ==> (r matches Some((m, o, res)) && m@ == info_text(
            db.info_spec(mother@),
        ) && o@ == info_text(db.info_spec(other@)) && res@ == outcome_text(
            db.outcome_spec(mother@, other@),
        )),
{
    if button != PointerButton::Primary {
        return None;
    }
    let result = db.resolve_breeding(mother, other);
    Some((result.mother.summary(), result.other.summary(), result.outcome.summary()))
}

/// The result text of the search screen after a click on Submit; nothing
/// changes unless the click is a primary one.
pub fn search_submit_button(db: &Database, button: PointerButton, name: &str) -> (r: Option<String>)
    ensures
        button != PointerButton::Primary ==> r is None,
        button == PointerButton::Primary ==> (r matches Some(t) && t@ == db.search_text(name@)),
{
    if button != PointerButton::Primary {
        return None;
    }
    Some(db.search_summary(name))
}

} // verus!
