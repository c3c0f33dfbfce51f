//! The two application states, the key bindings that move between them, and
//! the per-state text entities.
//!
//! Each function here is one decision the application makes: which transition
//! a key press requests, which text is spawned when a state is entered, and
//! what despawning does to the set of live text entities. The host loop only
//! carries these decisions out.

use vstd::prelude::*;

verus! {

/// The high-level mode the application is in.
#[derive(Clone, Copy, PartialEq, Eq, Structural, Debug, Hash)]
pub enum AppState {
    Menu,
    InGame,
}

impl Default for AppState {
    /// The application starts in the menu.
    fn default() -> (r: Self)
        ensures
            r == AppState::Menu,
    {
        AppState::Menu
    }
}

/// The keys the application reacts to.
#[derive(Clone, Copy, PartialEq, Eq, Structural, Debug, Hash)]
pub enum KeyCode {
    Space,
    Escape,
}

/// The keyboard state a single frame sees: the keys that went down since the
/// previous frame.
pub struct ButtonInput {
    pub just_pressed: Vec<KeyCode>,
}

impl View for ButtonInput {
    type V = Seq<KeyCode>;

    open spec fn view(&self) -> Seq<KeyCode> {
        self.just_pressed@
    }
}

impl ButtonInput {
    /// Whether `key` went down since the previous frame.
    pub fn just_pressed(&self, key: KeyCode) -> (r: bool)
        ensures
            r == self@.contains(key),
    {
        let mut i: usize = 0;
        while i < self.just_pressed.len()
            invariant
                i <= self.just_pressed@.len(),
                forall|j: int| 0 <= j < i ==> self.just_pressed@[j] != key,
            decreases self.just_pressed@.len() - i,
        {
            if self.just_pressed[i] == key {
                return true;
            }
            i = i + 1;
        }
        false
    }
}

/// The transition a frame's key presses request in a given state: space
/// starts the game from the menu, escape leaves the game for the menu, and
/// every other combination requests nothing.
pub open spec fn requested_transition(state: AppState, just_pressed: Seq<KeyCode>) -> Option<
    AppState,
> {
    match state {
        AppState::Menu => if just_pressed.contains(KeyCode::Space) {
            Some(AppState::InGame)
        } else {
            None
        },
        AppState::InGame => if just_pressed.contains(KeyCode::Escape) {
            Some(AppState::Menu)
        } else {
            None
        },
    }
}

/// While in the menu, a press of space requests the switch to the game;
/// anything else leaves the pending request alone.
pub fn menu_respond_to_keyboard(input: &ButtonInput, next_state: &mut Option<AppState>)
    ensures
        *final(next_state) == (if input@.contains(KeyCode::Space) {
            Some(AppState::InGame)
        } else {
            *old(next_state)
        }),
{
    if input.just_pressed(KeyCode::Space) {
        *next_state = Some(AppState::InGame);
    }
}

/// While in the game, a press of escape requests the switch back to the
/// menu; anything else leaves the pending request alone.
pub fn in_game_respond_to_keyboard(input: &ButtonInput, next_state: &mut Option<AppState>)
    ensures
        *final(next_state) == (if input@.contains(KeyCode::Escape) {
            Some(AppState::Menu)
        } else {
            *old(next_state)
        }),
{
    if input.just_pressed(KeyCode::Escape) {
        *next_state = Some(AppState::Menu);
    }
}

/// The text shown while the menu is active.
pub open spec fn menu_text_spec() -> Seq<char> {
    "Menu. Press space to start"@
}

/// The text shown while the game is active.
pub open spec fn game_text_spec() -> Seq<char> {
    "Game. Press escape to quit"@
}

/// The text owned by a state: it is alive exactly while its state is.
pub open spec fn text_for_state(state: AppState) -> Seq<char> {
    match state {
        AppState::Menu => menu_text_spec(),
        AppState::InGame => game_text_spec(),
    }
}

/// The menu text as an owned string.
pub fn menu_text() -> (r: String)
    ensures
        r@ == menu_text_spec(),
{
    ("Menu. Press space to start").to_owned()
}

/// The game text as an owned string.
pub fn game_text() -> (r: String)
    ensures
        r@ == game_text_spec(),
{
    ("Game. Press escape to quit").to_owned()
}

/// Entering the menu spawns the menu text beside whatever is already live.
pub fn add_menu_text(texts: &mut Vec<String>)
    ensures
        final(texts).deep_view() == old(texts).deep_view().push(menu_text_spec()),
{
    texts.push(menu_text());
    proof {
        assert(texts.deep_view() =~~= old(texts).deep_view().push(menu_text_spec()));
    }
}

/// Entering the game spawns the game text beside whatever is already live.
pub fn add_game_text(texts: &mut Vec<String>)
    ensures
        final(texts).deep_view() == old(texts).deep_view().push(game_text_spec()),
{
    texts.push(game_text());
    proof {
        assert(texts.deep_view() =~~= old(texts).deep_view().push(game_text_spec()));
    }
}

/// Leaving a state despawns every live text entity, whichever state spawned
/// it.
pub fn despawn_all_text(texts: &mut Vec<String>)
    ensures
        final(texts).deep_view() == Seq::<Seq<char>>::empty(),
{
    texts.clear();
    proof {
        assert(texts.deep_view() =~~= Seq::<Seq<char>>::empty());
    }
}

} // verus!
