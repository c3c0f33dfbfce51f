//! The application model: the whole state one frame of the host loop reads
//! and writes, and what that frame does to it.
//!
//! A frame first runs the one-time startup work, then reconciles the pending
//! state request (leaving the old state despawns its text, entering the new
//! one spawns its text and records a transition event), and only then lets
//! the active state's keyboard handler file the next request. A request
//! therefore takes effect one frame after the press that made it.

use vstd::prelude::*;
use vstd::string::StringExecFns;
use crate::state::AppState;
use crate::state::ButtonInput;
use crate::state::KeyCode;
use crate::state::add_game_text;
use crate::state::add_menu_text;
use crate::state::despawn_all_text;
use crate::state::game_text_spec;
use crate::state::in_game_respond_to_keyboard;
use crate::state::menu_text_spec;
use crate::state::menu_respond_to_keyboard;
use crate::state::requested_transition;
use crate::state::text_for_state;

verus! {

/// The record of one state change: the state that was left and the state
/// that was entered. The transition into the starting state has no exited
/// state.
#[derive(Clone, Copy, PartialEq, Eq, Structural, Debug)]
pub struct StateTransitionEvent {
    pub exited: Option<AppState>,
    pub entered: Option<AppState>,
}

/// The mathematical value of an [`AppModel`].
#[verifier::ext_equal]
pub struct ModelView {
    /// Whether the one-time startup work and the entry into the initial
    /// state have happened.
    pub started: bool,
    /// The state the application is in right now.
    pub state: AppState,
    /// The state change requested by the previous frame, not yet applied.
    pub next: Option<AppState>,
    /// The live text entities, in spawn order.
    pub texts: Seq<Seq<char>>,
    /// The key presses that arrived since the previous frame.
    pub pending_keys: Seq<KeyCode>,
    /// The transition events emitted by the latest frame.
    pub transitions: Seq<StateTransitionEvent>,
    /// The live camera entities.
    pub cameras: nat,
}

/// The model of the whole application: its state machine together with the
/// entities and events the frame callbacks touch.
pub struct AppModel {
    started: bool,
    state: AppState,
    next_state: Option<AppState>,
    texts: Vec<String>,
    pending_keys: Vec<KeyCode>,
    transitions: Vec<StateTransitionEvent>,
    cameras: usize,
}

impl View for AppModel {
    type V = ModelView;

    closed spec fn view(&self) -> ModelView {
        ModelView {
            started: self.started,
            state: self.state,
            next: self.next_state,
            texts: self.texts.deep_view(),
            pending_keys: self.pending_keys@,
            transitions: self.transitions@,
            cameras: self.cameras as nat,
        }
    }
}

/// The value of a freshly built application: in the menu, with nothing
/// spawned, nothing requested and nothing received yet.
pub open spec fn init() -> ModelView {
    ModelView {
        started: false,
        state: AppState::Menu,
        next: None,
        texts: Seq::empty(),
        pending_keys: Seq::empty(),
        transitions: Seq::empty(),
        cameras: 0,
    }
}

/// The one-time startup work of the first frame: the camera is spawned and
/// the initial state is entered, which spawns its text and records the
/// transition that has no exited state.
pub open spec fn start_phase(m: ModelView) -> ModelView {
    if m.started {
        m
    } else {
        ModelView {
            started: true,
            cameras: m.cameras + 1,
            texts: m.texts.push(text_for_state(m.state)),
            transitions: m.transitions.push(
                StateTransitionEvent { exited: None, entered: Some(m.state) },
            ),
            ..m
        }
    }
}

/// Reconciling the pending request: if a state change is pending, every
/// live text is despawned, the new state is entered, its text is spawned
/// and the transition is recorded; otherwise nothing happens.
pub open spec fn transition_phase(m: ModelView) -> ModelView {
    match m.next {
        None => m,
        Some(next) => ModelView {
            state: next,
            next: None,
            texts: seq![text_for_state(next)],
            transitions: m.transitions.push(
                StateTransitionEvent { exited: Some(m.state), entered: Some(next) },
            ),
            ..m
        },
    }
}

/// The active state's keyboard handler files the request that the frame's
/// key presses ask for.
pub open spec fn input_phase(m: ModelView, just_pressed: Seq<KeyCode>) -> ModelView {
    match requested_transition(m.state, just_pressed) {
        None => m,
        Some(next) => ModelView { next: Some(next), ..m },
    }
}

/// What one frame of the host loop does to the application: the queued key
/// presses are taken as this frame's input, the event list starts afresh,
/// startup work runs once, the pending request is reconciled, and the
/// keyboard handler of the now-active state files a new request.
pub open spec fn step(m: ModelView) -> ModelView {
    let just_pressed = m.pending_keys;
    let cleared = ModelView { pending_keys: Seq::empty(), transitions: Seq::empty(), ..m };
    input_phase(transition_phase(start_phase(cleared)), just_pressed)
}

/// The states an application can actually be in: before the first frame
/// nothing is spawned; afterwards exactly the camera and the text owned by
/// the current state are alive.
pub open spec fn inv(m: ModelView) -> bool {
    &&& !m.started ==> {
        &&& m.cameras == 0
        &&& m.texts.len() == 0
        &&& m.next is None
        &&& m.transitions.len() == 0
    }
    &&& m.started ==> {
        &&& m.cameras == 1
        &&& m.texts =~= seq![text_for_state(m.state)]
    }
}

/// A fresh application, not yet updated: it is in the menu and owns no
/// entities until the first frame runs.
pub fn create_app() -> (app: AppModel)
    ensures
        app@ == init(),
        app.inv(),
{
    let app = AppModel {
        started: false,
        state: AppState::Menu,
        next_state: None,
        texts: Vec::new(),
        pending_keys: Vec::new(),
        transitions: Vec::new(),
        cameras: 0,
    };
    proof {
        assert(app@ =~~= init());
    }
    app
}

impl AppModel {
    /// Whether this application value is one the library can actually
    /// build: see [`inv`].
    pub open spec fn inv(&self) -> bool {
        inv(self@)
    }

    /// A key press arriving between frames: it is queued and read by the
    /// next frame.
    pub fn send_key_press(&mut self, key: KeyCode)
        ensures
            final(self)@ == (ModelView { pending_keys: old(self)@.pending_keys.push(key), ..old(self)@ }),
            old(self).inv() ==> final(self).inv(),
    {
        self.pending_keys.push(key);
        proof {
            assert(self@ =~~= (ModelView { pending_keys: old(self)@.pending_keys.push(key), ..old(self)@ }));
        }
    }

    /// How many text entities are alive.
    pub fn count_n_texts(&self) -> (n: usize)
        ensures
            n == self@.texts.len(),
    {
        self.texts.len()
    }

    /// The single live text entity.
    pub fn get_text(&self) -> (r: String)
        requires
            self@.texts.len() == 1,
        ensures
            r@ == self@.texts[0],
    {
        self.texts[0].clone()
    }

    /// The state the application is in right now.
    pub fn get_program_state(&self) -> (r: AppState)
        ensures
            r == self@.state,
    {
        self.state
    }

    /// The transition events the latest frame emitted, oldest first.
    pub fn transition_events(&self) -> (r: &Vec<StateTransitionEvent>)
        ensures
            r@ == self@.transitions,
    {
        &self.transitions
    }

    /// One frame of the host loop; see [`step`].
    pub fn update(&mut self)
        requires
            old(self).inv(),
        ensures
            final(self)@ == step(old(self)@),
            final(self).inv(),
    {
        let mut just_pressed: Vec<KeyCode> = Vec::new();
        core::mem::swap(&mut just_pressed, &mut self.pending_keys);
        let input = ButtonInput { just_pressed };
        self.transitions.clear();

        if !self.started {
            self.started = true;
            self.cameras = self.cameras + 1;
            self.transitions.push(
                StateTransitionEvent { exited: None, entered: Some(self.state) },
            );
            match self.state {
                AppState::Menu => add_menu_text(&mut self.texts),
                AppState::InGame => add_game_text(&mut self.texts),
            }
        }

        let pending = self.next_state;
        self.next_state = None;
        match pending {
            None => {},
            Some(next) => {
                let exited = self.state;
                despawn_all_text(&mut self.texts);
                self.state = next;
                self.transitions.push(
                    StateTransitionEvent { exited: Some(exited), entered: Some(next) },
                );
                match next {
                    AppState::Menu => add_menu_text(&mut self.texts),
                    AppState::InGame => add_game_text(&mut self.texts),
                }
            },
        }

        match self.state {
            AppState::Menu => menu_respond_to_keyboard(&input, &mut self.next_state),
            AppState::InGame => in_game_respond_to_keyboard(&input, &mut self.next_state),
        }

        proof {
            assert(self@ =~~= step(old(self)@));
            lemma_inv_step(old(self)@);
        }
    }
}

/// The name of a state in a log line.
pub open spec fn state_label(state: AppState) -> Seq<char> {
    match state {
        AppState::Menu => "Menu"@,
        AppState::InGame => "InGame"@,
    }
}

/// The name of an optional state in a log line; the missing state before
/// the first transition reads `none`.
pub open spec fn opt_state_label(state: Option<AppState>) -> Seq<char> {
    match state {
        None => "none"@,
        Some(s) => state_label(s),
    }
}

/// The log line for one transition event.
pub open spec fn transition_message_spec(t: StateTransitionEvent) -> Seq<char> {
    "AppState transition: "@ + opt_state_label(t.exited) + " => "@ + opt_state_label(t.entered)
}

/// The name of an optional state as a string slice.
fn opt_state_label_str(state: Option<AppState>) -> (r: &'static str)
    ensures
        r@ == opt_state_label(state),
{
    match state {
        None => "none",
        Some(AppState::Menu) => "Menu",
        Some(AppState::InGame) => "InGame",
    }
}

/// The log line for one transition event, as an owned string.
pub fn transition_message(t: &StateTransitionEvent) -> (r: String)
    ensures
        r@ == transition_message_spec(*t),
{
    let mut r = ("AppState transition: ").to_owned();
    r.append(opt_state_label_str(t.exited));
    r.append(" => ");
    r.append(opt_state_label_str(t.entered));
    r
}

/// The log line a frame produces: the frame's transitions can number at
/// most one of interest, so only the latest event is reported, and a frame
/// without transitions reports nothing.
pub fn log_transitions(transitions: &Vec<StateTransitionEvent>) -> (r: Option<String>)
    ensures
        r is Some <==> transitions@.len() > 0,
        r matches Some(msg) ==> msg@ == transition_message_spec(transitions@.last()),
{
    let n = transitions.len();
    if n == 0 {
        None
    } else {
        Some(transition_message(&transitions[n - 1]))
    }
}

/// A frame never breaks the entity bookkeeping: every application value the
/// library can build steps to another such value.
pub proof fn lemma_inv_step(m: ModelView)
    requires
        inv(m),
    ensures
        inv(step(m)),
{
    assert(step(m).texts =~= seq![text_for_state(step(m).state)]);
}

/// A fresh application is in the menu, and its first frame spawns exactly
/// the menu text.
pub proof fn lemma_starts_at_menu()
    ensures
        init().state == AppState::Menu,
        step(init()).state == AppState::Menu,
        step(init()).texts =~= seq![menu_text_spec()],
{
    assert(step(init()).texts =~= seq![menu_text_spec()]);
}

/// The two states never show the same text.
pub proof fn lemma_state_texts_differ()
    ensures
        menu_text_spec() != game_text_spec(),
{
    reveal_strlit("Menu. Press space to start");
    reveal_strlit("Game. Press escape to quit");
    assert(menu_text_spec()[0] != game_text_spec()[0]);
}

/// Pressing space while the menu is up puts the application in the game
/// two frames later: one frame to read the key and file the request, one to
/// reconcile it. Only the game text is then alive.
pub proof fn lemma_space_starts_game(m: ModelView)
    requires
        inv(m),
        m.started,
        m.state == AppState::Menu,
        m.next is None,
    ensures
        ({
            let pressed = ModelView { pending_keys: m.pending_keys.push(KeyCode::Space), ..m };
            &&& step(pressed).state == AppState::Menu
            &&& step(step(pressed)).state == AppState::InGame
            &&& step(step(pressed)).texts =~= seq![game_text_spec()]
        }),
{
    let pressed = ModelView { pending_keys: m.pending_keys.push(KeyCode::Space), ..m };
    assert(pressed.pending_keys.contains(KeyCode::Space)) by {
        assert(pressed.pending_keys[pressed.pending_keys.len() - 1] == KeyCode::Space);
    }
    assert(step(step(pressed)).texts =~= seq![game_text_spec()]);
}

/// Pressing escape while the game runs puts the application back in the
/// menu two frames later, with only the menu text alive.
pub proof fn lemma_escape_leaves_game(m: ModelView)
    requires
        inv(m),
        m.started,
        m.state == AppState::InGame,
        m.next is None,
    ensures
        ({
            let pressed = ModelView { pending_keys: m.pending_keys.push(KeyCode::Escape), ..m };
            &&& step(pressed).state == AppState::InGame
            &&& step(step(pressed)).state == AppState::Menu
            &&& step(step(pressed)).texts =~= seq![menu_text_spec()]
        }),
{
    let pressed = ModelView { pending_keys: m.pending_keys.push(KeyCode::Escape), ..m };
    assert(pressed.pending_keys.contains(KeyCode::Escape)) by {
        assert(pressed.pending_keys[pressed.pending_keys.len() - 1] == KeyCode::Escape);
    }
    assert(step(step(pressed)).texts =~= seq![menu_text_spec()]);
}

/// Only the designated key moves the application on: while the menu is up,
/// frames whose input holds no space press leave it in the menu with no
/// request filed, however often they run.
pub proof fn lemma_menu_waits_for_space(m: ModelView)
    requires
        m.started,
        m.state == AppState::Menu,
        m.next is None,
        !m.pending_keys.contains(KeyCode::Space),
    ensures
        step(m).state == AppState::Menu,
        step(m).next is None,
{
}

/// Reconciling a state change despawns the text of the state that was
/// left: afterwards not one live text belongs to it.
pub proof fn lemma_exit_despawns_text(m: ModelView)
    requires
        inv(m),
        m.started,
        m.next matches Some(next) && next != m.state,
    ensures
        forall|i: int|
            0 <= i < step(m).texts.len() ==> step(m).texts[i] != text_for_state(m.state),
{
    lemma_state_texts_differ();
    assert(step(m).texts =~= seq![text_for_state(step(m).state)]);
}

} // verus!
