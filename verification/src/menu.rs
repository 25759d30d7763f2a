//! The main menu: its buttons, how a button reacts to the pointer, and what one frame of
//! button interactions does to input focus and to the game state.

use vstd::prelude::*;

use crate::state::GameState;

verus! {

/// How the pointer currently interacts with a button.
#[derive(Clone, Copy, Debug, PartialEq, Eq, Hash, Structural)]
pub enum Interaction {
    Pressed,
    Hovered,
    /// The pointer neither presses nor hovers the button.
    Idle,
}

/// The background colour a button takes.
#[derive(Clone, Copy, Debug, PartialEq, Eq, Hash, Structural)]
pub enum ButtonShade {
    Normal,
    Hovered,
    Pressed,
}

/// The border colour a button takes.
#[derive(Clone, Copy, Debug, PartialEq, Eq, Hash, Structural)]
pub enum BorderShade {
    White,
    Black,
}

/// What a button does to input focus.
#[derive(Clone, Copy, Debug, PartialEq, Eq, Hash, Structural)]
pub enum FocusChange {
    /// The button takes input focus.
    Take,
    /// Input focus is cleared.
    Clear,
}

/// How the menu responds to a change of one button's interaction.
#[derive(Clone, Copy, Debug, PartialEq, Eq, Hash)]
pub struct MenuResponse {
    pub focus: FocusChange,
    pub background: ButtonShade,
    pub border: BorderShade,
    /// Whether the button is marked as changed, so that accessibility updates it.
    pub mark_changed: bool,
    /// The state the game is asked to move to, if any.
    pub next_state: Option<GameState>,
}

/// The response to `interaction` on a button that leads to `target`.
pub open spec fn spec_respond(interaction: Interaction, target: GameState) -> MenuResponse {
    match interaction {
        Interaction::Pressed => MenuResponse {
            focus: FocusChange::Take,
            background: ButtonShade::Pressed,
            border: BorderShade::White,
            mark_changed: true,
            next_state: Some(target),
        },
        Interaction::Hovered => MenuResponse {
            focus: FocusChange::Take,
            background: ButtonShade::Hovered,
            border: BorderShade::White,
            mark_changed: true,
            next_state: None,
        },
        Interaction::Idle => MenuResponse {
            focus: FocusChange::Clear,
            background: ButtonShade::Normal,
            border: BorderShade::Black,
            mark_changed: false,
            next_state: None,
        },
    }
}

/// Responds to a button leading to `target` whose interaction changed to `interaction`.
/// A hovered or pressed button takes focus, gets a white border and is marked changed;
/// only a press asks for a new state, and the state asked for is the button's target.
pub fn respond(interaction: Interaction, target: GameState) -> (r: MenuResponse)
    ensures
        r == spec_respond(interaction, target),
        r.next_state is Some <==> interaction == Interaction::Pressed,
        r.next_state matches Some(t) ==> t == target,
        (r.focus == FocusChange::Take) <==> (interaction != Interaction::Idle),
        r.mark_changed <==> (interaction != Interaction::Idle),
        (r.border == BorderShade::White) <==> (interaction != Interaction::Idle),
        interaction == Interaction::Pressed ==> r.background == ButtonShade::Pressed,
        interaction == Interaction::Hovered ==> r.background == ButtonShade::Hovered,
        interaction == Interaction::Idle ==> r.background == ButtonShade::Normal,
{
    match interaction {
        Interaction::Pressed => MenuResponse {
            focus: FocusChange::Take,
            background: ButtonShade::Pressed,
            border: BorderShade::White,
            mark_changed: true,
            next_state: Some(target),
        },
        Interaction::Hovered => MenuResponse {
            focus: FocusChange::Take,
            background: ButtonShade::Hovered,
            border: BorderShade::White,
            mark_changed: true,
            next_state: None,
        },
        Interaction::Idle => MenuResponse {
            focus: FocusChange::Clear,
            background: ButtonShade::Normal,
            border: BorderShade::Black,
            mark_changed: false,
            next_state: None,
        },
    }
}

/// A change of interaction on one menu button during a frame.
#[derive(Clone, Copy, Debug, PartialEq, Eq, Hash)]
pub struct MenuEvent {
    pub interaction: Interaction,
    pub target: GameState,
}

/// Where input focus ends up after a frame.
#[derive(Clone, Copy, Debug, PartialEq, Eq, Hash, Structural)]
pub enum FocusOutcome {
    /// No button changed: focus stays as it was.
    Unchanged,
    /// The button of the event at this index holds focus.
    Focused(usize),
    /// Focus is cleared.
    Cleared,
}

/// What a frame of button changes does, over and above each button's own response.
#[derive(Clone, Debug, PartialEq, Eq)]
pub struct MenuFrame {
    /// The response to each event, in order.
    pub responses: Vec<MenuResponse>,
    pub focus: FocusOutcome,
    pub next_state: Option<GameState>,
}

/// Focus after handling `events` in order: the last event decides it.
pub open spec fn spec_frame_focus(events: Seq<MenuEvent>) -> FocusOutcome {
    if events.len() == 0 {
        FocusOutcome::Unchanged
    } else if events.last().interaction == Interaction::Idle {
        FocusOutcome::Cleared
    } else {
        FocusOutcome::Focused((events.len() - 1) as usize)
    }
}

/// The state asked for after handling `events` in order: the target of the last press.
pub open spec fn spec_last_press(events: Seq<MenuEvent>) -> Option<GameState>
    decreases events.len(),
{
    if events.len() == 0 {
        None
    } else if events.last().interaction == Interaction::Pressed {
        Some(events.last().target)
    } else {
        spec_last_press(events.drop_last())
    }
}

/// Handles the button changes of one frame in order. Each button gets its own response;
/// later requests for focus and for a new state override earlier ones.
pub fn menu_frame(events: &Vec<MenuEvent>) -> (f: MenuFrame)
    ensures
        f.responses@.len() == events@.len(),
        forall|i: int|
            0 <= i < events@.len() ==> #[trigger] f.responses@[i] == spec_respond(
                events@[i].interaction,
                events@[i].target,
            ),
        forall|i: int|
            0 <= i < events@.len() ==> {
                let r = #[trigger] f.responses@[i];
                let e = events@[i];
                &&& (r.focus == FocusChange::Take) <==> (e.interaction != Interaction::Idle)
                &&& (r.border == BorderShade::White) <==> (e.interaction != Interaction::Idle)
                &&& r.mark_changed <==> (e.interaction != Interaction::Idle)
                &&& e.interaction == Interaction::Pressed ==> r.background == ButtonShade::Pressed
                &&& e.interaction == Interaction::Hovered ==> r.background == ButtonShade::Hovered
                &&& e.interaction == Interaction::Idle ==> r.background == ButtonShade::Normal
                &&& r.next_state == (if e.interaction == Interaction::Pressed {
                    Some(e.target)
                } else {
                    None
                })
            },
        f.focus == spec_frame_focus(events@),
        (f.focus == FocusOutcome::Unchanged) <==> events@.len() == 0,
        events@.len() > 0 && events@.last().interaction == Interaction::Idle ==> f.focus
            == FocusOutcome::Cleared,
        events@.len() > 0 && events@.last().interaction != Interaction::Idle ==> f.focus
            == FocusOutcome::Focused((events@.len() - 1) as usize),
        f.next_state == spec_last_press(events@),
        f.next_state is None <==> forall|i: int|
            0 <= i < events@.len() ==> #[trigger] events@[i].interaction != Interaction::Pressed,
        f.next_state matches Some(t) ==> exists|i: int|
            {
                &&& 0 <= i < events@.len()
                &&& #[trigger] events@[i].interaction == Interaction::Pressed
                &&& events@[i].target == t
                &&& forall|j: int|
                    i < j < events@.len() ==> events@[j].interaction != Interaction::Pressed
            },
{
    let mut responses: Vec<MenuResponse> = Vec::new();
    let mut focus = FocusOutcome::Unchanged;
    let mut next_state: Option<GameState> = None;
    let n = events.len();
    for i in 0..n
        invariant
            n == events@.len(),
            responses@.len() == i,
            forall|j: int|
                0 <= j < i ==> #[trigger] responses@[j] == spec_respond(
                    events@[j].interaction,
                    events@[j].target,
                ),
            forall|j: int|
                0 <= j < i ==> {
                    let r = #[trigger] responses@[j];
                    let e = events@[j];
                    &&& (r.focus == FocusChange::Take) <==> (e.interaction != Interaction::Idle)
                    &&& (r.border == BorderShade::White) <==> (e.interaction
                        != Interaction::Idle)
                    &&& r.mark_changed <==> (e.interaction != Interaction::Idle)
                    &&& e.interaction == Interaction::Pressed ==> r.background
                        == ButtonShade::Pressed
                    &&& e.interaction == Interaction::Hovered ==> r.background
                        == ButtonShade::Hovered
                    &&& e.interaction == Interaction::Idle ==> r.background == ButtonShade::Normal
                    &&& r.next_state == (if e.interaction == Interaction::Pressed {
                        Some(e.target)
                    } else {
                        None
                    })
                },
            focus == spec_frame_focus(events@.take(i as int)),
            next_state == spec_last_press(events@.take(i as int)),
    {
        let event = events[i];
        let r = respond(event.interaction, event.target);
        responses.push(r);
        match r.focus {
            FocusChange::Take => {
                focus = FocusOutcome::Focused(i);
            },
            FocusChange::Clear => {
                focus = FocusOutcome::Cleared;
            },
        }
        if let Some(t) = r.next_state {
            next_state = Some(t);
        }
        assert(events@.take(i + 1).drop_last() =~= events@.take(i as int));
    }
    assert(events@.take(n as int) =~= events@);
    proof {
        lemma_frame_focus_follows_last_event(events@);
        lemma_last_press(events@);
    }
    MenuFrame { responses, focus, next_state }
}

/// A button's response is fixed by its interaction alone, except for the state a press
/// asks for, which is the button's own target: a press shades the button as pressed,
/// a hover as hovered, and leaving it restores the normal shade; pressing and hovering take
/// focus, whiten the border and mark the button changed, while leaving clears focus,
/// blackens the border and leaves it unmarked.
pub proof fn lemma_response_by_interaction(interaction: Interaction, target: GameState)
    ensures
        ({
            let r = spec_respond(interaction, target);
            &&& interaction == Interaction::Pressed ==> {
                &&& r.background == ButtonShade::Pressed
                &&& r.focus == FocusChange::Take
                &&& r.border == BorderShade::White
                &&& r.mark_changed
                &&& r.next_state == Some(target)
            }
            &&& interaction == Interaction::Hovered ==> {
                &&& r.background == ButtonShade::Hovered
                &&& r.focus == FocusChange::Take
                &&& r.border == BorderShade::White
                &&& r.mark_changed
                &&& r.next_state is None
            }
            &&& interaction == Interaction::Idle ==> {
                &&& r.background == ButtonShade::Normal
                &&& r.focus == FocusChange::Clear
                &&& r.border == BorderShade::Black
                &&& !r.mark_changed
                &&& r.next_state is None
            }
        }),
        forall|other: GameState|
            spec_respond(interaction, other).background == spec_respond(
                interaction,
                target,
            ).background,
{
}

/// Focus after a frame follows the frame's last event: it is untouched only by an empty
/// frame, it is cleared when the last changed button went idle, and otherwise the last
/// changed button (pressed or hovered) holds it, just as that button's own response takes
/// it.
pub proof fn lemma_frame_focus_follows_last_event(events: Seq<MenuEvent>)
    ensures
        (spec_frame_focus(events) == FocusOutcome::Unchanged) <==> events.len() == 0,
        events.len() > 0 && events.last().interaction == Interaction::Idle ==> spec_frame_focus(
            events,
        ) == FocusOutcome::Cleared,
        events.len() > 0 && events.last().interaction != Interaction::Idle ==> spec_frame_focus(
            events,
        ) == FocusOutcome::Focused((events.len() - 1) as usize),
        events.len() > 0 ==> ((spec_frame_focus(events) == FocusOutcome::Focused(
            (events.len() - 1) as usize,
        )) <==> (spec_respond(events.last().interaction, events.last().target).focus
            == FocusChange::Take)),
{
}

/// A frame asks for a new state exactly when one of its events is a press, and then for
/// the target of the last press.
pub proof fn lemma_last_press(events: Seq<MenuEvent>)
    ensures
        spec_last_press(events) is None <==> forall|i: int|
            0 <= i < events.len() ==> #[trigger] events[i].interaction != Interaction::Pressed,
        spec_last_press(events) matches Some(t) ==> exists|i: int|
            {
                &&& 0 <= i < events.len()
                &&& #[trigger] events[i].interaction == Interaction::Pressed
                &&& events[i].target == t
                &&& forall|j: int| i < j < events.len() ==> events[j].interaction != Interaction::Pressed
            },
    decreases events.len(),
{
    if events.len() > 0 {
        let rest = events.drop_last();
        lemma_last_press(rest);
        let k = events.len() - 1;
        if events[k].interaction != Interaction::Pressed {
            assert forall|i: int| 0 <= i < rest.len() implies rest[i] == events[i] by {}
            if spec_last_press(rest) is None {
                assert forall|i: int| 0 <= i < events.len() implies #[trigger] events[i].interaction != Interaction::Pressed by {
                    if i < k {
                        assert(rest[i] == events[i]);
                    }
                }
            } else {
                let t = spec_last_press(rest)->0;
                let w = choose|i: int|
                    {
                        &&& 0 <= i < rest.len()
                        &&& #[trigger] rest[i].interaction == Interaction::Pressed
                        &&& rest[i].target == t
                        &&& forall|j: int| i < j < rest.len() ==> rest[j].interaction != Interaction::Pressed
                    };
                assert(events[w] == rest[w]);
                assert forall|j: int| w < j < events.len() implies events[j].interaction != Interaction::Pressed by {
                    if j < k {
                        assert(rest[j] == events[j]);
                    }
                }
                assert(events[w].interaction == Interaction::Pressed);
            }
        } else {
            assert(events[k].interaction == Interaction::Pressed);
        }
    }
}

/// A button of the main menu: the state it leads to and its text.
#[derive(Clone, Debug, PartialEq, Eq)]
pub struct MenuButton {
    pub target: GameState,
    pub label: String,
}

/// The states the main menu's buttons lead to, top to bottom.
pub open spec fn menu_targets() -> Seq<GameState> {
    seq![
        GameState::Level,
        GameState::CustomLevel,
        GameState::Editor,
        GameState::Settings,
        GameState::Exit,
    ]
}

/// The texts of the main menu's buttons, top to bottom.
pub open spec fn menu_labels() -> Seq<Seq<char>> {
    seq!["Levels"@, "Custom Levels"@, "Editor"@, "Settings"@, "Exit"@]
}

/// The buttons of the main menu, top to bottom.
pub fn menu_buttons() -> (v: Vec<MenuButton>)
    ensures
        v@.len() == menu_targets().len(),
        forall|i: int| 0 <= i < v@.len() ==> #[trigger] v@[i].target == menu_targets()[i],
        forall|i: int| 0 <= i < v@.len() ==> #[trigger] v@[i].label@ == menu_labels()[i],
        v@.len() == 5,
        v@[0].target == GameState::Level && v@[0].label@ == "Levels"@,
        v@[1].target == GameState::CustomLevel && v@[1].label@ == "Custom Levels"@,
        v@[2].target == GameState::Editor && v@[2].label@ == "Editor"@,
        v@[3].target == GameState::Settings && v@[3].label@ == "Settings"@,
        v@[4].target == GameState::Exit && v@[4].label@ == "Exit"@,
{
    let mut v: Vec<MenuButton> = Vec::new();
    v.push(MenuButton { target: GameState::Level, label: "Levels".to_owned() });
    v.push(MenuButton { target: GameState::CustomLevel, label: "Custom Levels".to_owned() });
    v.push(MenuButton { target: GameState::Editor, label: "Editor".to_owned() });
    v.push(MenuButton { target: GameState::Settings, label: "Settings".to_owned() });
    v.push(MenuButton { target: GameState::Exit, label: "Exit".to_owned() });
    v
}

/// Every state other than the menu itself is reached by exactly one menu button, and no
/// button leads back to the menu.
pub proof fn lemma_menu_targets_cover_other_states(s: GameState)
    ensures
        !menu_targets().contains(GameState::Menu),
        s != GameState::Menu ==> menu_targets().contains(s),
        forall|i: int, j: int|
            0 <= i < j < menu_targets().len() ==> menu_targets()[i] != menu_targets()[j],
{
    let t = menu_targets();
    assert(t[0] == GameState::Level);
    assert(t[1] == GameState::CustomLevel);
    assert(t[2] == GameState::Editor);
    assert(t[3] == GameState::Settings);
    assert(t[4] == GameState::Exit);
    match s {
        GameState::Level => assert(t[0] == s),
        GameState::CustomLevel => assert(t[1] == s),
        GameState::Editor => assert(t[2] == s),
        GameState::Settings => assert(t[3] == s),
        GameState::Exit => assert(t[4] == s),
        GameState::Menu => {},
    }
}

/// Pressing any menu button moves the game out of the menu.
pub proof fn lemma_press_leaves_menu(i: int)
    requires
        0 <= i < menu_targets().len(),
    ensures
        spec_respond(Interaction::Pressed, menu_targets()[i]).next_state matches Some(t) && t
            != GameState::Menu,
{
    lemma_menu_targets_cover_other_states(GameState::Menu);
    assert(menu_targets().contains(menu_targets()[i]));
}

} // verus!
