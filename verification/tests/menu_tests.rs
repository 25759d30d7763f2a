use isomagic::menu::{
    menu_buttons, menu_frame, respond, BorderShade, ButtonShade, FocusChange, FocusOutcome,
    Interaction, MenuEvent, MenuResponse,
};
use isomagic::state::GameState;

fn ev(interaction: Interaction, target: GameState) -> MenuEvent {
    MenuEvent { interaction, target }
}

#[test]
fn pressed_button_asks_for_its_target() {
    assert_eq!(
        respond(Interaction::Pressed, GameState::Settings),
        MenuResponse {
            focus: FocusChange::Take,
            background: ButtonShade::Pressed,
            border: BorderShade::White,
            mark_changed: true,
            next_state: Some(GameState::Settings),
        }
    );
}

#[test]
fn hovered_button_takes_focus_only() {
    assert_eq!(
        respond(Interaction::Hovered, GameState::Level),
        MenuResponse {
            focus: FocusChange::Take,
            background: ButtonShade::Hovered,
            border: BorderShade::White,
            mark_changed: true,
            next_state: None,
        }
    );
}

#[test]
fn idle_button_clears_focus() {
    assert_eq!(
        respond(Interaction::Idle, GameState::Exit),
        MenuResponse {
            focus: FocusChange::Clear,
            background: ButtonShade::Normal,
            border: BorderShade::Black,
            mark_changed: false,
            next_state: None,
        }
    );
}

#[test]
fn empty_frame_changes_nothing() {
    let f = menu_frame(&vec![]);
    assert!(f.responses.is_empty());
    assert_eq!(f.focus, FocusOutcome::Unchanged);
    assert_eq!(f.next_state, None);
}

#[test]
fn last_press_wins_and_last_event_decides_focus() {
    let events = vec![
        ev(Interaction::Pressed, GameState::Level),
        ev(Interaction::Hovered, GameState::Editor),
        ev(Interaction::Pressed, GameState::Exit),
        ev(Interaction::Idle, GameState::Settings),
    ];
    let f = menu_frame(&events);
    assert_eq!(f.responses.len(), 4);
    for (r, e) in f.responses.iter().zip(events.iter()) {
        assert_eq!(*r, respond(e.interaction, e.target));
    }
    assert_eq!(f.next_state, Some(GameState::Exit));
    assert_eq!(f.focus, FocusOutcome::Cleared);
}

#[test]
fn frame_without_press_keeps_state() {
    let events = vec![
        ev(Interaction::Hovered, GameState::Level),
        ev(Interaction::Idle, GameState::Editor),
        ev(Interaction::Hovered, GameState::CustomLevel),
    ];
    let f = menu_frame(&events);
    assert_eq!(f.next_state, None);
    assert_eq!(f.focus, FocusOutcome::Focused(2));
}

#[test]
fn menu_has_five_buttons_in_order() {
    let b = menu_buttons();
    let got: Vec<(GameState, &str)> = b.iter().map(|x| (x.target, x.label.as_str())).collect();
    assert_eq!(
        got,
        vec![
            (GameState::Level, "Levels"),
            (GameState::CustomLevel, "Custom Levels"),
            (GameState::Editor, "Editor"),
            (GameState::Settings, "Settings"),
            (GameState::Exit, "Exit"),
        ]
    );
}

#[test]
fn every_other_state_reached_once_and_menu_never() {
    let b = menu_buttons();
    for s in [
        GameState::Editor,
        GameState::Level,
        GameState::Settings,
        GameState::CustomLevel,
        GameState::Exit,
    ] {
        assert_eq!(b.iter().filter(|x| x.target == s).count(), 1);
    }
    assert!(b.iter().all(|x| x.target != GameState::Menu));
}

#[test]
fn pressing_any_button_leaves_menu() {
    for b in menu_buttons() {
        let r = respond(Interaction::Pressed, b.target);
        assert!(matches!(r.next_state, Some(s) if s != GameState::Menu));
    }
}
