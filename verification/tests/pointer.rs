use kicad_sch_ui::input::{Modifiers, PointerButton};
use kicad_sch_ui::pointer::{
    move_events, press_events, release_events, wheel_action, MoveOutcome, PointerEvent, PointerTracker,
    WheelAction,
};

#[test]
fn a_click_below_the_threshold_is_not_a_drag() {
    let mut pointer = PointerTracker::new();
    pointer.press(PointerButton::Left, Modifiers::none());
    assert_eq!(pointer.move_to(false), MoveOutcome::Still);
    let release = pointer.release(PointerButton::Left, true);
    assert!(!release.ends_drag);
    assert!(!release.opens_context_menu);
    assert_eq!(pointer.press, None);
}

#[test]
fn a_drag_begins_once_with_the_press_modifiers_and_ends_on_release() {
    let mut pointer = PointerTracker::new();
    let shift = Modifiers { shift: true, ..Modifiers::none() };
    pointer.press(PointerButton::Left, shift);
    assert_eq!(pointer.move_to(false), MoveOutcome::Still);
    assert_eq!(
        pointer.move_to(true),
        MoveOutcome::Drag { button: PointerButton::Left, began: true, pans: false, press_modifiers: shift }
    );
    assert_eq!(
        pointer.move_to(false),
        MoveOutcome::Drag { button: PointerButton::Left, began: false, pans: false, press_modifiers: shift }
    );
    assert!(pointer.release(PointerButton::Left, true).ends_drag);
    assert_eq!(pointer.move_to(true), MoveOutcome::Hover);
}

#[test]
fn every_press_gets_a_release_even_with_two_buttons_held() {
    let mut pointer = PointerTracker::new();
    pointer.press(PointerButton::Left, Modifiers::none());
    pointer.press(PointerButton::Middle, Modifiers::none());
    assert!(matches!(pointer.move_to(true), MoveOutcome::Drag { button: PointerButton::Middle, pans: true, .. }));
    let first = pointer.release(PointerButton::Left, true);
    assert!(!first.ends_drag);
    assert!(pointer.press.is_some());
    let second = pointer.release(PointerButton::Middle, true);
    assert!(second.ends_drag);
    assert!(pointer.press.is_none());
}

#[test]
fn a_right_click_opens_the_menu_only_without_a_pan() {
    let mut pointer = PointerTracker::new();
    pointer.press(PointerButton::Right, Modifiers::none());
    assert!(pointer.release(PointerButton::Right, true).opens_context_menu);
    pointer.press(PointerButton::Right, Modifiers::none());
    assert!(!pointer.release(PointerButton::Right, false).opens_context_menu);
    pointer.press(PointerButton::Right, Modifiers::none());
    pointer.move_to(true);
    assert!(!pointer.release(PointerButton::Right, true).opens_context_menu);
}

#[test]
fn leaving_is_reported_once() {
    let mut pointer = PointerTracker::new();
    assert!(!pointer.leave());
    pointer.move_to(false);
    assert!(pointer.leave());
    assert!(!pointer.leave());
}

#[test]
fn the_wheel_zooms_unless_a_modifier_scrolls() {
    let shift = Modifiers { shift: true, ..Modifiers::none() };
    let ctrl = Modifiers { ctrl: true, ..Modifiers::none() };
    assert_eq!(wheel_action(Modifiers::none(), true), WheelAction::Zoom);
    assert_eq!(wheel_action(Modifiers::none(), false), WheelAction::Nothing);
    assert_eq!(wheel_action(shift, true), WheelAction::PanVertical);
    assert_eq!(wheel_action(ctrl, false), WheelAction::PanHorizontal);
    assert_eq!(wheel_action(Modifiers { shift: true, ctrl: true, ..Modifiers::none() }, true), WheelAction::PanVertical);
}

fn gesture(button: PointerButton, modifiers: Modifiers, moves: &[bool]) -> Vec<PointerEvent> {
    let mut pointer = PointerTracker::new();
    pointer.press(button, modifiers);
    let mut events = press_events(button);
    for &past in moves {
        events.extend(move_events(pointer.move_to(past)));
    }
    events.extend(release_events(button, pointer.release(button, true)));
    events
}

#[test]
fn a_canvas_drag_produces_the_full_event_sequence() {
    let ctrl = Modifiers { ctrl: true, ..Modifiers::none() };
    let events = gesture(PointerButton::Left, ctrl, &[false, true, false, true, false]);
    assert_eq!(
        events,
        vec![
            PointerEvent::Down(PointerButton::Left),
            PointerEvent::DragBegin(PointerButton::Left, ctrl),
            PointerEvent::DragUpdate(PointerButton::Left),
            PointerEvent::DragUpdate(PointerButton::Left),
            PointerEvent::DragUpdate(PointerButton::Left),
            PointerEvent::DragUpdate(PointerButton::Left),
            PointerEvent::DragEnd(PointerButton::Left),
            PointerEvent::Up(PointerButton::Left),
        ]
    );
}

#[test]
fn a_stationary_click_reports_only_down_and_up() {
    let events = gesture(PointerButton::Right, Modifiers::none(), &[false, false]);
    assert_eq!(
        events,
        vec![PointerEvent::Down(PointerButton::Right), PointerEvent::Up(PointerButton::Right)]
    );
}

#[test]
fn a_hover_reports_a_move() {
    let mut pointer = PointerTracker::new();
    assert_eq!(move_events(pointer.move_to(true)), vec![PointerEvent::Move]);
}
