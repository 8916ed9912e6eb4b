//! What the canvas makes of the pointer: presses, drags, releases, leaving,
//! and the wheel.
//!
//! The toolkit reports raw moves with a button held; KiCad's tools want a
//! distinct moment at which a drag began, after the pointer travelled past a
//! threshold from where the button went down. The canvas owns that decision
//! so every consumer agrees on what a drag is. Positions, distances and the
//! threshold are the caller's floating-point business; what reaches this
//! module is whether the threshold was passed.

use vstd::prelude::*;
use crate::input::{Modifiers, PointerButton};

verus! {

/// The button held since a press on the canvas.
#[derive(Clone, Copy, Debug, PartialEq, Eq, Structural)]
pub struct Press {
    /// Which button went down.
    pub button: PointerButton,
    /// The modifiers held when it went down. A drag keeps them: a shift-drag
    /// that lets go of shift halfway is still a shift-drag.
    pub modifiers: Modifiers,
    /// Whether the pointer has travelled far enough for this to be a drag.
    pub dragging: bool,
}

/// What a pointer move over the canvas amounts to.
#[derive(Clone, Copy, Debug, PartialEq, Eq, Structural)]
pub enum MoveOutcome {
    /// No button held: a hover move.
    Hover,
    /// A button held, not far enough yet: nothing to report.
    Still,
    /// A button held and dragging: the drag began with this move or earlier,
    /// and the view pans under a navigation button.
    Drag {
        /// Which button drags.
        button: PointerButton,
        /// Whether the drag began with this move; it is reported with the
        /// modifiers held at the press.
        began: bool,
        /// Whether the view pans by the move.
        pans: bool,
        /// The modifiers held at the press.
        press_modifiers: Modifiers,
    },
}

/// What a release amounts to.
#[derive(Clone, Copy, Debug, PartialEq, Eq, Structural)]
pub struct ReleaseOutcome {
    /// Whether it ends a drag, reported before the release itself.
    pub ends_drag: bool,
    /// Whether it is a secondary click that opens the context menu.
    pub opens_context_menu: bool,
}

/// What the wheel does to the view.
#[derive(Clone, Copy, Debug, PartialEq, Eq, Structural)]
pub enum WheelAction {
    /// Scroll vertically: Shift held.
    PanVertical,
    /// Scroll horizontally: Ctrl held.
    PanHorizontal,
    /// Zoom about the pointer: KiCad's default.
    Zoom,
    /// Nothing: the wheel did not turn.
    Nothing,
}

/// Whether dragging with `button` pans the view: both navigation buttons do.
pub open spec fn pans_view(button: PointerButton) -> bool {
    button == PointerButton::Middle || button == PointerButton::Right
}

/// What the host hears of the pointer over the canvas, without the positions
/// (those the caller attaches, in floating point).
#[derive(Clone, Copy, Debug, PartialEq, Eq, Structural)]
pub enum PointerEvent {
    /// A move with no button held.
    Move,
    /// A button went down.
    Down(PointerButton),
    /// A drag began, with the modifiers held at the press.
    DragBegin(PointerButton, Modifiers),
    /// A drag went on.
    DragUpdate(PointerButton),
    /// A drag ended.
    DragEnd(PointerButton),
    /// A button came up.
    Up(PointerButton),
}

/// The press after a move that did or did not pass the threshold.
pub open spec fn moved_press(p: Press, past_threshold: bool) -> Press {
    Press { dragging: p.dragging || past_threshold, ..p }
}

/// What a move with press `p` held amounts to.
pub open spec fn drag_outcome(p: Press, past_threshold: bool) -> MoveOutcome {
    if p.dragging || past_threshold {
        MoveOutcome::Drag {
            button: p.button,
            began: !p.dragging,
            pans: pans_view(p.button),
            press_modifiers: p.modifiers,
        }
    } else {
        MoveOutcome::Still
    }
}

/// The events a move reports: a hover move; nothing while a press has not
/// travelled far enough; when dragging, the beginning of the drag if it
/// began with this move, then the drag going on.
pub open spec fn move_events_of(outcome: MoveOutcome) -> Seq<PointerEvent> {
    match outcome {
        MoveOutcome::Hover => seq![PointerEvent::Move],
        MoveOutcome::Still => Seq::empty(),
        MoveOutcome::Drag { button, began, press_modifiers, .. } => (if began {
            seq![PointerEvent::DragBegin(button, press_modifiers)]
        } else {
            Seq::empty()
        }).push(PointerEvent::DragUpdate(button)),
    }
}

/// The events a release of `button` reports: the end of the drag if it ends
/// one, then the button coming up, always.
pub open spec fn release_events_of(button: PointerButton, outcome: ReleaseOutcome) -> Seq<PointerEvent> {
    (if outcome.ends_drag {
        seq![PointerEvent::DragEnd(button)]
    } else {
        Seq::empty()
    }).push(PointerEvent::Up(button))
}

/// The pointer as the canvas tracks it.
#[derive(Clone, Copy, Debug, PartialEq, Eq, Structural)]
pub struct PointerTracker {
    /// Whether the pointer is over the canvas.
    pub hovering: bool,
    /// The press in progress, if any. It tracks one button: with two held it
    /// describes the second.
    pub press: Option<Press>,
}

/// What the wheel does, given the modifiers and whether it turned.
pub open spec fn wheel_action_of(modifiers: Modifiers, turned: bool) -> WheelAction {
    if modifiers.shift {
        WheelAction::PanVertical
    } else if modifiers.ctrl {
        WheelAction::PanHorizontal
    } else if turned {
        WheelAction::Zoom
    } else {
        WheelAction::Nothing
    }
}

impl PointerTracker {
    /// Nothing over the canvas, nothing held.
    pub fn new() -> (tracker: PointerTracker)
        ensures
            !tracker.hovering,
            tracker.press is None,
    {
        PointerTracker { hovering: false, press: None }
    }

    /// A button went down on the canvas: a new press begins, not yet a drag.
    /// The press is always reported.
    pub fn press(&mut self, button: PointerButton, modifiers: Modifiers)
        ensures
            final(self).hovering,
            final(self).press == Some(Press { button, modifiers, dragging: false }),
    {
        self.hovering = true;
        self.press = Some(Press { button, modifiers, dragging: false });
    }

    /// The pointer left the canvas with no button captured. Returns whether
    /// the host has to hear it left: only if it was over the canvas.
    pub fn leave(&mut self) -> (report: bool)
        ensures
            report == old(self).hovering,
            !final(self).hovering,
            final(self).press == old(self).press,
    {
        let report = self.hovering;
        self.hovering = false;
        report
    }

    /// The pointer moved over the canvas, or anywhere while a press holds it;
    /// `past_threshold` says whether it is now far enough from where the
    /// button went down for a drag.
    pub fn move_to(&mut self, past_threshold: bool) -> (outcome: MoveOutcome)
        ensures
            final(self).hovering,
            match old(self).press {
                None => outcome == MoveOutcome::Hover && final(self).press is None,
                Some(p) => final(self).press == Some(moved_press(p, past_threshold)) && outcome
                    == drag_outcome(p, past_threshold),
            },
            match old(self).press {
                None => true,
                Some(p) => {
                    let dragging = p.dragging || past_threshold;
                    &&& final(self).press == Some(Press { dragging, ..p })
                    &&& outcome == if dragging {
                        MoveOutcome::Drag {
                            button: p.button,
                            began: !p.dragging,
                            pans: pans_view(p.button),
                            press_modifiers: p.modifiers,
                        }
                    } else {
                        MoveOutcome::Still
                    }
                },
            },
    {
        self.hovering = true;
        match self.press {
            None => MoveOutcome::Hover,
            Some(p) => {
                let began = !p.dragging && past_threshold;
                let dragging = p.dragging || past_threshold;
                self.press = Some(Press { button: p.button, modifiers: p.modifiers, dragging });
                if dragging {
                    let pans = match p.button {
                        PointerButton::Middle | PointerButton::Right => true,
                        _ => false,
                    };
                    MoveOutcome::Drag { button: p.button, began, pans, press_modifiers: p.modifiers }
                } else {
                    MoveOutcome::Still
                }
            },
        }
    }

    /// `button` came up, `inside` the canvas or not. The release is always
    /// reported, whichever button it is: a host keeping per-button state
    /// must see every button come up. It ends the press, and the drag, only
    /// when it is the pressed button; a secondary click that did not drag
    /// and is released over the canvas opens the context menu.
    pub fn release(&mut self, button: PointerButton, inside: bool) -> (outcome: ReleaseOutcome)
        ensures
            final(self).hovering == old(self).hovering,
            match old(self).press {
                Some(p) => {
                    &&& outcome.opens_context_menu == (p.button == PointerButton::Right && button
                        == PointerButton::Right && !p.dragging && inside)
                    &&& if p.button == button {
                        final(self).press is None && outcome.ends_drag == p.dragging
                    } else {
                        final(self).press == old(self).press && !outcome.ends_drag
                    }
                },
                None => !outcome.opens_context_menu && !outcome.ends_drag && final(self).press is None,
            },
    {
        match self.press {
            Some(p) => {
                let right = match (p.button, button) {
                    (PointerButton::Right, PointerButton::Right) => true,
                    _ => false,
                };
                let opens_context_menu = right && !p.dragging && inside;
                if p.button == button {
                    self.press = None;
                    ReleaseOutcome { ends_drag: p.dragging, opens_context_menu }
                } else {
                    ReleaseOutcome { ends_drag: false, opens_context_menu }
                }
            },
            None => ReleaseOutcome { ends_drag: false, opens_context_menu: false },
        }
    }
}

/// What the wheel does to the view, given the modifiers held and whether it
/// turned at all: KiCad's default is to zoom, Shift scrolls vertically and
/// Ctrl horizontally.
pub fn wheel_action(modifiers: Modifiers, turned: bool) -> (action: WheelAction)
    ensures
        action == wheel_action_of(modifiers, turned),
{
    if modifiers.shift {
        WheelAction::PanVertical
    } else if modifiers.ctrl {
        WheelAction::PanHorizontal
    } else if turned {
        WheelAction::Zoom
    } else {
        WheelAction::Nothing
    }
}

/// Whether a press is dragging after moves that, in turn, did or did not
/// pass the threshold.
pub open spec fn dragging_after(moves: Seq<bool>) -> bool
    decreases moves.len(),
{
    if moves.len() == 0 {
        false
    } else {
        dragging_after(moves.drop_last()) || moves.last()
    }
}

/// How many of those moves report that the drag began.
pub open spec fn beginnings(moves: Seq<bool>) -> nat
    decreases moves.len(),
{
    if moves.len() == 0 {
        0
    } else {
        beginnings(moves.drop_last()) + if !dragging_after(moves.drop_last()) && moves.last() {
            1nat
        } else {
            0nat
        }
    }
}

/// A drag begins once at most per press: over any moves after a press, the
/// beginning is reported exactly once if some move passed the threshold and
/// never otherwise, and the press is then dragging, so its release ends the
/// drag exactly when it began.
pub proof fn lemma_drag_begins_once(moves: Seq<bool>)
    ensures
        beginnings(moves) == if dragging_after(moves) {
            1nat
        } else {
            0nat
        },
        dragging_after(moves) == exists|i: int| 0 <= i < moves.len() && #[trigger] moves[i],
    decreases moves.len(),
{
    if moves.len() > 0 {
        let before = moves.drop_last();
        lemma_drag_begins_once(before);
        if dragging_after(before) {
            let i = choose|i: int| 0 <= i < before.len() && #[trigger] before[i];
            assert(moves[i] == before[i]);
        }
        if exists|i: int| 0 <= i < moves.len() && #[trigger] moves[i] {
            let i = choose|i: int| 0 <= i < moves.len() && #[trigger] moves[i];
            if i < moves.len() - 1 {
                assert(before[i] == moves[i]);
            }
        }
    }
}

/// The events a press of `button` reports: the button going down.
pub fn press_events(button: PointerButton) -> (events: Vec<PointerEvent>)
    ensures
        events@ == seq![PointerEvent::Down(button)],
{
    let mut events = Vec::new();
    events.push(PointerEvent::Down(button));
    assert(events@ =~= seq![PointerEvent::Down(button)]);
    events
}

/// The events a move reports, given what it amounted to.
pub fn move_events(outcome: MoveOutcome) -> (events: Vec<PointerEvent>)
    ensures
        events@ == move_events_of(outcome),
{
    let mut events = Vec::new();
    match outcome {
        MoveOutcome::Hover => events.push(PointerEvent::Move),
        MoveOutcome::Still => {},
        MoveOutcome::Drag { button, began, press_modifiers, .. } => {
            if began {
                events.push(PointerEvent::DragBegin(button, press_modifiers));
            }
            events.push(PointerEvent::DragUpdate(button));
        },
    }
    assert(events@ =~= move_events_of(outcome));
    events
}

/// The events a release of `button` reports, given what it amounted to.
pub fn release_events(button: PointerButton, outcome: ReleaseOutcome) -> (events: Vec<PointerEvent>)
    ensures
        events@ == release_events_of(button, outcome),
{
    let mut events = Vec::new();
    if outcome.ends_drag {
        events.push(PointerEvent::DragEnd(button));
    }
    events.push(PointerEvent::Up(button));
    assert(events@ =~= release_events_of(button, outcome));
    events
}

/// The press after a run of moves, each of which did or did not pass the
/// threshold.
pub open spec fn press_after(p: Press, moves: Seq<bool>) -> Press
    decreases moves.len(),
{
    if moves.len() == 0 {
        p
    } else {
        moved_press(press_after(p, moves.drop_last()), moves.last())
    }
}

/// The events a run of moves reports while press `p` is held.
pub open spec fn moves_events(p: Press, moves: Seq<bool>) -> Seq<PointerEvent>
    decreases moves.len(),
{
    if moves.len() == 0 {
        Seq::empty()
    } else {
        moves_events(p, moves.drop_last()) + move_events_of(
            drag_outcome(press_after(p, moves.drop_last()), moves.last()),
        )
    }
}

/// Everything the host hears of one press of `button` with `modifiers` held,
/// the moves that follow it, and the release of that button: what
/// [`PointerTracker::press`], [`PointerTracker::move_to`] and
/// [`PointerTracker::release`] decide, reported through [`press_events`],
/// [`move_events`] and [`release_events`].
pub open spec fn press_events_of(
    button: PointerButton,
    modifiers: Modifiers,
    moves: Seq<bool>,
    inside: bool,
) -> Seq<PointerEvent> {
    let start = Press { button, modifiers, dragging: false };
    seq![PointerEvent::Down(button)] + moves_events(start, moves) + release_events_of(
        button,
        ReleaseOutcome {
            ends_drag: press_after(start, moves).dragging,
            opens_context_menu: button == PointerButton::Right && !press_after(start, moves).dragging
                && inside,
        },
    )
}

/// How many moves report the drag going on: every move from the one that
/// passed the threshold first.
pub open spec fn dragged_moves(moves: Seq<bool>) -> nat
    decreases moves.len(),
{
    if moves.len() == 0 {
        0
    } else {
        dragged_moves(moves.drop_last()) + if dragging_after(moves) {
            1nat
        } else {
            0nat
        }
    }
}

/// `n` reports of a drag of `button` going on.
pub open spec fn drag_updates(button: PointerButton, n: nat) -> Seq<PointerEvent> {
    Seq::new(n, |i: int| PointerEvent::DragUpdate(button))
}

/// The moves of a press report nothing until one passes the threshold; then
/// the drag begins, once, with the modifiers held at the press, and each
/// move from then on reports the drag going on.
proof fn lemma_moves_events(button: PointerButton, modifiers: Modifiers, moves: Seq<bool>)
    ensures
        press_after(Press { button, modifiers, dragging: false }, moves) == (Press {
            button,
            modifiers,
            dragging: dragging_after(moves),
        }),
        moves_events(Press { button, modifiers, dragging: false }, moves) == if dragging_after(moves) {
            seq![PointerEvent::DragBegin(button, modifiers)] + drag_updates(button, dragged_moves(moves))
        } else {
            Seq::<PointerEvent>::empty()
        },
        !dragging_after(moves) ==> dragged_moves(moves) == 0,
    decreases moves.len(),
{
    if moves.len() > 0 {
        let before = moves.drop_last();
        lemma_moves_events(button, modifiers, before);
        let n = dragged_moves(before);
        if dragging_after(before) {
            assert(drag_updates(button, n).push(PointerEvent::DragUpdate(button)) =~= drag_updates(
                button,
                n + 1,
            ));
            assert(seq![PointerEvent::DragBegin(button, modifiers)] + drag_updates(button, n) + seq![
                PointerEvent::DragUpdate(button),
            ] =~= seq![PointerEvent::DragBegin(button, modifiers)] + drag_updates(button, n + 1));
        } else if moves.last() {
            assert(Seq::<PointerEvent>::empty() + seq![PointerEvent::DragBegin(button, modifiers)].push(
                PointerEvent::DragUpdate(button),
            ) =~= seq![PointerEvent::DragBegin(button, modifiers)] + drag_updates(button, 1));
        } else {
            assert(Seq::<PointerEvent>::empty() + Seq::<PointerEvent>::empty() =~= Seq::<PointerEvent>::empty());
        }
    }
}

/// Every press is reported as: the button going down; then, if the pointer
/// travelled past the threshold, the drag beginning once, with the modifiers
/// held at the press, the drag going on with that move and each one after,
/// and the drag ending; and last the button coming up, always. A press whose
/// moves never pass the threshold — a stationary click — is no drag at all.
pub proof fn lemma_press_sequence(button: PointerButton, modifiers: Modifiers, moves: Seq<bool>, inside: bool)
    ensures
        press_events_of(button, modifiers, moves, inside) == if dragging_after(moves) {
            seq![PointerEvent::Down(button), PointerEvent::DragBegin(button, modifiers)] + drag_updates(
                button,
                dragged_moves(moves),
            ) + seq![PointerEvent::DragEnd(button), PointerEvent::Up(button)]
        } else {
            seq![PointerEvent::Down(button), PointerEvent::Up(button)]
        },
        dragging_after(moves) ==> dragged_moves(moves) >= 1,
        dragging_after(moves) == exists|i: int| 0 <= i < moves.len() && #[trigger] moves[i],
{
    lemma_moves_events(button, modifiers, moves);
    lemma_drag_begins_once(moves);
    lemma_dragged_moves_positive(moves);
    let updates = drag_updates(button, dragged_moves(moves));
    if dragging_after(moves) {
        assert(seq![PointerEvent::Down(button)] + (seq![PointerEvent::DragBegin(button, modifiers)] + updates)
            + seq![PointerEvent::DragEnd(button)].push(PointerEvent::Up(button)) =~= seq![
            PointerEvent::Down(button),
            PointerEvent::DragBegin(button, modifiers),
        ] + updates + seq![PointerEvent::DragEnd(button), PointerEvent::Up(button)]);
    } else {
        assert(seq![PointerEvent::Down(button)] + Seq::<PointerEvent>::empty()
            + Seq::<PointerEvent>::empty().push(PointerEvent::Up(button)) =~= seq![
            PointerEvent::Down(button),
            PointerEvent::Up(button),
        ]);
    }
}

/// A press that is dragging has reported at least one move of the drag.
proof fn lemma_dragged_moves_positive(moves: Seq<bool>)
    ensures
        dragging_after(moves) ==> dragged_moves(moves) >= 1,
    decreases moves.len(),
{
    if moves.len() > 0 {
        lemma_dragged_moves_positive(moves.drop_last());
    }
}

/// A drag pans the view exactly when its button is a navigation button,
/// the middle or the right one; a drag with the primary button never pans.
/// Whatever the move, it stays the pressed button's drag.
pub proof fn lemma_navigation_drags_pan(p: Press, past_threshold: bool)
    ensures
        (drag_outcome(p, past_threshold) is Drag) == (p.dragging || past_threshold),
        drag_outcome(p, past_threshold) matches MoveOutcome::Drag { button, pans, press_modifiers, .. } ==> {
            &&& button == p.button
            &&& press_modifiers == p.modifiers
            &&& pans == (p.button == PointerButton::Middle || p.button == PointerButton::Right)
            &&& (p.button == PointerButton::Left ==> !pans)
        },
{
}

/// Shift turns the wheel into vertical scrolling whatever else is held; Ctrl
/// without Shift into horizontal scrolling; with neither, a turn zooms and
/// no turn does nothing. The other modifiers change nothing.
pub proof fn lemma_wheel_modifiers(modifiers: Modifiers, turned: bool)
    ensures
        modifiers.shift ==> wheel_action_of(modifiers, turned) == WheelAction::PanVertical,
        !modifiers.shift && modifiers.ctrl ==> wheel_action_of(modifiers, turned) == WheelAction::PanHorizontal,
        !modifiers.shift && !modifiers.ctrl && turned ==> wheel_action_of(modifiers, turned) == WheelAction::Zoom,
        !modifiers.shift && !modifiers.ctrl && !turned ==> wheel_action_of(modifiers, turned) == WheelAction::Nothing,
        wheel_action_of(Modifiers { alt: !modifiers.alt, meta: !modifiers.meta, ..modifiers }, turned)
            == wheel_action_of(modifiers, turned),
{
}

} // verus!
