//! The decisions of the drawing loop: when to redraw, when to rebuild the
//! frame, what to do with a terminal event, and the countdown of the error
//! screen. The terminal itself is driven by the caller.
use vstd::prelude::*;
use crate::gui_state::{no_areas, GuiState, GuiView, Status};
use crate::input::{MouseInput, MouseKind};
use crate::model::{KeyCode, KeyModifiers};
use crate::ui_state::UIContainerState;
use crate::view_models::{frame_of, FrameViewModel};

verus! {

/// Milliseconds between polls of the terminal.
pub const POLL_RATE_MS: u64 = 50;

/// Whether to redraw: when a redraw was asked for, or when the docker
/// interval has passed since the last draw.
pub open spec fn redraw_due(draw_requested: bool, elapsed_ms: u64, interval_ms: u64) -> bool {
    draw_requested || elapsed_ms >= interval_ms
}

/// Whether to redraw now (see `redraw_due`); when it answers yes the caller
/// restarts its draw clock.
pub fn should_redraw(draw_requested: bool, elapsed_ms: u64, interval_ms: u64) -> (b: bool)
    ensures
        b == redraw_due(draw_requested, elapsed_ms, interval_ms),
{
    draw_requested || elapsed_ms >= interval_ms
}

/// Rebuild the cached frame when there is none or the containers changed
/// since it was built, and note the change as rendered. Returns whether
/// the frame was rebuilt.
pub fn refresh_view_model(
    cached: &mut Option<FrameViewModel>,
    ui: &mut UIContainerState,
    gui: &GuiState,
    logs_loading: bool,
) -> (rebuilt: bool)
    requires
        gui.wf(),
        old(ui).items().len() < u64::MAX,
        old(ui).containers.selected matches Some(i) ==> i < u64::MAX,
    ensures
        rebuilt == (*old(cached) is None || old(ui).version_view() != old(ui).rendered_view()),
        rebuilt ==> {
            &&& *final(cached) matches Some(vm) && frame_of(vm, *old(ui), gui@, logs_loading)
            &&& final(ui).rendered_view() == old(ui).version_view()
        },
        !rebuilt ==> *final(cached) == *old(cached) && *final(ui) == *old(ui),
        final(ui).version_view() == old(ui).version_view(),
        final(ui).items() == old(ui).items(),
        final(ui).containers.selected == old(ui).containers.selected,
        final(ui).docker_commands == old(ui).docker_commands,
        final(ui).logs@ == old(ui).logs@,
{
    let needs = cached.is_none() || ui.has_significant_changes();
    if needs {
        *cached = Some(FrameViewModel::from_state(ui, gui, logs_loading));
        ui.mark_changes_rendered();
    }
    needs
}

/// What the loop does with the frame: exec into a container while in exec
/// mode, else draw it.
#[derive(Clone, Copy, Debug, PartialEq, Eq, Structural)]
pub enum FrameAction {
    Exec,
    Draw,
    Nothing,
}

/// The loop's action for the cached frame.
pub fn frame_action(cached: &Option<FrameViewModel>) -> (a: FrameAction)
    ensures
        a == match cached {
            Some(vm) => if vm.status@.contains(Status::Exec) {
                FrameAction::Exec
            } else {
                FrameAction::Draw
            },
            None => FrameAction::Nothing,
        },
{
    match cached {
        Some(vm) => if vm.status.contains(Status::Exec) {
            FrameAction::Exec
        } else {
            FrameAction::Draw
        },
        None => FrameAction::Nothing,
    }
}

/// A mouse button.
#[derive(Clone, Copy, Debug, PartialEq, Eq, Structural)]
pub enum MouseButton {
    Left,
    Right,
    Middle,
}

/// What the mouse did.
#[derive(Clone, Copy, Debug, PartialEq, Eq, Structural)]
pub enum TermMouseKind {
    Down(MouseButton),
    Up(MouseButton),
    Drag(MouseButton),
    Moved,
    ScrollDown,
    ScrollUp,
    ScrollLeft,
    ScrollRight,
}

/// An event read from the terminal.
#[derive(Clone, Copy, Debug, PartialEq, Eq, Structural)]
pub enum TermEvent {
    Key { code: KeyCode, modifiers: KeyModifiers, press: bool },
    Mouse { kind: TermMouseKind, column: u16, row: u16, modifiers: KeyModifiers },
    Resize { width: u16, height: u16 },
    Other,
}

/// A message for the input handler.
#[derive(Clone, Copy, Debug)]
pub enum InputMessages {
    ButtonPress((KeyCode, KeyModifiers)),
    MouseEvent((MouseInput, KeyModifiers)),
}

/// The message for a terminal event: key presses, and mouse presses and
/// wheel turns, go to the input handler; other events send nothing.
pub open spec fn message_for(e: TermEvent) -> Option<InputMessages> {
    match e {
        TermEvent::Key { code, modifiers, press } => if press {
            Some(InputMessages::ButtonPress((code, modifiers)))
        } else {
            None
        },
        TermEvent::Mouse { kind, column, row, modifiers } => match kind {
            TermMouseKind::Down(b) => Some(
                InputMessages::MouseEvent(
                    (
                        MouseInput {
                            kind: if b == MouseButton::Left {
                                MouseKind::LeftDown
                            } else {
                                MouseKind::Other
                            },
                            column,
                            row,
                        },
                        modifiers,
                    ),
                ),
            ),
            TermMouseKind::ScrollDown => Some(
                InputMessages::MouseEvent((MouseInput { kind: MouseKind::ScrollDown, column, row }, modifiers)),
            ),
            TermMouseKind::ScrollUp => Some(
                InputMessages::MouseEvent((MouseInput { kind: MouseKind::ScrollUp, column, row }, modifiers)),
            ),
            _ => None,
        },
        _ => None,
    }
}

/// Route a terminal event (see `message_for`). A resize forgets the
/// panels' areas, records the new width, and drops the cached frame.
pub fn route_event(gui: &mut GuiState, cached: &mut Option<FrameViewModel>, event: TermEvent) -> (m: Option<InputMessages>)
    requires
        old(gui).wf(),
    ensures
        final(gui).wf(),
        m == message_for(event),
        match event {
            TermEvent::Resize { width, height } => {
                &&& *final(cached) is None
                &&& final(gui)@ == (GuiView { panel_areas: no_areas(3), screen_width: width as nat, ..old(gui)@ })
            },
            _ => *final(cached) == *old(cached) && final(gui)@ == old(gui)@,
        },
{
    match event {
        TermEvent::Key { code, modifiers, press } => if press {
            Some(InputMessages::ButtonPress((code, modifiers)))
        } else {
            None
        },
        TermEvent::Mouse { kind, column, row, modifiers } => match kind {
            TermMouseKind::Down(b) => {
                let k = if b == MouseButton::Left {
                    MouseKind::LeftDown
                } else {
                    MouseKind::Other
                };
                Some(InputMessages::MouseEvent((MouseInput { kind: k, column, row }, modifiers)))
            },
            TermMouseKind::ScrollDown => Some(
                InputMessages::MouseEvent((MouseInput { kind: MouseKind::ScrollDown, column, row }, modifiers)),
            ),
            TermMouseKind::ScrollUp => Some(
                InputMessages::MouseEvent((MouseInput { kind: MouseKind::ScrollUp, column, row }, modifiers)),
            ),
            _ => None,
        },
        TermEvent::Resize { width, height } => {
            gui.clear_area_map();
            gui.set_screen_width(width);
            *cached = None;
            None
        },
        TermEvent::Other => None,
    }
}

/// One tick of the error screen's countdown.
#[derive(Clone, Copy, Debug, PartialEq, Eq, Structural)]
pub struct Countdown {
    /// Seconds left.
    pub seconds: u8,
    /// Restart the second clock and redraw.
    pub tick: bool,
    /// The countdown is over.
    pub done: bool,
}

/// The error screen's countdown after `elapsed_ms` since the last tick: a
/// second gone takes one off, and the screen closes at zero.
pub open spec fn countdown(seconds: u8, elapsed_ms: u64) -> Countdown {
    if elapsed_ms >= 1000 {
        Countdown { seconds: (seconds - 1) as u8, tick: true, done: seconds - 1 < 1 }
    } else {
        Countdown { seconds, tick: false, done: false }
    }
}

/// One tick of the error screen's countdown (see `countdown`).
pub fn err_tick(seconds: u8, elapsed_ms: u64) -> (c: Countdown)
    requires
        seconds >= 1,
    ensures
        c == countdown(seconds, elapsed_ms),
{
    if elapsed_ms >= 1000 {
        let s = seconds - 1;
        Countdown { seconds: s, tick: true, done: s < 1 }
    } else {
        Countdown { seconds, tick: false, done: false }
    }
}

/// The error screen's countdown from 5 ends after five ticks.
pub proof fn law_countdown_ends(seconds: u8)
    requires
        1 <= seconds <= 5,
    ensures
        countdown(seconds, 1000).done <==> seconds == 1,
        countdown(seconds, 999) == (Countdown { seconds, tick: false, done: false }),
{
}

} // verus!
