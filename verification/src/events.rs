//! What the interface does with the events of the core.
use vstd::prelude::*;
use crate::gui_state::{
    loading_started, loading_stopped, pushed, without_status, GuiState, GuiView, Status,
};
use crate::ids::{parse_uuid, uuid_from_text};
use crate::text::text_eq;
use crate::input::delete_cleared;
use crate::ui_state::{
    container_removed, list_updated, logs_added, stats_updated, EventContainerItem, EventStats,
    LogLine, UIContainerState,
};

verus! {

/// An event of the core.
#[derive(Debug)]
pub enum CoreEvent {
    ContainerListUpdate(Vec<EventContainerItem>),
    ContainerStatsUpdate { container_id: String, stats: EventStats },
    ContainerLogsUpdate { container_id: String, logs: Vec<LogLine> },
    ContainerRemoved(String),
    Error(String),
    ContainerListUpdated,
    ContainerSelectionChanged,
    LoadingStarted(String),
    LoadingFinished(String),
    ContainerDeletionStarted(String),
}

/// What the caller does after an event: redraw, and start the loading
/// animation's timer.
#[derive(Clone, Copy, Debug, PartialEq, Eq, Structural)]
pub struct EventOutcome {
    pub redraw: bool,
    pub animate: bool,
}

/// The logs position after new lines: it follows the last line when the
/// logs were empty or the last line was selected.
pub open spec fn follow_logs(g: GuiView, prev: nat, new: nat) -> GuiView {
    let at_bottom = prev == 0 || g.logs_position >= (if prev > 0 { prev - 1 } else { 0 });
    if new > 0 && (prev == 0 || at_bottom) {
        GuiView { logs_position: (new - 1) as nat, redraw: true, ..g }
    } else {
        g
    }
}

/// What an event does (see `UIEventHandler::handle_event`).
pub open spec fn event_effect(e: CoreEvent, g0: GuiView, u0: UIContainerState, g1: GuiView, u1: UIContainerState, o: EventOutcome) -> bool {
    match e {
        CoreEvent::ContainerListUpdate(cs) => {
            &&& exists|r: Option<String>| #[trigger] list_updated(u0, cs@, u1, r)
            &&& g1 == without_status(without_status(g0, Status::Init), Status::DockerConnect)
            &&& o == (EventOutcome { redraw: true, animate: false })
        },
        CoreEvent::ContainerStatsUpdate { container_id, stats } => {
            &&& stats_updated(u0, container_id@, stats, u1)
            &&& g1 == g0
            &&& o == (EventOutcome { redraw: true, animate: false })
        },
        CoreEvent::ContainerLogsUpdate { container_id, logs } => {
            &&& logs_added(u0, container_id@, logs@, u1)
            &&& g1 == follow_logs(without_status(g0, Status::Logs), u0.logs@.len(), u1.logs@.len())
            &&& o == (EventOutcome { redraw: true, animate: false })
        },
        CoreEvent::ContainerRemoved(id) => {
            &&& container_removed(u0, id@, u1)
            &&& g1 == (if g0.delete_container == Some(id@) { delete_cleared(g0) } else { g0 })
            &&& o == (EventOutcome { redraw: true, animate: false })
        },
        CoreEvent::Error(_) => {
            &&& u1 == u0
            &&& g1 == pushed(g0, Status::Error)
            &&& o == (EventOutcome { redraw: true, animate: false })
        },
        CoreEvent::ContainerListUpdated | CoreEvent::ContainerSelectionChanged => {
            &&& u1 == u0
            &&& g1 == g0
            &&& o == (EventOutcome { redraw: true, animate: false })
        },
        CoreEvent::LoadingStarted(t) => {
            &&& u1 == u0
            &&& match uuid_from_text(t@) {
                Some(id) => g1 == loading_started(g0, id) && o == (EventOutcome {
                    redraw: false,
                    animate: !crate::gui_state::view_is_loading(g0),
                }),
                None => g1 == g0 && o == (EventOutcome { redraw: false, animate: false }),
            }
        },
        CoreEvent::LoadingFinished(t) => {
            &&& u1 == u0
            &&& g1 == match uuid_from_text(t@) {
                Some(id) => loading_stopped(g0, id),
                None => g0,
            }
            &&& o == (EventOutcome { redraw: false, animate: false })
        },
        CoreEvent::ContainerDeletionStarted(_) => {
            &&& u1 == u0
            &&& g1 == pushed(g0, Status::DeleteConfirm)
            &&& o == (EventOutcome { redraw: true, animate: false })
        },
    }
}

/// Handles the events of the core.
pub struct UIEventHandler {}

impl UIEventHandler {
    pub fn new() -> (h: Self) {
        UIEventHandler {}
    }

    /// Apply an event of the core to the interface and container state (see
    /// `event_effect`): list, sample and log updates and removals go to the
    /// containers; a removal closes the delete dialog if it was for that
    /// container; a list update ends the start-up and connection screens;
    /// new logs end the log loading and keep following the last line; errors
    /// and deletions show their status; loading events drive the animation.
    pub fn handle_event(&self, gui: &mut GuiState, ui: &mut UIContainerState, event: CoreEvent) -> (o: EventOutcome)
        requires
            old(gui).wf(),
            event matches CoreEvent::ContainerListUpdate(cs) ==> cs@.len() <= u64::MAX,
        ensures
            final(gui).wf(),
            event_effect(event, old(gui)@, *old(ui), final(gui)@, *final(ui), o),
    {
        match event {
            CoreEvent::ContainerListUpdate(cs) => {
                let ghost csv = cs@;
                let r = ui.update_containers(cs);
                proof {
                    assert(list_updated(*old(ui), csv, *ui, r));
                }
                gui.status_del(Status::Init);
                gui.status_del(Status::DockerConnect);
                EventOutcome { redraw: true, animate: false }
            },
            CoreEvent::ContainerStatsUpdate { container_id, stats } => {
                ui.update_container_stats(container_id, stats);
                EventOutcome { redraw: true, animate: false }
            },
            CoreEvent::ContainerLogsUpdate { container_id, logs } => {
                let prev = ui.logs.len();
                let pos = gui.get_ui_logs_position();
                let at_bottom = prev == 0 || pos >= prev.saturating_sub(1);
                ui.add_logs(container_id, logs);
                let new = ui.logs.len();
                gui.status_del(Status::Logs);
                if new > 0 && (prev == 0 || at_bottom) {
                    gui.set_ui_logs_position(new - 1);
                }
                EventOutcome { redraw: true, animate: false }
            },
            CoreEvent::ContainerRemoved(id) => {
                let pending = match gui.get_delete_container() {
                    Some(c) => text_eq(c.id.as_str(), id.as_str()),
                    None => false,
                };
                ui.remove_container(id);
                if pending {
                    gui.set_delete_container(None);
                    gui.status_del(Status::DeleteConfirm);
                }
                EventOutcome { redraw: true, animate: false }
            },
            CoreEvent::Error(_) => {
                gui.status_push(Status::Error);
                EventOutcome { redraw: true, animate: false }
            },
            CoreEvent::ContainerListUpdated | CoreEvent::ContainerSelectionChanged => {
                EventOutcome { redraw: true, animate: false }
            },
            CoreEvent::LoadingStarted(t) => match parse_uuid(t.as_str()) {
                Some(id) => {
                    let start = gui.start_loading_animation(id);
                    EventOutcome { redraw: false, animate: start }
                },
                None => EventOutcome { redraw: false, animate: false },
            },
            CoreEvent::LoadingFinished(t) => {
                match parse_uuid(t.as_str()) {
                    Some(id) => {
                        gui.stop_loading_animation(id);
                    },
                    None => {},
                }
                EventOutcome { redraw: false, animate: false }
            },
            CoreEvent::ContainerDeletionStarted(_) => {
                gui.status_push(Status::DeleteConfirm);
                EventOutcome { redraw: true, animate: false }
            },
        }
    }
}

} // verus!
