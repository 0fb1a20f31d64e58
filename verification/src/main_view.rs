//! The layout of the whole screen: where each panel goes, and which
//! dialogs show over it.
use vstd::prelude::*;
use crate::gui_state::{without_status, GuiState, GuiView, Status};
use crate::layout::{split_area, Constraint, Direction, Rect};
use crate::model::{ContainerId, DockerCommand};
use crate::ui_state::{first_with_id, ContainerItemView, UIContainerState};
use crate::view_models::FrameViewModel;

verus! {

/// Rows of the screen: the header bar, the panels, and the filter bar
/// while filtering.
pub open spec fn main_rows(filtering: bool) -> Seq<Constraint> {
    if filtering {
        seq![Constraint::Max(1), Constraint::Min(1), Constraint::Max(1)]
    } else {
        seq![Constraint::Max(1), Constraint::Min(1)]
    }
}

/// The panels split into the upper part and the charts row: three quarters
/// and a quarter with containers, all the upper part without.
pub open spec fn upper_lower(has_containers: bool) -> Seq<Constraint> {
    if has_containers {
        seq![Constraint::Percentage(75), Constraint::Percentage(25)]
    } else {
        seq![Constraint::Percentage(100), Constraint::Percentage(0)]
    }
}

/// The upper part split into the containers and the logs, at the logs'
/// height, when the logs show.
pub open spec fn containers_logs(show_logs: bool, log_height: u16) -> Seq<Constraint> {
    if show_logs {
        seq![Constraint::Min(6), Constraint::Percentage(log_height)]
    } else {
        seq![Constraint::Percentage(100)]
    }
}

/// The containers split from the commands, with containers.
pub open spec fn containers_commands(has_containers: bool) -> Seq<Constraint> {
    if has_containers {
        seq![Constraint::Percentage(90), Constraint::Percentage(10)]
    } else {
        seq![Constraint::Percentage(100)]
    }
}

/// The width of the ports panel: room for the widest ip (7 to 15) and the
/// ports, between 27 and 35; 27 without ports to show.
pub open spec fn ports_width(ip_len: Option<nat>) -> u16 {
    match ip_len {
        Some(l) => {
            let ip = if l < 7 {
                7
            } else if l > 15 {
                15
            } else {
                l
            };
            let w = ip + 21;
            (if w > 35 {
                35
            } else {
                w
            }) as u16
        },
        None => 27,
    }
}

/// Where the panels go on the screen.
#[derive(Clone, Copy, Debug)]
pub struct ScreenPlan {
    pub headers: Rect,
    pub filter: Option<Rect>,
    pub containers: Rect,
    pub logs: Option<Rect>,
    pub commands: Option<Rect>,
    pub charts: Option<Rect>,
    pub ports: Option<Rect>,
}

/// The ip length that sizes the ports panel, when there is a port view.
pub open spec fn ip_len_of(vm: FrameViewModel) -> Option<nat> {
    match vm.port_view {
        Some(p) => Some(p.max_lens.0 as nat),
        None => None,
    }
}

/// The screen plan that the parts of the splits give (see
/// `MainView::plan_from_parts`): `whole` is the screen split into rows,
/// `upper` its middle row split into the upper part and the charts row,
/// `cl` the upper part split into the containers and the logs, `cc` the
/// containers split from the commands, and `lower` the charts row split
/// into the charts and the ports. The charts row shows only with
/// containers and more than four rows; the charts need more than 10
/// columns and 5 rows, the ports more than 2 of each.
pub open spec fn plan_parts(
    filtering: bool,
    has_containers: bool,
    show_logs: bool,
    whole: Seq<Rect>,
    upper: Seq<Rect>,
    cl: Seq<Rect>,
    cc: Seq<Rect>,
    lower: Seq<Rect>,
    p: ScreenPlan,
) -> bool {
    let lower_shown = has_containers && upper[1].height > 4;
    &&& p.headers == whole[0]
    &&& p.filter == if filtering {
        Some(whole[2])
    } else {
        None
    }
    &&& p.containers == cc[0]
    &&& p.logs == if show_logs {
        Some(cl[1])
    } else {
        None
    }
    &&& p.commands == if has_containers {
        Some(cc[1])
    } else {
        None
    }
    &&& p.charts == if lower_shown && lower[0].width > 10 && lower[0].height > 5 {
        Some(lower[0])
    } else {
        None
    }
    &&& p.ports == if lower_shown && lower[1].width > 2 && lower[1].height > 2 {
        Some(lower[1])
    } else {
        None
    }
}

/// The parts of the splits have one rectangle per constraint of each split.
pub open spec fn parts_fit(
    filtering: bool,
    has_containers: bool,
    show_logs: bool,
    log_height: u16,
    whole: Seq<Rect>,
    upper: Seq<Rect>,
    cl: Seq<Rect>,
    cc: Seq<Rect>,
    lower: Seq<Rect>,
) -> bool {
    &&& whole.len() == main_rows(filtering).len()
    &&& upper.len() == upper_lower(has_containers).len()
    &&& cl.len() == containers_logs(show_logs, log_height).len()
    &&& cc.len() == containers_commands(has_containers).len()
    &&& lower.len() == 2
}

/// The name of the first container with the id `id`, if any.
pub open spec fn name_of(items: Seq<ContainerItemView>, id: Seq<char>) -> Option<Seq<char>> {
    match first_with_id(items, id) {
        Some(k) => Some(items[k].name),
        None => None,
    }
}

/// The dialogs to show: the delete dialog with the container's name, and
/// the command confirmation with the command, the container's id and name.
#[derive(Debug)]
pub struct Overlays {
    pub delete_name: Option<String>,
    pub confirm: Option<(DockerCommand, String, String)>,
}

/// The screen.
pub struct MainView {}

impl MainView {
    pub fn new() -> (v: Self) {
        MainView {}
    }

    fn split(area: Rect, direction: Direction, constraints: Vec<Constraint>) -> (r: Vec<Rect>)
        ensures
            r@.len() == constraints@.len(),
    {
        split_area(area, direction, 0, &constraints)
    }

    /// Where each panel of the frame `vm` goes in `area`: the header bar on
    /// top, the filter bar at the bottom while filtering; the containers with
    /// the commands beside them and the logs below; and at the bottom the
    /// charts and the ports, when there are containers and room for them.
    /// The splits are ratatui's; whatever parts they give, the plan is the
    /// one `plan_from_parts` makes of them.
    pub fn plan(&self, vm: &FrameViewModel, area: Rect) -> (p: ScreenPlan)
        ensures
            exists|whole: Seq<Rect>, upper: Seq<Rect>, cl: Seq<Rect>, cc: Seq<Rect>, lower: Seq<Rect>|
                parts_fit(
                    vm.status@.contains(Status::Filter),
                    vm.has_containers,
                    vm.show_logs,
                    vm.log_height,
                    whole,
                    upper,
                    cl,
                    cc,
                    lower,
                ) && #[trigger] plan_parts(
                    vm.status@.contains(Status::Filter),
                    vm.has_containers,
                    vm.show_logs,
                    whole,
                    upper,
                    cl,
                    cc,
                    lower,
                    p,
                ),
            p.filter is Some == vm.status@.contains(Status::Filter),
            p.logs is Some == vm.show_logs,
            p.commands is Some == vm.has_containers,
            p.charts is Some ==> vm.has_containers,
            p.ports is Some ==> vm.has_containers,
    {
        let filtering = vm.status.contains(Status::Filter);
        let rows = if filtering {
            vec![Constraint::Max(1), Constraint::Min(1), Constraint::Max(1)]
        } else {
            vec![Constraint::Max(1), Constraint::Min(1)]
        };
        proof {
            assert(rows@ =~= main_rows(filtering));
        }
        let whole = Self::split(area, Direction::Vertical, rows);
        let ul = if vm.has_containers {
            vec![Constraint::Percentage(75), Constraint::Percentage(25)]
        } else {
            vec![Constraint::Percentage(100), Constraint::Percentage(0)]
        };
        proof {
            assert(ul@ =~= upper_lower(vm.has_containers));
        }
        let upper = Self::split(whole[1], Direction::Vertical, ul);
        let clc = if vm.show_logs {
            vec![Constraint::Min(6), Constraint::Percentage(vm.log_height)]
        } else {
            vec![Constraint::Percentage(100)]
        };
        proof {
            assert(clc@ =~= containers_logs(vm.show_logs, vm.log_height));
        }
        let cl = Self::split(upper[0], Direction::Vertical, clc);
        let ccc = if vm.has_containers {
            vec![Constraint::Percentage(90), Constraint::Percentage(10)]
        } else {
            vec![Constraint::Percentage(100)]
        };
        proof {
            assert(ccc@ =~= containers_commands(vm.has_containers));
        }
        let cc = Self::split(cl[0], Direction::Horizontal, ccc);
        let width = Self::ports_width_for(vm);
        let cpc = vec![Constraint::Min(1), Constraint::Length(width)];
        let lower = Self::split(upper[1], Direction::Horizontal, cpc);
        let p = Self::plan_from_parts(vm, &whole, &upper, &cl, &cc, &lower);
        proof {
            assert(plan_parts(filtering, vm.has_containers, vm.show_logs, whole@, upper@, cl@, cc@, lower@, p));
        }
        p
    }

    /// The width of the ports panel for the frame `vm` (see `ports_width`).
    pub fn ports_width_for(vm: &FrameViewModel) -> (w: u16)
        ensures
            w == ports_width(ip_len_of(*vm)),
    {
        match &vm.port_view {
            Some(p) => {
                let l = p.max_lens.0;
                let ip: usize = if l < 7 {
                    7
                } else if l > 15 {
                    15
                } else {
                    l
                };
                let w = ip + 21;
                if w > 35 {
                    35
                } else {
                    w as u16
                }
            },
            None => 27,
        }
    }

    /// The screen plan of the frame `vm` from the parts of its splits (see
    /// `plan_parts`).
    pub fn plan_from_parts(
        vm: &FrameViewModel,
        whole: &Vec<Rect>,
        upper: &Vec<Rect>,
        cl: &Vec<Rect>,
        cc: &Vec<Rect>,
        lower: &Vec<Rect>,
    ) -> (p: ScreenPlan)
        requires
            parts_fit(
                vm.status@.contains(Status::Filter),
                vm.has_containers,
                vm.show_logs,
                vm.log_height,
                whole@,
                upper@,
                cl@,
                cc@,
                lower@,
            ),
        ensures
            plan_parts(
                vm.status@.contains(Status::Filter),
                vm.has_containers,
                vm.show_logs,
                whole@,
                upper@,
                cl@,
                cc@,
                lower@,
                p,
            ),
    {
        let filtering = vm.status.contains(Status::Filter);
        let lower_shown = vm.has_containers && upper[1].height > 4;
        ScreenPlan {
            headers: whole[0],
            filter: if filtering {
                Some(whole[2])
            } else {
                None
            },
            containers: cc[0],
            logs: if vm.show_logs {
                Some(cl[1])
            } else {
                None
            },
            commands: if vm.has_containers {
                Some(cc[1])
            } else {
                None
            },
            charts: if lower_shown && lower[0].width > 10 && lower[0].height > 5 {
                Some(lower[0])
            } else {
                None
            },
            ports: if lower_shown && lower[1].width > 2 && lower[1].height > 2 {
                Some(lower[1])
            } else {
                None
            },
        }
    }

    /// The name of the first container with the id `id`, if any.
    fn find_name(ui: &UIContainerState, id: &ContainerId) -> (r: Option<String>)
        ensures
            match r {
                Some(n) => name_of(ui.items(), id@) == Some(n@),
                None => name_of(ui.items(), id@) is None,
            },
    {
        let items = ui.get_container_items();
        let mut i: usize = 0;
        while i < items.len()
            invariant
                crate::ui_state::items_view(items@) == ui.items(),
                i <= items@.len(),
                forall|m: int| 0 <= m < i ==> ui.items()[m].id != id@,
            decreases items@.len() - i,
        {
            if items[i].id.same(id) {
                proof {
                    assert(ui.items()[i as int] == items@[i as int]@);
                    crate::ui_state::lemma_first_with_id(ui.items(), id@, i as int);
                }
                return Some(items[i].name.clone());
            }
            proof {
                assert(ui.items()[i as int] == items@[i as int]@);
            }
            i = i + 1;
        }
        proof {
            if first_with_id(ui.items(), id@) is Some {
                let k = first_with_id(ui.items(), id@)->0;
                crate::ui_state::lemma_first_with_id_found(ui.items(), id@);
                assert(ui.items()[k].id == id@);
            }
        }
        None
    }

    /// The delete dialog's container name; the dialog closes when its
    /// container is gone.
    fn delete_overlay(delete_confirm: &Option<ContainerId>, gui: &mut GuiState, ui: &UIContainerState) -> (r: Option<String>)
        requires
            old(gui).wf(),
        ensures
            final(gui).wf(),
            ({
                let del = match *delete_confirm {
                    Some(id) => name_of(ui.items(), id@),
                    None => None,
                };
                &&& match r {
                    Some(n) => del == Some(n@),
                    None => del is None,
                }
                &&& final(gui)@ == if delete_confirm is Some && del is None {
                    delete_closed(old(gui)@)
                } else {
                    old(gui)@
                }
            }),
    {
        match delete_confirm {
            Some(id) => {
                let n = Self::find_name(ui, id);
                if n.is_none() {
                    gui.set_delete_container(None);
                }
                n
            },
            None => None,
        }
    }

    /// The command confirmation with its container's name; it closes when
    /// its container is gone.
    fn confirm_overlay(confirming: bool, gui: &mut GuiState, ui: &UIContainerState) -> (r: Option<(DockerCommand, String, String)>)
        requires
            old(gui).wf(),
        ensures
            final(gui).wf(),
            confirm_of(confirming, old(gui)@, ui.items(), final(gui)@, r),
    {
        if confirming {
            match gui.get_command_confirm() {
                Some((command, id)) => match Self::find_name(ui, &id) {
                    Some(name) => Some((command, id.id, name)),
                    None => {
                        gui.set_command_confirm(None);
                        None
                    },
                },
                None => None,
            }
        } else {
            None
        }
    }

    /// The dialogs to show over the frame `vm`: the delete dialog and the
    /// command confirmation, each with its container's name; a dialog
    /// whose container is gone is closed instead.
    pub fn overlays(&self, vm: &FrameViewModel, gui: &mut GuiState, ui: &UIContainerState) -> (o: Overlays)
        requires
            old(gui).wf(),
        ensures
            final(gui).wf(),
            overlays_of(vm.delete_confirm, vm.status@, old(gui)@, ui.items(), final(gui)@, o),
    {
        let delete_name = Self::delete_overlay(&vm.delete_confirm, gui, ui);
        let confirm = Self::confirm_overlay(vm.status.contains(Status::CommandConfirm), gui, ui);
        Overlays { delete_name, confirm }
    }
}

/// The command confirmation to show (see `MainView::overlays`).
pub open spec fn confirm_of(
    confirming: bool,
    mid: GuiView,
    items: Seq<ContainerItemView>,
    g1: GuiView,
    c: Option<(DockerCommand, String, String)>,
) -> bool {
    if confirming {
        match mid.command_confirm {
            Some((cmd, id)) => match name_of(items, id) {
                Some(name) => {
                    &&& c matches Some(x) && x.0 == cmd && x.1@ == id && x.2@ == name
                    &&& g1 == mid
                },
                None => c is None && g1 == without_status(mid, Status::CommandConfirm),
            },
            None => c is None && g1 == mid,
        }
    } else {
        c is None && g1 == mid
    }
}

/// The state after closing the delete dialog of a container that is gone.
pub open spec fn delete_closed(g: GuiView) -> GuiView {
    GuiView {
        delete_container: None,
        ..without_status(GuiView { delete_areas: crate::gui_state::no_areas(2), ..g }, Status::DeleteConfirm)
    }
}

/// The dialogs of a frame (see `MainView::overlays`).
pub open spec fn overlays_of(
    delete_confirm: Option<ContainerId>,
    status: Set<Status>,
    g0: GuiView,
    items: Seq<ContainerItemView>,
    g1: GuiView,
    o: Overlays,
) -> bool {
    let del = match delete_confirm {
        Some(id) => name_of(items, id@),
        None => None,
    };
    let mid = if delete_confirm is Some && del is None {
        delete_closed(g0)
    } else {
        g0
    };
    &&& match o.delete_name {
        Some(n) => del == Some(n@),
        None => del is None,
    }
    &&& confirm_of(status.contains(Status::CommandConfirm), mid, items, g1, o.confirm)
}

} // verus!
