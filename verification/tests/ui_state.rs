use oxker_tui::model::{DockerCommand, Header, RunningState, State};
use oxker_tui::ui_state::{state_from, EventContainerItem, EventStats, LogLine, UIContainerState};

fn event(id: &str, name: &str, state: &str, status: &str) -> EventContainerItem {
    EventContainerItem {
        id: id.to_string(),
        name: name.to_string(),
        image: format!("{name}:latest"),
        state: state.to_string(),
        status: status.to_string(),
        ports: vec![],
    }
}

fn lines(texts: &[&str]) -> Vec<LogLine> {
    texts
        .iter()
        .map(|t| LogLine {
            message: t.to_string(),
        })
        .collect()
}

fn stats(cpu: u64) -> EventStats {
    EventStats {
        cpu_usage: cpu,
        memory_usage: cpu * 2,
        memory_limit: 1000,
        network_rx: 5,
        network_tx: 6,
    }
}

#[test]
fn first_update_selects_first_container() {
    let mut ui = UIContainerState::new();
    let selected = ui.update_containers(vec![
        event("a", "web", "running", "Up 2 hours"),
        event("b", "db", "exited", "Exited (0)"),
    ]);
    assert_eq!(selected.as_deref(), Some("a"));
    assert_eq!(ui.get_container_count(), 2);
    assert_eq!(ui.get_selected_container_id().unwrap().get(), "a");
    assert_eq!(
        ui.get_selected_docker_command().copied(),
        Some(DockerCommand::Pause)
    );
}

#[test]
fn update_keeps_selected_container_when_order_changes() {
    let mut ui = UIContainerState::new();
    ui.update_containers(vec![
        event("a", "web", "running", "Up"),
        event("b", "db", "running", "Up"),
    ]);
    ui.next_container();
    assert_eq!(ui.get_selected_container_id().unwrap().get(), "b");
    let selected = ui.update_containers(vec![
        event("c", "cache", "running", "Up"),
        event("b", "db", "paused", "Paused"),
        event("a", "web", "running", "Up"),
    ]);
    assert_eq!(selected.as_deref(), Some("b"));
    assert_eq!(ui.get_selected_container_id().unwrap().get(), "b");
    let items = ui.get_container_items();
    assert_eq!(items[1].state, State::Paused);
}

#[test]
fn update_keeps_samples_of_known_containers() {
    let mut ui = UIContainerState::new();
    ui.update_containers(vec![event("a", "web", "running", "Up")]);
    ui.update_container_stats("a".to_string(), stats(10));
    ui.update_container_stats("a".to_string(), stats(20));
    ui.update_containers(vec![
        event("z", "new", "running", "Up"),
        event("a", "web2", "running", "Up"),
    ]);
    let items = ui.get_container_items();
    assert_eq!(items[1].name, "web2");
    assert_eq!(items[1].cpu_stats.iter().copied().collect::<Vec<u64>>(), vec![10, 20]);
    assert_eq!(items[1].mem_limit, 1000);
    assert!(items[0].cpu_stats.is_empty());
}

#[test]
fn samples_keep_the_last_sixty() {
    let mut ui = UIContainerState::new();
    ui.update_containers(vec![event("a", "web", "running", "Up")]);
    for i in 0..70u64 {
        ui.update_container_stats("a".to_string(), stats(i));
    }
    let items = ui.get_container_items();
    assert_eq!(items[0].cpu_stats.len(), 60);
    assert_eq!(items[0].cpu_stats.front().copied(), Some(10));
    assert_eq!(items[0].cpu_stats.back().copied(), Some(69));
    assert_eq!(items[0].rx, 5);
    assert_eq!(items[0].tx, 6);
}

#[test]
fn removing_last_selected_container_moves_selection_back() {
    let mut ui = UIContainerState::new();
    ui.update_containers(vec![
        event("a", "web", "running", "Up"),
        event("b", "db", "running", "Up"),
    ]);
    ui.last_container();
    ui.remove_container("b".to_string());
    assert_eq!(ui.get_container_count(), 1);
    assert_eq!(ui.get_selected_container_id().unwrap().get(), "a");
    ui.remove_container("a".to_string());
    assert!(ui.get_selected_container_id().is_none());
}

#[test]
fn logs_only_for_selected_container() {
    let mut ui = UIContainerState::new();
    ui.update_containers(vec![
        event("a", "web", "running", "Up"),
        event("b", "db", "running", "Up"),
    ]);
    ui.add_logs("b".to_string(), lines(&["ignored"]));
    assert!(ui.get_logs().is_empty());
    ui.add_logs("a".to_string(), lines(&["one", "two"]));
    ui.add_logs("a".to_string(), lines(&["three"]));
    let logs: Vec<String> = ui.get_logs().iter().cloned().collect();
    assert_eq!(logs, vec!["one", "two", "three"]);
    ui.add_logs("a".to_string(), vec![]);
    assert!(ui.get_logs().is_empty());
}

#[test]
fn logs_keep_the_last_ten_thousand() {
    let mut ui = UIContainerState::new();
    ui.update_containers(vec![event("a", "web", "running", "Up")]);
    let many: Vec<LogLine> = (0..10_005)
        .map(|i| LogLine {
            message: format!("line {i}"),
        })
        .collect();
    ui.add_logs("a".to_string(), many);
    assert_eq!(ui.get_logs().len(), 10_000);
    assert_eq!(ui.get_logs().front().unwrap(), "line 5");
    assert_eq!(ui.get_logs().back().unwrap(), "line 10004");
}

#[test]
fn container_navigation_stops_at_the_ends() {
    let mut ui = UIContainerState::new();
    ui.update_containers(vec![
        event("a", "web", "running", "Up"),
        event("b", "db", "exited", "Exited"),
    ]);
    ui.previous_container();
    assert_eq!(ui.get_selected_container_id().unwrap().get(), "a");
    ui.next_container();
    assert_eq!(ui.get_selected_container_id().unwrap().get(), "b");
    assert_eq!(
        ui.get_selected_docker_command().copied(),
        Some(DockerCommand::Start)
    );
    ui.next_container();
    assert_eq!(ui.get_selected_container_id().unwrap().get(), "b");
    ui.first_container();
    assert_eq!(ui.get_selected_container_id().unwrap().get(), "a");
}

#[test]
fn docker_command_navigation() {
    let mut ui = UIContainerState::new();
    ui.update_containers(vec![event("a", "web", "running", "Up")]);
    ui.next_docker_command();
    assert_eq!(
        ui.get_selected_docker_command().copied(),
        Some(DockerCommand::Restart)
    );
    ui.last_docker_command();
    assert_eq!(
        ui.get_selected_docker_command().copied(),
        Some(DockerCommand::Delete)
    );
    ui.next_docker_command();
    assert_eq!(
        ui.get_selected_docker_command().copied(),
        Some(DockerCommand::Delete)
    );
    ui.previous_docker_command();
    assert_eq!(
        ui.get_selected_docker_command().copied(),
        Some(DockerCommand::Stop)
    );
    ui.first_docker_command();
    assert_eq!(
        ui.get_selected_docker_command().copied(),
        Some(DockerCommand::Pause)
    );
}

#[test]
fn filter_editing() {
    let mut ui = UIContainerState::new();
    ui.push_filter_char('w');
    ui.push_filter_char('e');
    assert_eq!(ui.filter_term, "we");
    ui.pop_filter_char();
    assert_eq!(ui.filter_term, "w");
    ui.clear_filter();
    ui.pop_filter_char();
    assert_eq!(ui.filter_term, "");
    ui.set_filter_term("db".to_string());
    assert_eq!(ui.filter_term, "db");
}

#[test]
fn filter_field_cycles_both_ways() {
    let mut ui = UIContainerState::new();
    let start = ui.filter_by;
    for _ in 0..5 {
        ui.next_filter_field();
    }
    assert_eq!(ui.filter_by, start);
    ui.next_filter_field();
    ui.prev_filter_field();
    assert_eq!(ui.filter_by, start);
    ui.filter_by = Header::Image;
    ui.next_filter_field();
    assert_eq!(ui.filter_by, Header::State);
}

#[test]
fn changes_are_counted_until_rendered() {
    let mut ui = UIContainerState::new();
    assert!(!ui.has_significant_changes());
    ui.update_containers(vec![event("a", "web", "running", "Up")]);
    assert!(ui.has_significant_changes());
    ui.mark_changes_rendered();
    assert!(!ui.has_significant_changes());
    ui.update_container_stats("other".to_string(), stats(1));
    assert!(!ui.has_significant_changes());
    ui.update_container_stats("a".to_string(), stats(1));
    assert!(ui.has_significant_changes());
}

#[test]
fn state_parsing() {
    assert_eq!(state_from("running", "Up 1 hour"), State::Running(RunningState::Healthy));
    assert_eq!(
        state_from("running", "Up 1 hour (unhealthy)"),
        State::Running(RunningState::Unhealthy)
    );
    assert_eq!(state_from("exited", "Exited (1)"), State::Exited);
    assert_eq!(state_from("created", ""), State::Unknown);
}
