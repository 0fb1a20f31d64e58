use oxker_tui::gui_state::{frame, GuiState, FRAME_COUNT};
use oxker_tui::loading_state::{LoadingConfig, LoadingStateManager};
use uuid::Uuid;

fn new_id() -> u128 {
    Uuid::new_v4().as_u128()
}

#[test]
fn test_add_remove_loading_uuid() {
    let mut gui_state = GuiState::new(false);

    let uuid1 = new_id();
    let uuid2 = new_id();

    assert!(!gui_state.is_loading());

    gui_state.add_loading_uuid(uuid1, 1_000);
    assert!(gui_state.is_loading());
    assert!(gui_state.is_uuid_loading(uuid1));

    gui_state.add_loading_uuid(uuid2, 1_000);
    assert!(gui_state.is_loading());
    assert_eq!(gui_state.loading_uuid_count(), 2);

    gui_state.remove_loading_uuid(uuid1);
    assert!(gui_state.is_loading());
    assert!(!gui_state.is_uuid_loading(uuid1));

    gui_state.remove_loading_uuid(uuid2);
    assert!(!gui_state.is_loading());
    assert_eq!(gui_state.loading_uuid_count(), 0);
}

#[test]
fn test_is_loading_state_transitions() {
    let mut gui_state = GuiState::new(false);

    assert!(!gui_state.is_loading());

    let uuid = new_id();

    gui_state.add_loading_uuid(uuid, 5);
    assert!(gui_state.is_loading());

    gui_state.remove_loading_uuid(uuid);
    assert!(!gui_state.is_loading());
}

#[test]
fn test_cleanup_old_loading_uuids() {
    let mut gui_state = GuiState::new(false);

    let old_uuid = new_id();
    let recent_uuid = new_id();

    // The old id was tracked six minutes before the recent one.
    let start: u64 = 1_000_000;
    gui_state.add_loading_uuid(old_uuid, start);
    gui_state.add_loading_uuid(recent_uuid, start + 360_000);

    assert!(!gui_state.is_uuid_loading(old_uuid));
    assert!(gui_state.is_uuid_loading(recent_uuid));
    assert_eq!(gui_state.loading_uuid_count(), 1);
}

#[test]
fn test_multiple_concurrent_loading_uuids() {
    let mut gui_state = GuiState::new(false);

    let mut uuids = Vec::new();

    for i in 0..15u64 {
        let uuid = new_id();
        uuids.push(uuid);
        gui_state.add_loading_uuid(uuid, 10_000 + i);
    }

    assert!(gui_state.is_loading());
    assert_eq!(gui_state.loading_uuid_count(), 15);

    for uuid in uuids {
        gui_state.remove_loading_uuid(uuid);
    }

    assert!(!gui_state.is_loading());
    assert_eq!(gui_state.loading_uuid_count(), 0);
}

#[test]
fn test_loading_char_display() {
    let mut gui_state = GuiState::new(false);

    assert_eq!(gui_state.get_loading(), ' ');

    let uuid = new_id();
    gui_state.add_loading_uuid(uuid, 0);

    let loading_char = gui_state.get_loading();
    assert_ne!(loading_char, ' ');
    let frames: Vec<char> = (0..FRAME_COUNT).map(frame).collect();
    assert!(frames.contains(&loading_char));
}

#[test]
fn loading_animation_steps_through_frames() {
    let mut gui_state = GuiState::new(false);
    assert!(gui_state.start_loading_animation(7));
    assert_eq!(gui_state.get_loading(), frame(1));
    assert!(!gui_state.start_loading_animation(8));
    assert_eq!(gui_state.get_loading(), frame(2));
    assert!(!gui_state.stop_loading_animation(7));
    assert!(gui_state.stop_loading_animation(8));
    assert_eq!(gui_state.get_loading(), ' ');
}

#[test]
fn test_loading_state_manager_basic() {
    let mut manager = LoadingStateManager::new(LoadingConfig::default(), 0);
    let uuid = new_id();

    assert!(!manager.is_loading());

    manager.start_loading(uuid, Some("Test operation"), false, 10);
    assert!(manager.is_loading());
    assert_eq!(manager.active_count(), 1);
    assert!(manager.is_uuid_loading(uuid));

    assert!(manager.stop_loading(uuid));
    assert!(!manager.is_loading());
    assert_eq!(manager.active_count(), 0);
}

#[test]
fn test_loading_state_manager_expiration() {
    let config = LoadingConfig {
        max_duration: 100,
        health_check_interval: 50,
        max_concurrent_warning: 5,
    };
    let mut manager = LoadingStateManager::new(config, 0);
    let uuid = new_id();

    manager.start_loading(uuid, None, false, 0);
    assert_eq!(manager.active_count(), 1);

    // 150 ms later the operation is past its maximum duration.
    manager.health_check(150);
    assert_eq!(manager.active_count(), 0);
    assert_eq!(manager.stats().total_expired, 1);
}

#[test]
fn test_loading_state_manager_concurrent() {
    let mut manager = LoadingStateManager::new(LoadingConfig::default(), 0);
    let mut uuids = Vec::new();

    for i in 0..5u64 {
        let uuid = new_id();
        uuids.push(uuid);
        manager.start_loading(uuid, Some(&format!("Operation {i}")), i % 2 == 0, i);
    }

    assert_eq!(manager.active_count(), 5);
    assert_eq!(manager.animated_operations().len(), 3);

    manager.stop_loading(uuids[1]);
    manager.stop_loading(uuids[3]);
    assert_eq!(manager.active_count(), 3);

    manager.clear_all();
    assert_eq!(manager.active_count(), 0);
}

#[test]
fn test_loading_state_manager_invariants() {
    let mut manager = LoadingStateManager::new(LoadingConfig::default(), 0);

    assert!(manager.check_invariants(0).is_ok());

    for i in 0..5u64 {
        manager.start_loading(new_id(), None, false, i);
    }
    assert!(manager.check_invariants(10).is_ok());
}

#[test]
fn loading_invariants_report_old_and_excess_operations() {
    let config = LoadingConfig {
        max_duration: 10,
        health_check_interval: 1_000_000,
        max_concurrent_warning: 1,
    };
    let mut manager = LoadingStateManager::new(config, 0);
    let id: u128 = 0x0123456789abcdef0123456789abcdef;
    manager.start_loading(id, None, false, 0);
    let err = manager.check_invariants(25).unwrap_err();
    assert_eq!(
        err,
        "Operation 01234567-89ab-cdef-0123-456789abcdef is extremely old: 25ms"
    );

    manager.start_loading(1, None, false, 1);
    manager.start_loading(2, None, false, 2);
    let err = manager.check_invariants(5).unwrap_err();
    assert!(err.contains('3'));
}

#[test]
fn loading_stats_line_counts() {
    let mut manager = LoadingStateManager::new(LoadingConfig::default(), 0);
    manager.start_loading(1, None, true, 0);
    manager.start_loading(2, None, false, 0);
    manager.stop_loading(1);
    assert_eq!(
        manager.get_stats(),
        "Loading stats: 2 started, 1 completed, 0 expired, 1 active, 2 peak"
    );
    assert!(!manager.stop_loading(1));
    assert_eq!(manager.stats().total_completed, 1);
}
