use oxker_tui::mock::{MockCoreHandle, MockReply};
use oxker_tui::model::CoreCommand;

#[test]
fn test_mock_core_handle_basic() {
    let mut mock = MockCoreHandle::new();

    let reply = mock.execute_command(CoreCommand::RefreshContainers);

    let commands = mock.get_commands();
    assert_eq!(commands.len(), 1);
    assert!(matches!(commands[0], CoreCommand::RefreshContainers));

    match reply {
        MockReply::ContainerList(list) => assert_eq!(list.len(), 3),
        other => panic!("unexpected reply {other:?}"),
    }
}

#[test]
fn test_mock_core_handle_container_lifecycle() {
    let mut mock = MockCoreHandle::new();

    assert_eq!(mock.containers.len(), 3);

    let test_id = mock.containers[0].id.get().to_string();
    let started = mock.execute_command(CoreCommand::StartContainer(test_id.clone()));
    assert!(matches!(started, MockReply::Refresh));

    mock.execute_command(CoreCommand::StopContainer(test_id.clone()));
    mock.execute_command(CoreCommand::RemoveContainer(test_id.clone()));

    assert_eq!(mock.containers.len(), 2);
    assert!(!mock.containers.iter().any(|c| c.id.get() == test_id));
    assert_eq!(mock.get_commands().len(), 3);
}

#[test]
fn test_mock_core_handle_logs() {
    let mut mock = MockCoreHandle::new();

    mock.add_logs(
        "test1",
        vec!["Log line 1".to_string(), "Log line 2".to_string()],
    );

    let reply = mock.execute_command(CoreCommand::RefreshLogs("test1".to_string()));

    if let MockReply::Logs { container_id, logs } = reply {
        assert_eq!(container_id, "test1");
        assert_eq!(logs.len(), 2);
        assert_eq!(logs[0].message, "Log line 1");
        assert_eq!(logs[1].message, "Log line 2");
    } else {
        panic!("Expected ContainerLogsUpdate event");
    }
}

#[test]
fn mock_forwards_other_commands_and_forgets_on_clear() {
    let mut mock = MockCoreHandle::new();
    let reply = mock.execute_command(CoreCommand::FilterContainers("web".to_string()));
    match reply {
        MockReply::Forward(CoreCommand::FilterContainers(t)) => assert_eq!(t, "web"),
        other => panic!("unexpected reply {other:?}"),
    }
    let exec = mock.execute_command(CoreCommand::ExecuteCommand {
        container_id: "test1".to_string(),
        command: vec!["sh".to_string()],
    });
    assert!(matches!(exec, MockReply::Nothing));
    mock.clear_commands();
    assert!(mock.get_commands().is_empty());
    assert_eq!(mock.containers.len(), 3);
}

#[test]
fn mock_logs_of_unknown_container_are_empty() {
    let mut mock = MockCoreHandle::new();
    mock.add_logs("test2", vec!["x".to_string()]);
    mock.add_logs("test2", vec!["y".to_string()]);
    match mock.execute_command(CoreCommand::RefreshLogs("nope".to_string())) {
        MockReply::Logs { logs, .. } => assert!(logs.is_empty()),
        other => panic!("unexpected reply {other:?}"),
    }
    match mock.execute_command(CoreCommand::RefreshLogs("test2".to_string())) {
        MockReply::Logs { logs, .. } => {
            let texts: Vec<&str> = logs.iter().map(|l| l.message.as_str()).collect();
            assert_eq!(texts, vec!["y"]);
        }
        other => panic!("unexpected reply {other:?}"),
    }
}

#[test]
fn mock_keeps_one_entry_per_container() {
    let mut mock = MockCoreHandle::new();
    mock.add_logs("test1", vec!["a".to_string()]);
    mock.add_logs("test2", vec!["b".to_string()]);
    mock.add_logs("test1", vec!["c".to_string()]);
    assert_eq!(mock.logs.len(), 2);
    match mock.execute_command(CoreCommand::RefreshLogs("test2".to_string())) {
        MockReply::Logs { logs, .. } => assert_eq!(logs[0].message, "b"),
        other => panic!("unexpected reply {other:?}"),
    }
    mock.set_exec_output("test1", "out1");
    mock.set_exec_output("test2", "out2");
    mock.set_exec_output("test1", "again");
    assert_eq!(mock.exec_outputs.len(), 2);
    assert_eq!(mock.exec_outputs[0], ("test1".to_string(), "again".to_string()));
    assert_eq!(mock.exec_outputs[1].1, "out2");
}
