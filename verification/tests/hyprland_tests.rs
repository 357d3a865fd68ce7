use hydebar::config::appearance::{AppearanceColor, Rgb};
use hydebar::config::{WorkspaceVisibilityMode, WorkspacesModuleConfig};
use hydebar::hyprland::{
    HyprlandError, HyprlandKeyboardState, HyprlandMonitorInfo, HyprlandMonitorSelector, HyprlandPort,
    HyprlandWorkspaceInfo, HyprlandWorkspaceSelector, HyprlandWorkspaceSnapshot,
};
use hydebar::test_utils::MockHyprlandPort;
use hydebar::workspaces::{Message, WorkspaceAction, Workspaces, get_workspaces};

fn workspace(id: i32, name: &str, monitor: usize, windows: u16) -> HyprlandWorkspaceInfo {
    HyprlandWorkspaceInfo {
        id,
        name: name.to_owned(),
        monitor_id: Some(monitor),
        monitor_name: format!("M{monitor}"),
        window_count: windows,
    }
}

fn snapshot() -> HyprlandWorkspaceSnapshot {
    HyprlandWorkspaceSnapshot {
        monitors: vec![HyprlandMonitorInfo {
            id: 0,
            name: "M0".to_owned(),
            special_workspace_id: Some(-98),
        }],
        workspaces: vec![
            workspace(3, "3", 0, 2),
            workspace(-98, "special:scratch", 0, 1),
            workspace(1, "1", 0, 0),
            workspace(3, "duplicate", 0, 5),
        ],
        active_workspace_id: Some(3),
    }
}

#[test]
fn monitor_selector_display() {
    assert_eq!(HyprlandMonitorSelector::Id(3).to_string(), "monitor-id:3");
    assert_eq!(
        HyprlandMonitorSelector::Name("DP-1".into()).to_string(),
        "monitor-name:DP-1"
    );
}

#[test]
fn workspace_selector_display() {
    assert_eq!(
        HyprlandWorkspaceSelector::Id(2).to_string(),
        "workspace-id:2"
    );
    assert_eq!(
        HyprlandWorkspaceSelector::Name("code".into()).to_string(),
        "workspace-name:code"
    );
}

#[test]
fn keyboard_state_equality() {
    let state_a = HyprlandKeyboardState {
        active_layout: "us".into(),
        has_multiple_layouts: true,
        active_submap: Some("resize".into()),
    };
    let state_b = state_a.clone();
    assert_eq!(state_a, state_b);
}

#[test]
fn workspaces_sorted_unique_and_named() {
    let config = WorkspacesModuleConfig {
        visibility_mode: WorkspaceVisibilityMode::All,
        enable_workspace_filling: false,
        max_workspaces: None,
    };
    let list = get_workspaces(&config, &snapshot());
    let ids: Vec<i32> = list.iter().map(|w| w.id).collect();
    assert_eq!(ids, vec![-98, 1, 3]);
    assert_eq!(list[0].name, "scratch");
    assert!(list[0].active);
    assert_eq!(list[2].name, "3");
    assert_eq!(list[2].windows, 2);
    assert!(list[2].active);
    assert!(!list[1].active);
}

#[test]
fn workspace_filling_adds_empty_workspaces() {
    let config = WorkspacesModuleConfig {
        visibility_mode: WorkspaceVisibilityMode::All,
        enable_workspace_filling: true,
        max_workspaces: Some(5),
    };
    let list = get_workspaces(&config, &snapshot());
    let ids: Vec<i32> = list.iter().map(|w| w.id).collect();
    assert_eq!(ids, vec![-98, 1, 2, 3, 4, 5]);
    assert_eq!(list[2].name, "2");
    assert_eq!(list[2].windows, 0);
}

#[test]
fn workspace_clicks_become_requests() {
    let config = WorkspacesModuleConfig {
        visibility_mode: WorkspaceVisibilityMode::All,
        enable_workspace_filling: false,
        max_workspaces: None,
    };
    let mut module = Workspaces::new(&config, &snapshot());
    match module.update(Message::ChangeWorkspace(1), &config) {
        Some(WorkspaceAction::ChangeWorkspace(HyprlandWorkspaceSelector::Id(1))) => {}
        other => panic!("unexpected action: {other:?}"),
    }
    assert!(module.update(Message::ChangeWorkspace(3), &config).is_none());
    match module.update(Message::ToggleSpecialWorkspace(-98), &config) {
        Some(WorkspaceAction::ToggleSpecialWorkspace { monitor, workspace_name }) => {
            assert_eq!(monitor, HyprlandMonitorSelector::Id(0));
            assert_eq!(workspace_name, "scratch");
        }
        other => panic!("unexpected action: {other:?}"),
    }
}

#[test]
fn mock_port_counts_requests() {
    let mut port = MockHyprlandPort::with_active_window("Editor", "code");
    let window = port.active_window().expect("ok").expect("window");
    assert_eq!(window.title, "Editor");
    assert_eq!(window.class, "code");
    port.change_workspace(HyprlandWorkspaceSelector::Id(2)).expect("ok");
    port.focus_and_toggle_special_workspace(HyprlandMonitorSelector::Id(0), "magic")
        .expect("ok");
    port.switch_keyboard_layout().expect("ok");
    port.switch_keyboard_layout().expect("ok");
    assert_eq!(port.workspace_calls(), 1);
    assert_eq!(port.toggle_special_calls(), 1);
    assert_eq!(port.switch_layout_calls(), 2);
}

#[test]
fn mock_port_default_state() {
    let port = MockHyprlandPort::default();
    let snapshot = port.workspace_snapshot().expect("ok");
    assert_eq!(snapshot.monitors[0].name, "MockMonitor");
    assert_eq!(snapshot.workspaces[0].name, "1");
    assert_eq!(snapshot.active_workspace_id, Some(1));
    let keyboard = port.keyboard_state().expect("ok");
    assert_eq!(keyboard.active_layout, "us");
    assert_eq!(keyboard.active_submap.as_deref(), Some("resize"));
    assert_eq!(port.workspace_calls(), 0);
}

#[test]
fn workspace_buttons_follow_visibility_and_palette() {
    let snapshot = HyprlandWorkspaceSnapshot {
        monitors: vec![],
        workspaces: vec![
            workspace(1, "1", 0, 0),
            workspace(2, "2", 1, 3),
            workspace(-99, "special:music", 1, 1),
        ],
        active_workspace_id: Some(2),
    };
    let mut config = WorkspacesModuleConfig {
        visibility_mode: WorkspaceVisibilityMode::MonitorSpecific,
        enable_workspace_filling: false,
        max_workspaces: None,
    };
    let module = Workspaces::new(&config, &snapshot);
    let c = |v: u8| AppearanceColor::Simple(Rgb { r: v, g: v, b: v });
    let colors = vec![c(10), c(20)];
    let special = vec![c(90)];
    let outputs = vec!["M0".to_owned(), "M1".to_owned()];

    let buttons = module.buttons(&config, Some("M1"), &outputs, &colors, Some(&special));
    let labels: Vec<&str> = buttons.iter().map(|b| b.label.as_str()).collect();
    assert_eq!(labels, vec!["music", "2"]);
    assert_eq!(buttons[0].color, Some(None));
    assert!(buttons[0].toggles_special);
    assert_eq!(buttons[1].color, Some(Some(c(20))));
    assert!(buttons[1].active && !buttons[1].empty);

    let buttons = module.buttons(&config, Some("M0"), &vec!["M0".to_owned()], &colors, None);
    let labels: Vec<&str> = buttons.iter().map(|b| b.label.as_str()).collect();
    assert_eq!(labels, vec!["music", "1", "2"]);
    assert_eq!(buttons[0].color, Some(Some(c(20))));

    config.visibility_mode = WorkspaceVisibilityMode::All;
    assert_eq!(module.buttons(&config, Some("M0"), &outputs, &colors, None).len(), 3);
}

#[test]
fn mock_with_active_window_keeps_default_state() {
    let port = MockHyprlandPort::with_active_window("Editor", "code");
    let default_port = MockHyprlandPort::default();
    assert_eq!(
        port.workspace_snapshot().expect("ok"),
        default_port.workspace_snapshot().expect("ok")
    );
    assert_eq!(
        port.keyboard_state().expect("ok"),
        default_port.keyboard_state().expect("ok")
    );
    assert_eq!(port.workspace_calls(), 0);
    assert_eq!(port.toggle_special_calls(), 0);
    assert_eq!(port.switch_layout_calls(), 0);
}

#[test]
fn hyprland_error_texts_name_the_operation() {
    let e = HyprlandError::message("keyboard_state", "boom".to_owned());
    assert!(matches!(
        e,
        HyprlandError::Message { operation: "keyboard_state", ref message } if message == "boom"
    ));
    assert_eq!(e.to_string(), "operation `keyboard_state` failed: boom");
    let e = HyprlandError::unsupported("active_window");
    assert!(matches!(e, HyprlandError::Unsupported { operation: "active_window" }));
    assert_eq!(
        e.to_string(),
        "operation `active_window` not supported by this Hyprland backend"
    );
    assert_eq!(
        HyprlandError::runtime_unavailable("workspaces").to_string(),
        "operation `workspaces` unavailable because no async runtime is active"
    );
    let e = HyprlandError::Backend { operation: "dispatch", source: "socket closed".to_owned() };
    assert_eq!(e.to_string(), "operation `dispatch` failed: socket closed");
    let e = HyprlandError::Timeout {
        operation: "active_window",
        timeout: std::time::Duration::from_millis(1500),
    };
    assert_eq!(e.to_string(), "operation `active_window` timed out after 1.5s");
}
