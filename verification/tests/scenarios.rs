//! End-to-end scenarios through the command processor.

use komorebi::actions::Action;
use komorebi::actions::ExternalContext;
use komorebi::commands::ApplicationIdentifier;
use komorebi::commands::FocusFollowsMouseImplementation;
use komorebi::commands::SocketMessage;
use komorebi::commands::StateQuery;
use komorebi::commands::OperationDirection;
use komorebi::commands::Sizing;
use komorebi::errors::WmError;
use komorebi::model::Container;
use komorebi::model::Monitor;
use komorebi::model::Window;
use komorebi::rect::Point;
use komorebi::rect::Rect;
use komorebi::ring::CycleDirection;
use komorebi::startmenu::DisplayFormat;
use komorebi::startmenu::StartMenu;
use komorebi::startmenu::StartMenuConfig;
use komorebi::startmenu::StartMenuIcon;
use komorebi::window_manager::WindowManager;

fn monitor(id: u64, left: i32) -> Monitor {
    Monitor::new(id, Rect { left, top: 0, right: left + 1920, bottom: 1080 })
}

fn two_monitors() -> WindowManager {
    WindowManager::new(vec![monitor(1, 0), monitor(2, 1920)], true)
}

fn ctx() -> ExternalContext {
    ExternalContext::empty(false)
}

fn ctx_with_cursor(x: i32, y: i32) -> ExternalContext {
    let mut c = ExternalContext::empty(false);
    c.cursor_pos = Some(Point { x, y });
    c
}

fn window(hwnd: u64, exe: &str) -> Window {
    Window {
        hwnd,
        exe: exe.to_string(),
        class: String::new(),
        title: String::new(),
    }
}

fn manage(wm: &mut WindowManager, hwnd: u64, exe: &str) {
    let mut c = ctx();
    c.focused_os_window = Some(window(hwnd, exe));
    wm.process_command(SocketMessage::ManageFocusedWindow, &c)
        .expect("manage should succeed");
}

#[test]
fn focus_cycling_wraps_across_workspaces() {
    // Two monitors, two workspaces each; start focused on monitor 0
    // workspace 1. Next wraps to 0; Previous wraps back to 1.
    let mut wm = two_monitors();
    wm.process_command(SocketMessage::EnsureWorkspaces(0, 2), &ctx())
        .unwrap();
    wm.process_command(SocketMessage::EnsureWorkspaces(1, 2), &ctx())
        .unwrap();
    let cursor = ctx_with_cursor(10, 10);
    wm.process_command(SocketMessage::FocusWorkspaceNumber(1), &cursor)
        .unwrap();
    assert_eq!(wm.monitors[0].focused_workspace_idx, 1);

    wm.process_command(
        SocketMessage::CycleFocusWorkspace(CycleDirection::Next),
        &cursor,
    )
    .unwrap();
    assert_eq!(wm.monitors[0].focused_workspace_idx, 0);

    wm.process_command(
        SocketMessage::CycleFocusWorkspace(CycleDirection::Previous),
        &cursor,
    )
    .unwrap();
    assert_eq!(wm.monitors[0].focused_workspace_idx, 1);
}

#[test]
fn send_does_not_follow_move_follows() {
    // Container C on workspace 0; Send moves C to workspace 1 while focus
    // stays on 0; a new container D moved to workspace 0 keeps focus at 0.
    let mut wm = two_monitors();
    manage(&mut wm, 100, "c.exe");
    assert_eq!(wm.monitors[0].workspaces[0].containers.len(), 1);

    wm.process_command(SocketMessage::SendContainerToWorkspaceNumber(1), &ctx())
        .unwrap();
    assert_eq!(wm.monitors[0].focused_workspace_idx, 0);
    assert_eq!(wm.monitors[0].workspaces[0].containers.len(), 0);
    assert_eq!(wm.monitors[0].workspaces[1].containers.len(), 1);
    assert_eq!(wm.monitors[0].workspaces[1].containers[0].windows[0].hwnd, 100);

    manage(&mut wm, 200, "d.exe");
    // moving to the currently focused workspace is a no-op focus change
    wm.process_command(SocketMessage::MoveContainerToWorkspaceNumber(0), &ctx())
        .unwrap();
    assert_eq!(wm.monitors[0].focused_workspace_idx, 0);
    assert_eq!(wm.monitors[0].workspaces[0].containers.len(), 1);
    assert_eq!(wm.monitors[0].workspaces[0].containers[0].windows[0].hwnd, 200);
}

#[test]
fn manage_rule_is_idempotent() {
    let mut wm = two_monitors();
    for _ in 0..2 {
        wm.process_command(
            SocketMessage::ManageRule(ApplicationIdentifier::Exe, "foo.exe".to_string()),
            &ctx(),
        )
        .unwrap();
    }
    let ids = &wm.rules.manage_identifiers;
    assert_eq!(ids.len(), 1);
    assert_eq!(ids[0], "foo.exe");
}

#[test]
fn internal_ffm_refused_while_os_native_active() {
    // With OS-native FFM enabled externally, enabling the internal
    // implementation is refused and the field stays None.
    let mut wm = two_monitors();
    let mut c = ctx();
    c.os_focus_follows_mouse_enabled = true;
    let out = wm
        .process_command(
            SocketMessage::FocusFollowsMouse(FocusFollowsMouseImplementation::Komorebi, true),
            &c,
        )
        .unwrap();
    assert!(wm.focus_follows_mouse.is_none());
    assert!(out.actions.is_empty());
}

#[test]
fn quicksave_round_trip_restores_deltas() {
    // Deltas [Some(r0), None, Some(r2)]; QuickSave, clobber to all-None,
    // QuickLoad restores them exactly.
    let mut wm = two_monitors();
    manage(&mut wm, 1, "a.exe");
    manage(&mut wm, 2, "b.exe");
    manage(&mut wm, 3, "c.exe");
    let r0 = Rect { left: -50, top: 0, right: 0, bottom: 0 };
    let r2 = Rect { left: 0, top: 0, right: 50, bottom: 0 };
    wm.monitors[0].workspaces[0].resize_dimensions = vec![Some(r0), None, Some(r2)];

    let out = wm.process_command(SocketMessage::QuickSave, &ctx()).unwrap();
    let saved = match &out.actions[0] {
        Action::PersistQuicksave(v) => v.clone(),
        other => panic!("unexpected action {:?}", other),
    };
    assert_eq!(saved, vec![Some(r0), None, Some(r2)]);

    wm.monitors[0].workspaces[0].resize_dimensions = vec![None, None, None];

    let mut c = ctx();
    c.loaded_resize = Some(saved);
    wm.process_command(SocketMessage::QuickLoad, &c).unwrap();
    assert_eq!(
        wm.monitors[0].workspaces[0].resize_dimensions,
        vec![Some(r0), None, Some(r2)]
    );
}

#[test]
fn paused_filter_drops_everything_but_the_three() {
    let mut wm = two_monitors();
    wm.process_command(SocketMessage::TogglePause, &ctx()).unwrap();
    assert!(wm.is_paused);

    // dropped: no change, no actions, no notification
    let out = wm
        .process_command(
            SocketMessage::FocusWorkspaceNumber(3),
            &ctx_with_cursor(10, 10),
        )
        .unwrap();
    assert!(out.actions.is_empty());
    assert!(!out.notify);
    assert_eq!(wm.monitors[0].workspaces.len(), 1);
    assert_eq!(wm.monitors[0].focused_workspace_idx, 0);

    // State is still answered on the response socket
    let out = wm.process_command(SocketMessage::State, &ctx()).unwrap();
    assert_eq!(out.actions, vec![Action::RespondState]);

    // TogglePause unpauses
    wm.process_command(SocketMessage::TogglePause, &ctx()).unwrap();
    assert!(!wm.is_paused);
}

#[test]
fn toggle_pause_is_self_inverse() {
    let mut wm = two_monitors();
    let before = wm.is_paused;
    wm.process_command(SocketMessage::TogglePause, &ctx()).unwrap();
    wm.process_command(SocketMessage::TogglePause, &ctx()).unwrap();
    assert_eq!(wm.is_paused, before);
}

#[test]
fn add_then_remove_subscriber_restores_registry() {
    let mut wm = two_monitors();
    let mut c = ctx();
    c.pipe_handle = Some(7);
    wm.process_command(
        SocketMessage::AddSubscriber("bar".to_string()),
        &c,
    )
    .unwrap();
    assert_eq!(wm.subscribers.pipes.len(), 1);
    wm.process_command(
        SocketMessage::RemoveSubscriber("bar".to_string()),
        &ctx(),
    )
    .unwrap();
    assert!(wm.subscribers.pipes.is_empty());
}

#[test]
fn add_subscriber_without_pipe_fails() {
    let mut wm = two_monitors();
    let err = wm
        .process_command(SocketMessage::AddSubscriber("x".to_string()), &ctx())
        .unwrap_err();
    assert_eq!(err, WmError::PipeNotCreated);
}

#[test]
fn query_answers_on_response_socket() {
    let mut wm = two_monitors();
    let out = wm
        .process_command(SocketMessage::Query(StateQuery::FocusedMonitorIndex), &ctx())
        .unwrap();
    assert_eq!(out.actions, vec![Action::RespondQuery(0)]);
    assert!(!out.notify);
}

#[test]
fn quickload_without_quicksave_fails() {
    let mut wm = two_monitors();
    let err = wm.process_command(SocketMessage::QuickLoad, &ctx()).unwrap_err();
    assert_eq!(err, WmError::NoQuicksave);
}

#[test]
fn stop_restores_all_windows_then_exits() {
    let mut wm = two_monitors();
    manage(&mut wm, 11, "a.exe");
    manage(&mut wm, 12, "b.exe");
    let out = wm.process_command(SocketMessage::Stop, &ctx()).unwrap();
    assert_eq!(out.actions.last(), Some(&Action::Exit));
    assert!(out.actions.contains(&Action::Show(11)));
    assert!(out.actions.contains(&Action::Show(12)));
}

#[test]
fn float_rule_marks_new_windows_floating() {
    let mut wm = two_monitors();
    wm.process_command(
        SocketMessage::FloatRule(ApplicationIdentifier::Exe, "float.exe".to_string()),
        &ctx(),
    )
    .unwrap();
    manage(&mut wm, 21, "float.exe");
    manage(&mut wm, 22, "tiled.exe");
    assert!(wm.monitors[0].workspaces[0].containers[0].floating);
    assert!(!wm.monitors[0].workspaces[0].containers[1].floating);
}

#[test]
fn focus_errors_on_empty_workspace() {
    let mut wm = two_monitors();
    let err = wm
        .process_command(
            SocketMessage::CycleFocusWindow(CycleDirection::Next),
            &ctx(),
        )
        .unwrap_err();
    assert_eq!(err, WmError::NoContainer);
    let err = wm
        .process_command(SocketMessage::FocusMonitorNumber(5), &ctx())
        .unwrap_err();
    assert_eq!(err, WmError::NoMonitor);
}

#[test]
fn resize_window_adjusts_delta_by_fifty() {
    let mut wm = two_monitors();
    manage(&mut wm, 31, "a.exe");
    wm.process_command(
        SocketMessage::ResizeWindow(OperationDirection::Right, Sizing::Increase),
        &ctx(),
    )
    .unwrap();
    assert_eq!(
        wm.monitors[0].workspaces[0].resize_dimensions[0],
        Some(Rect { left: 0, top: 0, right: 50, bottom: 0 })
    );
}

#[test]
fn start_menu_config_resolves_defaults() {
    let resolved = StartMenu::from(StartMenuConfig { enable: true, display: None, icon: None });
    assert!(resolved.enable);
    assert_eq!(resolved.display, DisplayFormat::Icon);
    assert_eq!(resolved.icon, StartMenuIcon::YinYang);
}

#[test]
fn toggle_pause_notification_follows_arrival_state() {
    // A command processed while unpaused owes a notification; one processed
    // while paused does not, TogglePause included.
    let mut wm = two_monitors();
    let out = wm.process_command(SocketMessage::TogglePause, &ctx()).unwrap();
    assert!(out.notify, "pausing arrived unpaused: notification owed");
    let out = wm.process_command(SocketMessage::TogglePause, &ctx()).unwrap();
    assert!(!out.notify, "unpausing arrived paused: no notification");
}

#[test]
fn successful_commands_notify_but_introspection_does_not() {
    let mut wm = two_monitors();
    let out = wm
        .process_command(SocketMessage::ToggleMouseFollowsFocus, &ctx())
        .unwrap();
    assert!(out.notify);
    let out = wm.process_command(SocketMessage::State, &ctx()).unwrap();
    assert!(!out.notify);
    let out = wm
        .process_command(SocketMessage::Query(StateQuery::FocusedMonitorIndex), &ctx())
        .unwrap();
    assert!(!out.notify);
}

#[test]
fn workspace_rule_enforces_over_managed_windows() {
    // A window already managed on workspace 0 of monitor 0 is relocated to
    // the rule's target workspace as soon as the rule arrives.
    let mut wm = two_monitors();
    manage(&mut wm, 41, "routed.exe");
    manage(&mut wm, 42, "stays.exe");
    wm.process_command(
        SocketMessage::WorkspaceRule(ApplicationIdentifier::Exe, "routed.exe".to_string(), 1, 2),
        &ctx(),
    )
    .unwrap();
    // the matching window left monitor 0...
    assert_eq!(wm.monitors[0].workspaces[0].containers.len(), 1);
    assert_eq!(wm.monitors[0].workspaces[0].containers[0].windows[0].hwnd, 42);
    // ...and landed on monitor 1, workspace 2 (created lazily)
    assert_eq!(wm.monitors[1].workspaces.len(), 3);
    assert_eq!(wm.monitors[1].workspaces[2].containers.len(), 1);
    assert_eq!(wm.monitors[1].workspaces[2].containers[0].windows[0].hwnd, 41);
    // a second pass with the same rule is stable
    wm.process_command(
        SocketMessage::WorkspaceRule(ApplicationIdentifier::Exe, "routed.exe".to_string(), 1, 2),
        &ctx(),
    )
    .unwrap();
    assert_eq!(wm.monitors[1].workspaces[2].containers.len(), 1);
}
