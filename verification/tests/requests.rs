use ironbar_compositor::client::{
    focus_window_arg, focus_workspace_arg, focus_workspace_here_arg, Client, DispatchCommand,
};
use ironbar_compositor::config::{
    detect_lua_config, get_hyprland_config_provider, socket_path, status_request, ConfigError,
    HyprlandStatus,
};
use ironbar_compositor::ipc::IpcError;
use ironbar_compositor::text::{cut_second_field, to_decimal};

// These arguments are Lua source evaluated by the compositor, not Rust the compiler can check.
// A typo does not fail the build and does not raise an error at the call site: the dispatch simply
// does nothing. Pin the exact strings.

#[test]
fn focus_workspace_here_arg_pins_the_current_monitor() {
    assert_eq!(
        focus_workspace_here_arg(4),
        "{workspace=\"4\",on_current_monitor=true}"
    );
}

#[test]
fn focus_window_arg_addresses_the_window() {
    assert_eq!(focus_window_arg("0x55c0"), "{window=\"address:0x55c0\"}");
}

#[test]
fn focus_workspace_arg_names_the_workspace() {
    assert_eq!(focus_workspace_arg(-98), "{workspace=\"-98\"}");
}

#[test]
fn decimals_are_those_of_std() {
    for n in [0, 7, 10, 99, 100, 1234567890, -1, -10, i64::MAX, i64::MIN] {
        assert_eq!(to_decimal(n), n.to_string());
    }
}

fn lua() -> Client {
    Client::new(&Ok("lua".to_string()))
}

fn legacy() -> Client {
    Client::new(&Ok("hyprlang".to_string()))
}

fn failure() -> Result<(), IpcError> {
    Err(IpcError { message: "refused".to_string() })
}

fn describe(command: &DispatchCommand) -> String {
    match command {
        DispatchCommand::Custom { name, arg } => format!("{name} {arg}"),
        DispatchCommand::Workspace(id) => format!("workspace {id}"),
        DispatchCommand::FocusWindow { address } => format!("focuswindow {address}"),
    }
}

#[test]
fn focus_under_lua_is_a_custom_dispatcher() {
    assert_eq!(describe(&lua().focus(3)), "hl.dsp.focus {workspace=\"3\"}");
}

#[test]
fn focus_without_lua_takes_the_identifier() {
    assert_eq!(describe(&legacy().focus(3)), "workspace 3");
    assert_eq!(describe(&legacy().focus(-1)), "workspace -1");
    assert!(matches!(legacy().focus(3), DispatchCommand::Workspace(3)));
    for id in [i32::MIN, i32::MAX] {
        assert!(matches!(
            legacy().focus(i64::from(id)),
            DispatchCommand::Workspace(focused) if focused == id
        ));
    }
}

#[test]
fn focus_without_lua_keeps_large_identifiers() {
    for id in [(1 << 32) + 5, i64::from(i32::MAX) + 1, i64::from(i32::MIN) - 1, i64::MIN] {
        assert!(matches!(
            legacy().focus(id),
            DispatchCommand::Custom { name: "workspace", arg } if arg == id.to_string()
        ));
    }
}

#[test]
fn focus_requests_differ_between_workspaces() {
    assert_ne!(describe(&lua().focus(1)), describe(&lua().focus(11)));
    assert_ne!(describe(&legacy().focus(1)), describe(&legacy().focus(11)));
    assert_ne!(describe(&legacy().focus(5)), describe(&legacy().focus((1 << 32) + 5)));
}

#[test]
fn focus_window_under_lua_pulls_the_workspace_first() {
    let mut plan = lua().focus_window(4, "0x55c0".to_string());
    let first = plan.next(&Ok(())).unwrap();
    assert_eq!(
        describe(&first),
        "hl.dsp.focus {workspace=\"4\",on_current_monitor=true}"
    );
    let second = plan.next(&Ok(())).unwrap();
    assert_eq!(describe(&second), "hl.dsp.focus {window=\"address:0x55c0\"}");
    assert!(plan.next(&Ok(())).is_none());
}

#[test]
fn focus_window_without_lua_makes_the_address_canonical() {
    let mut plan = legacy().focus_window(-7, "55c0".to_string());
    let first = plan.next(&Ok(())).unwrap();
    assert_eq!(describe(&first), "focusworkspaceoncurrentmonitor -7");
    let second = plan.next(&Ok(())).unwrap();
    assert_eq!(describe(&second), "focuswindow 0x55c0");
    assert!(plan.next(&Ok(())).is_none());
}

#[test]
fn window_requests_differ_between_windows() {
    for client in [lua(), legacy()] {
        let second = |id: &str| {
            let mut plan = client.focus_window(1, id.to_string());
            plan.next(&Ok(()));
            describe(&plan.next(&Ok(())).unwrap())
        };
        assert_ne!(second("0x1"), second("0x11"));
        assert_eq!(second("0x1") == second("1"), !client.use_lua_dispatch);
    }
}

#[test]
fn canonical_addresses_are_kept() {
    let mut plan = legacy().focus_window(1, "0x55c0".to_string());
    plan.next(&Ok(()));
    assert_eq!(describe(&plan.next(&Ok(())).unwrap()), "focuswindow 0x55c0");
}

#[test]
fn a_failed_pull_leaves_the_window_alone() {
    let mut plan = legacy().focus_window(1, "0x1".to_string());
    assert!(plan.next(&Ok(())).is_some());
    assert!(plan.next(&failure()).is_none());
    assert!(plan.next(&Ok(())).is_none());
}

#[test]
fn lua_is_detected_by_its_name_alone() {
    assert!(detect_lua_config(&Ok("lua".to_string())));
    assert!(!detect_lua_config(&Ok("Lua".to_string())));
    assert!(!detect_lua_config(&Ok(String::new())));
}

#[test]
fn an_unknown_provider_means_legacy_dispatchers() {
    assert!(!detect_lua_config(&Err(ConfigError::NoInstance)));
    assert!(!Client::new(&Err(ConfigError::NoRuntimeDir)).use_lua_dispatch);
}

#[test]
fn the_provider_is_that_of_the_status() {
    let status = HyprlandStatus { config_provider: "lua".to_string() };
    assert_eq!(get_hyprland_config_provider(Ok(status)).unwrap(), "lua");
    let failed = get_hyprland_config_provider(Err(ConfigError::Socket("gone".to_string())));
    assert!(matches!(failed, Err(ConfigError::Socket(message)) if message == "gone"));
}

#[test]
fn the_socket_is_in_the_runtime_directory() {
    assert_eq!(
        socket_path(Some("/run/user/1000"), Some("7"), Some("abc")).unwrap(),
        "/run/user/1000/hypr/abc/.socket.sock"
    );
    assert_eq!(
        socket_path(None, Some("7"), Some("abc")).unwrap(),
        "/run/user/7/hypr/abc/.socket.sock"
    );
    assert_eq!(status_request(), "j/status");
}

#[test]
fn the_socket_needs_a_directory_and_an_instance() {
    assert!(matches!(
        socket_path(None, None, None),
        Err(ConfigError::NoRuntimeDir)
    ));
    assert!(matches!(
        socket_path(Some("/tmp"), None, None),
        Err(ConfigError::NoInstance)
    ));
}

#[test]
fn second_fields_are_those_of_std() {
    for text in ["", "a", ",", "a,", ",b", "a,b", "a,b,c", "ä,ö,ü", "a,,c"] {
        assert_eq!(
            cut_second_field(text),
            text.split(',').nth(1).map(|field| field.to_string())
        );
    }
}
