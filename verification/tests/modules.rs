use ironbar_compositor::button::{
    Button, ClassChange, CssClass, IconSettings, OpenState, WindowIcon, WorkspaceMessage,
};
use ironbar_compositor::client::{Client, DispatchCommand};
use ironbar_compositor::compositor::{
    connected, Backend, Compositor, Environment, Error, Features,
};
use ironbar_compositor::input::{
    bind_mode_update, current_layout, set_next_active, LayoutEvent,
};
use ironbar_compositor::ipc::{Fault, HyprKeyboard, IpcError};
use ironbar_compositor::workspace::WorkspaceWindow;

fn everything() -> Features {
    Features {
        sway: true,
        hyprland: true,
        niri: true,
        bindmode_sway: true,
        bindmode_hyprland: true,
        keyboard_sway: true,
        keyboard_hyprland: true,
        workspaces_sway: true,
        workspaces_hyprland: true,
        workspaces_niri: true,
    }
}

fn variables(swaysock: bool, hyprland_instance_signature: bool, niri_socket: bool) -> Environment {
    Environment { swaysock, hyprland_instance_signature, niri_socket }
}

#[test]
fn compositors_make_themselves_known() {
    let current = |environment| Compositor::get_current(&environment, &everything());
    assert_eq!(current(variables(true, true, true)), Compositor::Sway);
    assert_eq!(current(variables(false, true, true)), Compositor::Hyprland);
    assert_eq!(current(variables(false, false, true)), Compositor::Niri);
    assert_eq!(current(variables(false, false, false)), Compositor::Unsupported);
}

#[test]
fn a_compositor_that_is_not_compiled_in_hides_the_others() {
    let features = Features { sway: false, ..everything() };
    assert_eq!(
        Compositor::get_current(&variables(true, true, true), &features),
        Compositor::Unsupported
    );
    let features = Features { hyprland: false, niri: false, ..everything() };
    assert_eq!(
        Compositor::get_current(&variables(false, true, true), &features),
        Compositor::Unsupported
    );
    assert_eq!(
        Compositor::get_current(&variables(false, false, true), &features),
        Compositor::Unsupported
    );
}

#[test]
fn compositors_have_names() {
    assert_eq!(Compositor::Sway.name(), "Sway");
    assert_eq!(Compositor::Hyprland.name(), "Hyprland");
    assert_eq!(Compositor::Niri.name(), "Niri");
    assert_eq!(Compositor::Unsupported.name(), "Unsupported");
}

#[test]
fn clients_are_those_of_the_compositor() {
    let sway = variables(true, false, false);
    let hyprland = variables(false, true, false);
    let niri = variables(false, false, true);
    let all = everything();
    assert!(matches!(Compositor::create_bindmode_client(&sway, &all), Ok(Backend::Sway)));
    assert!(matches!(Compositor::create_bindmode_client(&hyprland, &all), Ok(Backend::Hyprland)));
    assert!(matches!(Compositor::create_keyboard_layout_client(&sway, &all), Ok(Backend::Sway)));
    assert!(matches!(
        Compositor::create_keyboard_layout_client(&hyprland, &all),
        Ok(Backend::Hyprland)
    ));
    assert!(matches!(Compositor::create_workspace_client(&sway, &all), Ok(Backend::Sway)));
    assert!(matches!(Compositor::create_workspace_client(&hyprland, &all), Ok(Backend::Hyprland)));
    assert!(matches!(Compositor::create_workspace_client(&niri, &all), Ok(Backend::Niri)));
}

#[test]
fn unsupported_modules_name_those_that_are_supported() {
    let niri = variables(false, false, true);
    let none = variables(false, false, false);
    for environment in [niri, none] {
        match Compositor::create_bindmode_client(&environment, &everything()) {
            Err(Error::Unsupported(module, supported)) => {
                assert_eq!(module, "bindmode");
                assert_eq!(supported, ["sway", "hyprland"]);
            }
            other => panic!("{other:?}"),
        }
        match Compositor::create_keyboard_layout_client(&environment, &everything()) {
            Err(Error::Unsupported(module, supported)) => {
                assert_eq!(module, "keyboard");
                assert_eq!(supported, ["sway", "hyprland"]);
            }
            other => panic!("{other:?}"),
        }
    }
    match Compositor::create_workspace_client(&none, &everything()) {
        Err(Error::Unsupported(module, supported)) => {
            assert_eq!(module, "workspaces");
            assert_eq!(supported, ["sway", "hyprland", "niri"]);
        }
        other => panic!("{other:?}"),
    }
}

#[test]
fn disabled_modules_say_so() {
    let features = Features {
        bindmode_sway: false,
        keyboard_hyprland: false,
        workspaces_niri: false,
        ..everything()
    };
    assert!(matches!(
        Compositor::create_bindmode_client(&variables(true, false, false), &features),
        Err(Error::Disabled("bindmode"))
    ));
    assert!(matches!(
        Compositor::create_keyboard_layout_client(&variables(false, true, false), &features),
        Err(Error::Disabled("keyboard"))
    ));
    assert!(matches!(
        Compositor::create_workspace_client(&variables(false, false, true), &features),
        Err(Error::Disabled("workspaces"))
    ));
}

#[test]
fn failed_connections_keep_their_reason() {
    let reached: Result<u8, Error> = connected(Ok(7));
    assert!(matches!(reached, Ok(7)));
    let failed: Result<u8, Error> = connected(Err("no socket".to_string()));
    assert!(matches!(failed, Err(Error::Other(message)) if message == "no socket"));
    let refused: Result<u8, Error<IpcError>> =
        connected(Err(IpcError { message: "refused".to_string() }));
    assert!(matches!(refused, Err(Error::Other(reason)) if reason.message == "refused"));
}

fn layout(keyboard: &str, layout: &str) -> Result<String, Fault> {
    let event = LayoutEvent {
        keyboard_name: keyboard.to_string(),
        layout_name: layout.to_string(),
    };
    event.layout_update().map(|update| update.0)
}

#[test]
fn layouts_are_recovered_from_the_keyboard_name() {
    assert_eq!(layout("keychron-keychron-c2", "English (US)").unwrap(), "English (US)");
    assert_eq!(layout("keychron-keychron-c2,English (US)", "").unwrap(), "English (US)");
    assert_eq!(layout("kb,de,extra", "").unwrap(), "de");
    assert_eq!(layout("kb,", "").unwrap(), "");
}

#[test]
fn layouts_without_a_comma_are_lost() {
    assert!(matches!(layout("kb", ""), Err(Fault::NoLayout(name)) if name == "kb"));
}

fn keyboard(name: &str, keymap: &str, main: bool) -> HyprKeyboard {
    HyprKeyboard { name: name.to_string(), active_keymap: keymap.to_string(), main }
}

fn keyboards() -> Vec<HyprKeyboard> {
    vec![
        keyboard("power-button", "none", false),
        keyboard("at", "German", true),
        keyboard("usb", "French", true),
    ]
}

#[test]
fn the_primary_keyboard_counts() {
    assert_eq!(set_next_active(Ok(keyboards())).unwrap(), "at");
    assert_eq!(current_layout(Ok(keyboards())).unwrap().0, "German");
}

#[test]
fn without_a_primary_keyboard_there_is_no_layout() {
    let only = || Ok(vec![keyboard("power-button", "none", false)]);
    assert!(matches!(set_next_active(only()), Err(Fault::NoMainKeyboard)));
    assert!(matches!(current_layout(only()), Err(Fault::NoMainKeyboard)));
    let failed = || Err(IpcError { message: "no socket".to_string() });
    assert!(matches!(set_next_active(failed()), Err(Fault::Devices(_))));
    assert!(matches!(current_layout(failed()), Err(Fault::Devices(_))));
}

#[test]
fn binding_modes_are_plain_text() {
    let update = bind_mode_update("resize".to_string());
    assert_eq!(update.name, "resize");
    assert!(!update.pango_markup);
}

fn settings(show_window_icons: bool, dedupe_window_icons: bool) -> IconSettings {
    IconSettings { show_window_icons, window_icon_size: 16, dedupe_window_icons }
}

fn open(id: &str, app_id: &str, focused: bool) -> WorkspaceWindow {
    WorkspaceWindow { id: id.to_string(), app_id: app_id.to_string(), focused }
}

fn brief(icon: &WindowIcon) -> String {
    assert_eq!(icon.size, 16);
    match &icon.on_click {
        WorkspaceMessage::FocusWindow { workspace_id, address } => {
            format!("{} {} {workspace_id}/{address}", icon.app_id, icon.focused)
        }
        other => panic!("{other:?}"),
    }
}

fn apply(classes: &mut Vec<&'static str>, changes: &[ClassChange]) {
    for change in changes {
        match change {
            ClassChange::Add(class) => {
                if !classes.contains(&class.name()) {
                    classes.push(class.name());
                }
            }
            ClassChange::Remove(class) => classes.retain(|name| *name != class.name()),
        }
    }
    classes.sort();
}

#[test]
fn every_window_has_an_icon() {
    let (button, _) = Button::new(4, "DP-1", OpenState::Visible, settings(true, false));
    let windows = [open("0xa", "term", false), open("0xb", "web", false), open("0xc", "term", true)];
    let icons: Vec<String> = button.set_windows(&windows).unwrap().iter().map(brief).collect();
    assert_eq!(icons, ["term false 4/0xa", "web false 4/0xb", "term true 4/0xc"]);
}

#[test]
fn shared_icons_are_highlighted_for_any_window() {
    let (button, _) = Button::new(4, "DP-1", OpenState::Visible, settings(true, true));
    let windows = [open("0xa", "term", false), open("0xb", "web", false), open("0xc", "term", true)];
    let icons: Vec<String> = button.set_windows(&windows).unwrap().iter().map(brief).collect();
    assert_eq!(icons, ["term true 4/0xa", "web false 4/0xb"]);
    assert!(button.set_windows(&[]).unwrap().is_empty());
}

#[test]
fn without_icons_nothing_is_replaced() {
    let (button, _) = Button::new(4, "DP-1", OpenState::Visible, settings(false, true));
    assert!(button.set_windows(&[open("0xa", "term", true)]).is_none());
}

#[test]
fn icons_have_their_classes() {
    let (button, _) = Button::new(4, "DP-1", OpenState::Visible, settings(true, false));
    let icons = button.set_windows(&[open("0xa", "a", true), open("0xb", "b", false)]).unwrap();
    assert_eq!(icons[0].classes(), [CssClass::WindowIcon, CssClass::Focused]);
    assert_eq!(icons[1].classes(), [CssClass::WindowIcon]);
    assert_eq!(CssClass::WindowIcon.name(), "window-icon");
}

#[test]
fn new_buttons_show_their_state() {
    for (state, expected) in [
        (OpenState::Closed, vec!["inactive", "item"]),
        (OpenState::Hidden, vec!["item"]),
        (OpenState::Visible, vec!["item", "visible"]),
        (OpenState::Focused, vec!["focused", "item", "visible"]),
    ] {
        let (button, changes) = Button::new(1, "DP-1", state, settings(false, false));
        let mut classes = Vec::new();
        apply(&mut classes, &changes);
        assert_eq!(classes, expected);
        assert_eq!(button.open_state(), state);
    }
}

#[test]
fn setting_a_state_shows_it() {
    let (mut button, changes) = Button::new(1, "DP-1", OpenState::Closed, settings(false, false));
    let mut classes = Vec::new();
    apply(&mut classes, &changes);
    apply(&mut classes, &[button.set_urgent(true)]);
    apply(&mut classes, &button.set_open_state(OpenState::Focused));
    assert_eq!(classes, ["focused", "item", "urgent", "visible"]);
    assert!(button.set_open_state(OpenState::Focused).is_empty());
    apply(&mut classes, &[button.set_urgent(false)]);
    apply(&mut classes, &button.set_open_state(OpenState::Hidden));
    assert_eq!(classes, ["item"]);
    assert_eq!(button.open_state(), OpenState::Hidden);
}

#[test]
fn buttons_can_change_their_workspace() {
    let (mut button, _) = Button::new(1, "DP-1", OpenState::Hidden, settings(true, false));
    assert!(matches!(button.on_click(), WorkspaceMessage::FocusWorkspace(1)));
    button.set_workspace_id(5);
    button.set_monitor("HDMI-A-1");
    assert_eq!(button.workspace_id(), 5);
    assert_eq!(button.monitor(), "HDMI-A-1");
    assert!(matches!(button.on_click(), WorkspaceMessage::FocusWorkspace(5)));
    let icons = button.set_windows(&[open("0xa", "a", false)]).unwrap();
    assert_eq!(brief(&icons[0]), "a false 5/0xa");
}

#[test]
fn visible_states_are_two() {
    assert!(OpenState::Focused.is_visible());
    assert!(OpenState::Visible.is_visible());
    assert!(!OpenState::Hidden.is_visible());
    assert!(!OpenState::Closed.is_visible());
}

#[test]
fn a_click_on_an_icon_focuses_its_window() {
    let (button, _) = Button::new(4, "DP-1", OpenState::Visible, settings(true, true));
    let icons = button.set_windows(&[open("0xa", "term", false)]).unwrap();
    let client = Client::new(&Ok("hyprlang".to_string()));
    match icons[0].on_click.clone() {
        WorkspaceMessage::FocusWindow { workspace_id, address } => {
            let mut plan = client.focus_window(workspace_id, address);
            assert!(matches!(
                plan.next(&Ok(())),
                Some(DispatchCommand::Custom { name: "focusworkspaceoncurrentmonitor", arg })
                    if arg == "4"
            ));
            assert!(matches!(
                plan.next(&Ok(())),
                Some(DispatchCommand::FocusWindow { address }) if address == "0xa"
            ));
        }
        other => panic!("{other:?}"),
    }
    assert!(matches!(button.on_click().clone(), WorkspaceMessage::FocusWorkspace(4)));
}
