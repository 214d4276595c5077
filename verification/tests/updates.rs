use ironbar_compositor::events::{
    get_active_workspace, Reaction, UrgentWindow, WorkspaceEvent,
};
use ironbar_compositor::history::Occurrence;
use ironbar_compositor::ipc::{
    create_is_visible, get_workspace_name, is_shown, Fault, HyprClient, HyprMonitor, HyprWorkspace,
    IpcError, WorkspaceType,
};
use ironbar_compositor::lookup::{get_workspace, Change, Lookup, Progress};
use ironbar_compositor::snapshot::{window_snapshot, WindowSnapshot};
use ironbar_compositor::subscription::Subscription;
use ironbar_compositor::workspace::{Visibility, Workspace, WorkspaceUpdate, WorkspaceWindow};

fn listed(id: i32, name: &str) -> HyprWorkspace {
    HyprWorkspace { id, name: name.to_string(), monitor: "DP-1".to_string() }
}

fn three() -> Vec<HyprWorkspace> {
    vec![listed(1, "one"), listed(2, "two"), listed(3, "three")]
}

fn showing(id: i32) -> Vec<HyprMonitor> {
    vec![HyprMonitor { active_workspace: 9 }, HyprMonitor { active_workspace: id }]
}

fn window(address: &str, class: &str, workspace: i32) -> HyprClient {
    HyprClient { address: address.to_string(), class: class.to_string(), workspace }
}

fn error() -> IpcError {
    IpcError { message: "no socket".to_string() }
}

fn brief_workspace(w: &Workspace) -> String {
    assert_eq!(w.id, w.index);
    let visibility = match w.visibility {
        Visibility::Visible { focused: true } => "focused",
        Visibility::Visible { focused: false } => "visible",
        Visibility::Hidden => "hidden",
    };
    format!("{}:{}@{} {}", w.id, w.name, w.monitor, visibility)
}

fn brief(update: &WorkspaceUpdate) -> String {
    match update {
        WorkspaceUpdate::Init(all) => {
            let all: Vec<String> = all.iter().map(brief_workspace).collect();
            format!("init [{}]", all.join(", "))
        }
        WorkspaceUpdate::Add(w) => format!("add {}", brief_workspace(w)),
        WorkspaceUpdate::Remove(id) => format!("remove {id}"),
        WorkspaceUpdate::Move(w) => format!("move {}", brief_workspace(w)),
        WorkspaceUpdate::Focus { old, new } => format!(
            "focus {} -> {}",
            old.as_ref().map_or("none".to_string(), |w| w.name.clone()),
            brief_workspace(new)
        ),
        WorkspaceUpdate::Rename { id, name } => format!("rename {id} {name}"),
        WorkspaceUpdate::Urgent { id, urgent } => format!("urgent {id} {urgent}"),
        WorkspaceUpdate::Windows(all) => {
            let all: Vec<String> = all.iter().map(brief_windows).collect();
            format!("windows {}", all.join(" "))
        }
        WorkspaceUpdate::WindowFocusChanged { address } => format!("active {address:?}"),
        WorkspaceUpdate::Unknown => "unknown".to_string(),
    }
}

fn brief_windows(bucket: &(i64, Vec<WorkspaceWindow>)) -> String {
    let all: Vec<String> = bucket
        .1
        .iter()
        .map(|w| format!("{}{}{}", w.app_id, if w.focused { "*" } else { "=" }, w.id))
        .collect();
    format!("{}[{}]", bucket.0, all.join(","))
}

fn all_brief(updates: &[WorkspaceUpdate]) -> Vec<String> {
    updates.iter().map(brief).collect()
}

/// Plays a lookup through, with the replies that it asks for.
fn play(
    change: Change,
    name: &str,
    active: &mut Option<Workspace>,
    workspaces: Vec<HyprWorkspace>,
    monitors: Vec<HyprMonitor>,
) -> Vec<String> {
    let lookup = Lookup { change, name: name.to_string() };
    match lookup.on_workspaces(active, Ok(workspaces)) {
        Progress::Finished(updates) => all_brief(&updates),
        Progress::NeedsMonitors(located) => all_brief(&located.on_monitors(active, Ok(monitors))),
        Progress::Failed(fault) => panic!("{fault:?}"),
    }
}

fn active_one() -> Option<Workspace> {
    get_active_workspace(Ok(listed(1, "one")))
}

#[test]
fn visibilities_know_themselves() {
    assert!(Visibility::visible().is_visible());
    assert!(!Visibility::visible().is_focused());
    assert!(Visibility::focused().is_visible());
    assert!(Visibility::focused().is_focused());
    assert!(!Visibility::Hidden.is_visible());
    assert!(!Visibility::Hidden.is_focused());
}

#[test]
fn the_active_name_goes_before_the_monitors() {
    let two = listed(2, "two");
    let name = "two".to_string();
    let focused = Visibility::of(&two, Some(&name), |_: &HyprWorkspace| panic!("not asked"));
    assert!(focused.is_focused());
    assert_eq!(Visibility::of(&two, None, |_: &HyprWorkspace| true), Visibility::visible());
    assert_eq!(Visibility::of(&two, None, |_: &HyprWorkspace| false), Visibility::Hidden);
}

#[test]
fn monitors_show_their_active_workspace() {
    let is_visible = create_is_visible(Ok(showing(2)));
    assert!(is_visible(&listed(2, "two")));
    assert!(is_visible(&listed(9, "nine")));
    assert!(!is_visible(&listed(1, "one")));
    assert!(!create_is_visible(Ok(Vec::new()))(&listed(1, "one")));
    assert!(!create_is_visible(Err(error()))(&listed(1, "one")));
    assert!(is_shown(&showing(2), 2));
    assert!(!is_shown(&showing(2), 1));
}

#[test]
fn special_workspaces_may_lack_a_name() {
    assert_eq!(get_workspace_name(WorkspaceType::Regular("one".to_string())), "one");
    assert_eq!(get_workspace_name(WorkspaceType::Special(Some("term".to_string()))), "term");
    assert_eq!(get_workspace_name(WorkspaceType::Special(None)), "");
}

#[test]
fn the_first_workspace_of_a_name_is_found() {
    let workspaces = vec![listed(1, "one"), listed(2, "two"), listed(3, "two")];
    assert_eq!(get_workspace(workspaces, &"two".to_string()).unwrap().id, 2);
    assert!(get_workspace(three(), &"four".to_string()).is_none());
}

#[test]
fn an_activation_moves_the_focus_and_calms_the_workspace() {
    let mut active = active_one();
    let sent = play(Change::Activated, "two", &mut active, three(), showing(2));
    assert_eq!(sent, ["focus one -> 2:two@DP-1 visible", "urgent 2 false"]);
    assert_eq!(active.as_ref().unwrap().name, "two");
}

#[test]
fn a_repeated_activation_sends_nothing() {
    let mut active = active_one();
    play(Change::Activated, "two", &mut active, three(), showing(2));
    let sent = play(Change::Activated, "two", &mut active, three(), showing(2));
    assert!(sent.is_empty());
    assert_eq!(active.unwrap().name, "two");
}

#[test]
fn focus_messages_are_linked() {
    let mut active = None;
    let first = play(Change::Activated, "two", &mut active, three(), showing(2));
    let second = play(Change::Moved, "three", &mut active, three(), showing(2));
    let third = play(Change::Activated, "one", &mut active, three(), showing(1));
    assert_eq!(first[0], "focus none -> 2:two@DP-1 visible");
    assert_eq!(
        second,
        [
            "move 3:three@DP-1 hidden",
            "focus two -> 3:three@DP-1 hidden",
            "urgent 3 false"
        ]
    );
    assert_eq!(third[0], "focus three -> 1:one@DP-1 visible");
}

#[test]
fn a_move_of_the_active_workspace_moves_no_focus() {
    let mut active = active_one();
    let sent = play(Change::Moved, "one", &mut active, three(), showing(1));
    assert_eq!(sent, ["move 1:one@DP-1 focused"]);
}

#[test]
fn a_new_workspace_is_added_without_the_focus() {
    let mut active = active_one();
    let sent = play(Change::Added, "three", &mut active, three(), showing(1));
    assert_eq!(sent, ["add 3:three@DP-1 hidden"]);
    assert_eq!(active.unwrap().name, "one");
}

#[test]
fn a_new_workspace_that_is_gone_is_ignored() {
    let mut active = active_one();
    assert!(play(Change::Added, "four", &mut active, three(), showing(1)).is_empty());
}

#[test]
fn other_workspaces_have_to_be_listed() {
    for change in [Change::Activated, Change::Moved] {
        let mut active = active_one();
        let lookup = Lookup { change, name: "four".to_string() };
        let progress = lookup.on_workspaces(&mut active, Ok(three()));
        assert!(matches!(progress, Progress::Failed(Fault::WorkspaceNotFound)));
        assert_eq!(active.unwrap().name, "one");
    }
}

#[test]
fn a_lookup_fails_with_its_query() {
    let mut active = active_one();
    let lookup = Lookup { change: Change::Added, name: "one".to_string() };
    let progress = lookup.on_workspaces(&mut active, Err(error()));
    assert!(matches!(
        progress,
        Progress::Failed(Fault::Workspaces(e)) if e.message == "no socket"
    ));
}

#[test]
fn unknown_monitors_show_nothing() {
    let mut active = active_one();
    let lookup = Lookup { change: Change::Activated, name: "two".to_string() };
    match lookup.on_workspaces(&mut active, Ok(three())) {
        Progress::NeedsMonitors(located) => {
            let sent = all_brief(&located.on_monitors(&mut active, Err(error())));
            assert_eq!(sent, ["focus one -> 2:two@DP-1 hidden", "urgent 2 false"]);
        }
        other => panic!("{other:?}"),
    }
}

#[test]
fn listening_starts_with_the_active_workspace() {
    assert_eq!(brief_workspace(&active_one().unwrap()), "1:one@DP-1 focused");
    assert!(get_active_workspace(Err(error())).is_none());
}

fn regular(name: &str) -> WorkspaceType {
    WorkspaceType::Regular(name.to_string())
}

fn looked_up(event: WorkspaceEvent) -> (Change, String) {
    match event.react() {
        Reaction::Find(lookup) => (lookup.change, lookup.name),
        other => panic!("{other:?}"),
    }
}

fn sent(event: WorkspaceEvent) -> String {
    match event.react() {
        Reaction::Send(update) => brief(&update),
        other => panic!("{other:?}"),
    }
}

#[test]
fn workspace_events_are_looked_up() {
    assert_eq!(
        looked_up(WorkspaceEvent::WorkspaceAdded { name: regular("one") }),
        (Change::Added, "one".to_string())
    );
    assert_eq!(
        looked_up(WorkspaceEvent::WorkspaceChanged { name: WorkspaceType::Special(None) }),
        (Change::Activated, String::new())
    );
    assert_eq!(
        looked_up(WorkspaceEvent::ActiveMonitorChanged { workspace_name: Some(regular("two")) }),
        (Change::Activated, "two".to_string())
    );
    assert_eq!(
        looked_up(WorkspaceEvent::WorkspaceMoved { name: regular("two") }),
        (Change::Moved, "two".to_string())
    );
}

#[test]
fn a_monitor_without_a_workspace_is_rejected() {
    let event = WorkspaceEvent::ActiveMonitorChanged { workspace_name: None };
    assert!(matches!(event.react(), Reaction::Reject(Fault::NoWorkspaceName)));
}

#[test]
fn plain_events_are_passed_on() {
    assert_eq!(
        sent(WorkspaceEvent::WorkspaceRenamed { id: 3, name: "web".to_string() }),
        "rename 3 web"
    );
    assert_eq!(sent(WorkspaceEvent::WorkspaceDeleted { id: -4 }), "remove -4");
}

#[test]
fn a_change_of_the_active_window_costs_one_message() {
    assert_eq!(
        sent(WorkspaceEvent::ActiveWindowChanged { address: Some("0x1".to_string()) }),
        "active Some(\"0x1\")"
    );
    assert_eq!(sent(WorkspaceEvent::ActiveWindowChanged { address: None }), "active None");
}

#[test]
fn window_events_call_for_a_snapshot() {
    assert!(matches!(WorkspaceEvent::WindowOpened.react(), Reaction::Snapshot));
    assert!(matches!(WorkspaceEvent::WindowClosed.react(), Reaction::Snapshot));
    assert!(matches!(WorkspaceEvent::WindowMoved.react(), Reaction::Snapshot));
}

fn urgent(address: &str) -> UrgentWindow {
    let event = WorkspaceEvent::UrgentStateChanged { address: address.to_string() };
    match event.react() {
        Reaction::FindUrgent(urgent) => urgent,
        other => panic!("{other:?}"),
    }
}

fn windows() -> Vec<HyprClient> {
    vec![
        window("0xa", "term", 1),
        window("0xb", "web", 3),
        window("0xc", "term", 1),
        window("0xd", "mail", 7),
    ]
}

#[test]
fn an_urgent_window_makes_its_workspace_urgent() {
    let update = urgent("0xb").on_clients(Ok(windows())).unwrap();
    assert_eq!(brief(&update), "urgent 3 true");
}

#[test]
fn an_urgent_window_has_to_be_listed() {
    assert!(matches!(
        urgent("0xe").on_clients(Ok(windows())),
        Err(Fault::ClientNotFound)
    ));
    assert!(matches!(
        urgent("0xb").on_clients(Err(error())),
        Err(Fault::Clients(e)) if e.message == "no socket"
    ));
}

fn taken(active: Result<Option<HyprClient>, IpcError>, workspaces: Vec<HyprWorkspace>) -> String {
    let snapshot = WindowSnapshot::on_clients(Ok(windows())).unwrap();
    brief(&snapshot.on_active_client(active).on_workspaces(Ok(workspaces)).unwrap())
}

#[test]
fn a_snapshot_covers_every_workspace() {
    assert_eq!(
        taken(Ok(Some(window("0xc", "term", 1))), three()),
        "windows 1[term=0xa,term*0xc] 2[] 3[web=0xb]"
    );
}

#[test]
fn focus_alters_only_the_highlight() {
    let without = "windows 1[term=0xa,term=0xc] 2[] 3[web=0xb]";
    assert_eq!(taken(Ok(None), three()), without);
    assert_eq!(taken(Err(error()), three()), without);
    assert_eq!(
        taken(Ok(Some(window("0xb", "web", 3))), three()),
        without.replace("web=", "web*")
    );
}

#[test]
fn windows_are_handed_out_once() {
    let twice = vec![listed(1, "one"), listed(1, "again")];
    let all = window_snapshot(windows(), None, &twice);
    assert_eq!(all.len(), 2);
    assert_eq!(all[0].1.len(), 2);
    assert_eq!(all[1].0, 1);
    assert!(all[1].1.is_empty());
}

#[test]
fn a_snapshot_fails_with_its_queries() {
    assert!(matches!(
        WindowSnapshot::on_clients(Err(error())),
        Err(Fault::Clients(_))
    ));
    let placed = WindowSnapshot::on_clients(Ok(windows())).unwrap().on_active_client(Ok(None));
    assert!(matches!(placed.on_workspaces(Err(error())), Err(Fault::Workspaces(_))));
}

#[test]
fn a_subscriber_gets_the_workspaces_and_then_the_windows() {
    let seeding = Subscription::on_active_workspace(Ok(listed(3, "three")))
        .on_monitors(Ok(showing(2)));
    let reactions = seeding.on_workspaces(Ok(three()));
    assert_eq!(reactions.len(), 2);
    match &reactions[0] {
        Reaction::Send(update) => assert_eq!(
            brief(update),
            "init [1:one@DP-1 hidden, 2:two@DP-1 visible, 3:three@DP-1 focused]"
        ),
        other => panic!("{other:?}"),
    }
    assert!(matches!(reactions[1], Reaction::Snapshot));
}

#[test]
fn a_subscription_survives_failed_queries() {
    let seeding = Subscription::on_active_workspace(Err(error())).on_monitors(Err(error()));
    match &seeding.on_workspaces(Ok(three()))[0] {
        Reaction::Send(update) => assert_eq!(
            brief(update),
            "init [1:one@DP-1 hidden, 2:two@DP-1 hidden, 3:three@DP-1 hidden]"
        ),
        other => panic!("{other:?}"),
    }
    let seeding = Subscription::on_active_workspace(Err(error())).on_monitors(Err(error()));
    let reactions = seeding.on_workspaces(Err(error()));
    assert_eq!(reactions.len(), 1);
    assert!(matches!(reactions[0], Reaction::Reject(Fault::Workspaces(_))));
}

#[test]
fn copies_of_updates_say_the_same() {
    let workspace = active_one().unwrap();
    let window = WorkspaceWindow { id: "0xa".to_string(), app_id: "a".to_string(), focused: true };
    for update in [
        WorkspaceUpdate::Init(vec![workspace.clone(), workspace.clone()]),
        WorkspaceUpdate::Add(workspace.clone()),
        WorkspaceUpdate::Remove(3),
        WorkspaceUpdate::Move(workspace.clone()),
        WorkspaceUpdate::Focus { old: Some(workspace.clone()), new: workspace.clone() },
        WorkspaceUpdate::Focus { old: None, new: workspace },
        WorkspaceUpdate::Rename { id: 3, name: "web".to_string() },
        WorkspaceUpdate::Urgent { id: 3, urgent: true },
        WorkspaceUpdate::Windows(vec![(1, vec![window]), (2, Vec::new())]),
        WorkspaceUpdate::WindowFocusChanged { address: Some("0xa".to_string()) },
        WorkspaceUpdate::WindowFocusChanged { address: None },
        WorkspaceUpdate::Unknown,
    ] {
        assert_eq!(brief(&update.clone()), brief(&update));
    }
}

/// An event, with replies to all queries.
fn occurrence(event: WorkspaceEvent) -> Occurrence {
    Occurrence {
        event,
        workspaces: Ok(three()),
        monitors: Ok(showing(2)),
        clients: Ok(windows()),
        active_client: Ok(Some(window("0xb", "web", 3))),
    }
}

/// An event, with no reply to any query.
fn unanswered(event: WorkspaceEvent) -> Occurrence {
    Occurrence {
        event,
        workspaces: Err(error()),
        monitors: Err(error()),
        clients: Err(error()),
        active_client: Err(error()),
    }
}

fn every_event() -> Vec<WorkspaceEvent> {
    vec![
        WorkspaceEvent::WorkspaceAdded { name: regular("three") },
        WorkspaceEvent::WorkspaceChanged { name: regular("two") },
        WorkspaceEvent::ActiveMonitorChanged { workspace_name: Some(regular("two")) },
        WorkspaceEvent::ActiveMonitorChanged { workspace_name: None },
        WorkspaceEvent::WorkspaceMoved { name: regular("three") },
        WorkspaceEvent::WorkspaceRenamed { id: 3, name: "web".to_string() },
        WorkspaceEvent::WorkspaceDeleted { id: 3 },
        WorkspaceEvent::UrgentStateChanged { address: "0xb".to_string() },
        WorkspaceEvent::WindowOpened,
        WorkspaceEvent::WindowClosed,
        WorkspaceEvent::WindowMoved,
        WorkspaceEvent::ActiveWindowChanged { address: None },
    ]
}

#[test]
fn a_run_of_events_links_its_focus_messages() {
    let mut active = active_one();
    let mut all = Vec::new();
    for event in every_event() {
        all.extend(all_brief(&occurrence(event).play(&mut active)));
    }
    let taken = "windows 1[term=0xa,term=0xc] 2[] 3[web*0xb]";
    assert_eq!(
        all,
        [
            "add 3:three@DP-1 hidden",
            "focus one -> 2:two@DP-1 visible",
            "urgent 2 false",
            "move 3:three@DP-1 hidden",
            "focus two -> 3:three@DP-1 hidden",
            "urgent 3 false",
            "rename 3 web",
            "remove 3",
            "urgent 3 true",
            taken,
            taken,
            taken,
            "active None",
        ]
    );
    assert_eq!(active.unwrap().name, "three");
}

#[test]
fn without_replies_only_plain_events_are_told() {
    let mut active = active_one();
    let mut all = Vec::new();
    for event in every_event() {
        all.extend(all_brief(&unanswered(event).play(&mut active)));
    }
    assert_eq!(all, ["rename 3 web", "remove 3", "active None"]);
    assert_eq!(active.unwrap().name, "one");
}

#[test]
fn a_snapshot_needs_both_its_lists() {
    let mut active = active_one();
    let without = Occurrence { clients: Err(error()), ..occurrence(WorkspaceEvent::WindowOpened) };
    assert!(without.play(&mut active).is_empty());
    let without =
        Occurrence { workspaces: Err(error()), ..occurrence(WorkspaceEvent::WindowOpened) };
    assert!(without.play(&mut active).is_empty());
}
