//! Updates about workspaces, told by the fields of what the compositor lists.

use vstd::prelude::*;
#[allow(unused_imports)]
use crate::events::{UrgentWindow, WorkspaceEvent};
#[allow(unused_imports)]
use crate::history::Occurrence;
#[allow(unused_imports)]
use crate::ipc::{Fault, HyprClient, HyprMonitor, HyprWorkspace, IpcError, WorkspaceType};
#[allow(unused_imports)]
use crate::lookup::{Change, Located, Lookup};
#[allow(unused_imports)]
use crate::workspace::{UpdateView, Visibility, Workspace, WorkspaceUpdate, WorkspaceWindow};
#[allow(unused_imports)]
use crate::{events, history, ipc, lookup, search, snapshot, subscription, text, workspace};

verus! {

/// What is told of an update is all that it holds.
pub proof fn law_updates_are_told_whole(
    workspaces: Vec<Workspace>,
    one: Workspace,
    other: Option<Workspace>,
    id: i64,
    name: String,
    flag: bool,
    taken: Vec<(i64, Vec<WorkspaceWindow>)>,
    address: Option<String>,
)
    ensures
        WorkspaceUpdate::Init(workspaces)@ == UpdateView::Init(workspaces@),
        WorkspaceUpdate::Add(one)@ == UpdateView::Add(one),
        WorkspaceUpdate::Remove(id)@ == UpdateView::Remove(id),
        WorkspaceUpdate::Move(one)@ == UpdateView::Move(one),
        (WorkspaceUpdate::Focus { old: other, new: one })@ == (UpdateView::Focus {
            old: other,
            new: one,
        }),
        (WorkspaceUpdate::Rename { id, name })@ == (UpdateView::Rename { id, name }),
        (WorkspaceUpdate::Urgent { id, urgent: flag })@ == (UpdateView::Urgent {
            id,
            urgent: flag,
        }),
        (WorkspaceUpdate::WindowFocusChanged { address })@ == (UpdateView::WindowFocusChanged {
            address,
        }),
        WorkspaceUpdate::Unknown@ == UpdateView::Unknown,
        workspace::snapshot_view(taken@).len() == taken@.len(),
        forall|i: int|
            0 <= i < taken@.len() ==> (#[trigger] workspace::snapshot_view(taken@)[i]).0
                == taken@[i].0 && workspace::snapshot_view(taken@)[i].1 == taken@[i].1@,
        WorkspaceUpdate::Windows(taken)@ matches UpdateView::Windows(told) && told.len()
            == taken@.len() && forall|i: int|
            0 <= i < told.len() ==> (#[trigger] told[i]).0 == taken@[i].0 && told[i].1
                == taken@[i].1@,
{
}

/// What is told of a run of updates is what is told of each, in the order of sending.
pub proof fn law_runs_are_told_one_by_one(updates: Seq<WorkspaceUpdate>)
    ensures
        workspace::messages(updates).len() == updates.len(),
        forall|i: int|
            0 <= i < updates.len() ==> #[trigger] workspace::messages(updates)[i] == updates[i]@,
{
}

/// Only one of the three visibilities is focused.
pub proof fn law_one_visibility_is_focused()
    ensures
        (Visibility::Visible { focused: true }).has_focus(),
        !(Visibility::Visible { focused: false }).has_focus(),
        !Visibility::Hidden.has_focus(),
{
}

/// The workspaces and texts that are there are those that are known; nothing is known of those
/// that are not there.
pub proof fn law_what_is_missing_is_unknown(
    monitors: Vec<HyprMonitor>,
    error: IpcError,
    text: String,
    slice: &str,
    active: Workspace,
)
    ensures
        ipc::known_monitors(Ok(monitors)) == monitors@,
        ipc::known_monitors(Err(error)).len() == 0,
        text::chars(Some(text)) == Some(text@),
        text::chars(Some(&text)) == Some(text@),
        text::chars(Some(slice)) == Some(slice@),
        text::chars(None::<String>) is None,
        text::chars(None::<&String>) is None,
        text::chars(None::<&str>) is None,
        lookup::active_name(Some(active)) == Some(active.name@),
        lookup::active_name(None) is None,
{
}

/// An event names a workspace by the name under which it is listed; the special workspace may have
/// none.
pub proof fn law_workspaces_are_named_as_listed(name: String)
    ensures
        WorkspaceType::Regular(name).listed_name() == name@,
        WorkspaceType::Special(Some(name)).listed_name() == name@,
        WorkspaceType::Special(None).listed_name().len() == 0,
{
}

/// The workspace keeps the identifier, name and monitor under which it is listed, and takes the
/// visibility given.
pub proof fn law_workspaces_keep_their_fields(listed: HyprWorkspace, visibility: Visibility)
    ensures
        ({
            let told = listed.described(visibility);
            &&& told.id == listed.id
            &&& told.index == listed.id
            &&& told.name == listed.name
            &&& told.monitor == listed.monitor
            &&& told.visibility == visibility
        }),
        ({
            let told = <Workspace as vstd::std_specs::convert::FromSpec<
                (Visibility, HyprWorkspace),
            >>::from_spec((visibility, listed));
            &&& <Workspace as vstd::std_specs::convert::FromSpec<
                (Visibility, HyprWorkspace),
            >>::obeys_from_spec()
            &&& told.id == listed.id
            &&& told.index == listed.id
            &&& told.name == listed.name
            &&& told.monitor == listed.monitor
            &&& told.visibility == visibility
        }),
{
}

/// Some monitor has the workspace as its active one.
pub open spec fn on_some_monitor(monitors: Seq<HyprMonitor>, id: i32) -> bool {
    exists|m: int| 0 <= m < monitors.len() && (#[trigger] monitors[m]).active_workspace == id
}

/// The visibility is focused for the workspace of the active name, visible for any other that some
/// monitor has as its active one, and else hidden.
pub open spec fn is_visibility(
    visibility: Visibility,
    name: Seq<char>,
    id: i32,
    active_name: Option<Seq<char>>,
    monitors: Seq<HyprMonitor>,
) -> bool {
    &&& visibility == (Visibility::Visible { focused: true }) <==> active_name == Some(name)
    &&& visibility is Hidden <==> active_name != Some(name) && !on_some_monitor(monitors, id)
}

/// A workspace is focused exactly if it goes by the active name, and hidden exactly if it neither
/// does nor any monitor, at whatever place in the list, has it as its active one.
pub proof fn law_visibility_is_what_monitors_show(
    listed: HyprWorkspace,
    active_name: Option<Seq<char>>,
    monitors: Seq<HyprMonitor>,
)
    ensures
        is_visibility(
            ipc::visibility_of(listed, active_name, monitors),
            listed.name@,
            listed.id,
            active_name,
            monitors,
        ),
        ipc::is_active(listed, active_name) <==> active_name == Some(listed.name@),
        ipc::shown(monitors, listed.id) <==> on_some_monitor(monitors, listed.id),
{
}

/// In the initial list every listed workspace stands at its place with its identifier, name and
/// monitor. It is visible exactly if it goes by the active name or any of the monitors, at whatever
/// place in the list, has its identifier as that of the active workspace; else it is hidden. It is
/// focused exactly if it goes by the active name.
pub proof fn law_initial_list_is_what_monitors_show(
    workspaces: Seq<HyprWorkspace>,
    active_name: Option<Seq<char>>,
    monitors: Seq<HyprMonitor>,
    i: int,
)
    requires
        0 <= i < workspaces.len(),
    ensures
        ({
            let list = subscription::described(workspaces, active_name, monitors);
            &&& list.len() == workspaces.len()
            &&& list[i].id == workspaces[i].id
            &&& list[i].index == workspaces[i].id
            &&& list[i].name == workspaces[i].name
            &&& list[i].monitor == workspaces[i].monitor
            &&& list[i].visibility is Visible <==> (active_name == Some(workspaces[i].name@)
                || exists|m: int|
                0 <= m < monitors.len() && (#[trigger] monitors[m]).active_workspace
                    == workspaces[i].id)
            &&& list[i].visibility == (Visibility::Visible { focused: true }) <==> active_name
                == Some(workspaces[i].name@)
        }),
{
}

/// One more monitor in the reply, at whatever place, makes visible the workspace that it shows, and
/// changes nothing else in the initial list.
pub proof fn law_a_monitor_adds_the_workspace_it_shows(
    workspaces: Seq<HyprWorkspace>,
    active_name: Option<Seq<char>>,
    monitors: Seq<HyprMonitor>,
    at: int,
    more: HyprMonitor,
    i: int,
)
    requires
        0 <= at <= monitors.len(),
        0 <= i < workspaces.len(),
    ensures
        ({
            let fewer = subscription::described(workspaces, active_name, monitors)[i];
            let list = subscription::described(
                workspaces,
                active_name,
                monitors.insert(at, more),
            )[i];
            if workspaces[i].id == more.active_workspace {
                list.visibility is Visible
            } else {
                list == fewer
            }
        }),
{
    let all = monitors.insert(at, more);
    assert(all[at] == more);
    assert forall|m: int| 0 <= m < monitors.len() implies #[trigger] monitors[m] == all[if m < at {
        m
    } else {
        m + 1
    }] by {}
    let id = workspaces[i].id;
    if id != more.active_workspace {
        assert(ipc::shown(all, id) == ipc::shown(monitors, id)) by {
            if ipc::shown(all, id) {
                let m = choose|m: int|
                    0 <= m < all.len() && (#[trigger] all[m]).active_workspace == id;
                assert(all[m] == monitors[if m < at { m } else { m - 1 }]);
            }
            if ipc::shown(monitors, id) {
                let m = choose|m: int|
                    0 <= m < monitors.len() && (#[trigger] monitors[m]).active_workspace == id;
                assert(all[if m < at { m } else { m + 1 }].active_workspace == id);
            }
        }
    }
}

/// A workspace is found by its whole name: the one found goes by it, and no earlier one does. None
/// is found only where none goes by it.
pub proof fn law_workspaces_are_found_by_name(workspaces: Seq<HyprWorkspace>, name: Seq<char>)
    ensures
        match lookup::workspace_named(workspaces, name) {
            Some(found) => exists|k: int| #[trigger] is_listed_first(workspaces, name, k)
                && workspaces[k] == found,
            None => forall|k: int|
                0 <= k < workspaces.len() ==> (#[trigger] workspaces[k]).name@ != name,
        },
{
    let named = lookup::goes_by(name);
    search::lemma_first(workspaces, named);
    match lookup::workspace_named(workspaces, name) {
        Some(found) => {
            let k = choose|k: int| #[trigger]
                search::is_first(workspaces, named, k) && workspaces[k] == found;
            assert forall|j: int| 0 <= j < k implies (#[trigger] workspaces[j]).name@ != name by {
                assert(!named(workspaces[j]));
            }
            assert(is_listed_first(workspaces, name, k));
        },
        None => {
            assert forall|k: int| 0 <= k < workspaces.len() implies (
            #[trigger] workspaces[k]).name@ != name by {
                assert(!named(workspaces[k]));
            }
        },
    }
}

/// The workspace at `k` goes by the name, and no earlier one does.
pub open spec fn is_listed_first(workspaces: Seq<HyprWorkspace>, name: Seq<char>, k: int) -> bool {
    &&& 0 <= k < workspaces.len()
    &&& workspaces[k].name@ == name
    &&& forall|j: int| 0 <= j < k ==> (#[trigger] workspaces[j]).name@ != name
}

/// A workspace that was located is told of with the fields under which it is listed, and with the
/// visibility that the active workspace and the monitors give it.
pub proof fn law_located_workspaces_keep_their_fields(
    located: Located,
    active: Option<Workspace>,
    monitors: Seq<HyprMonitor>,
)
    ensures
        ({
            let told = located.resolved(active, monitors);
            let name = match active {
                Some(workspace) => Some(workspace.name@),
                None => None,
            };
            &&& told.id == located.workspace.id
            &&& told.index == located.workspace.id
            &&& told.name == located.workspace.name
            &&& told.monitor == located.workspace.monitor
            &&& is_visibility(
                told.visibility,
                located.workspace.name@,
                located.workspace.id,
                name,
                monitors,
            )
        }),
{
}

/// Only a new workspace may be missing from the list.
pub proof fn law_only_new_workspaces_may_be_missing(lookup: Lookup)
    ensures
        lookup.must_exist() <==> lookup.change != Change::Added,
{
}

/// A change is told of the workspace that changed: an addition and a move by one message that
/// carries it, and, unless it has the focus already, an activation and a move by a message that the
/// focus went from the active workspace to it, directly followed by the message that it is not
/// urgent. Nothing else is told, and the active workspace becomes the one that got the focus.
pub proof fn law_changes_are_told_of_the_workspace(
    change: Change,
    workspace: Workspace,
    active: Option<Workspace>,
)
    ensures
        ({
            let sent = lookup::change_messages(change, workspace, active);
            let focused = workspace.visibility == (Visibility::Visible { focused: true });
            &&& sent.len() == (match change {
                Change::Added => 1,
                Change::Activated => if focused {
                    0
                } else {
                    2int
                },
                Change::Moved => if focused {
                    1
                } else {
                    3int
                },
            })
            &&& change is Added ==> sent[0] is Add
            &&& change is Moved ==> sent[0] is Move
            &&& forall|i: int|
                0 <= i < sent.len() ==> match #[trigger] sent[i] {
                    UpdateView::Add(told) => change is Added && told == workspace,
                    UpdateView::Move(told) => change is Moved && told == workspace,
                    UpdateView::Focus { old, new } => {
                        &&& !focused
                        &&& old == active
                        &&& new == workspace
                        &&& i + 2 == sent.len()
                    },
                    UpdateView::Urgent { id, urgent } => {
                        &&& id == workspace.id
                        &&& !urgent
                        &&& i + 1 == sent.len()
                    },
                    _ => false,
                }
            &&& lookup::active_after(change, workspace, active) == (if change is Added || focused {
                active
            } else {
                Some(workspace)
            })
        }),
        ({
            let told = lookup::focus_messages(active, workspace);
            &&& told.len() == 2
            &&& told[0] == (UpdateView::Focus { old: active, new: workspace })
            &&& told[1] == (UpdateView::Urgent { id: workspace.id, urgent: false })
        }),
{
}

/// The event names the workspace.
pub open spec fn names(event: WorkspaceEvent, name: WorkspaceType) -> bool {
    ||| event == (WorkspaceEvent::WorkspaceAdded { name })
    ||| event == (WorkspaceEvent::WorkspaceChanged { name })
    ||| event == (WorkspaceEvent::ActiveMonitorChanged { workspace_name: Some(name) })
    ||| event == (WorkspaceEvent::WorkspaceMoved { name })
}

/// The text under which the workspace that an event names is listed.
pub open spec fn name_text(name: WorkspaceType) -> Seq<char> {
    match name {
        WorkspaceType::Regular(text) => text@,
        WorkspaceType::Special(Some(text)) => text@,
        WorkspaceType::Special(None) => seq![],
    }
}

/// An event tells of a workspace exactly if it names one, by the name under which it is listed; and
/// which windows there are changes with windows that open, close and move.
pub proof fn law_events_tell_of_what_they_name(event: WorkspaceEvent, name: WorkspaceType)
    ensures
        names(event, name) ==> (event.tells_of() matches Some((change, text)) && text == name_text(
            name,
        ) && change == (match event {
            WorkspaceEvent::WorkspaceAdded { .. } => Change::Added,
            WorkspaceEvent::WorkspaceMoved { .. } => Change::Moved,
            _ => Change::Activated,
        })),
        event.tells_of() is None <==> (event is WorkspaceRenamed || event is WorkspaceDeleted
            || event is UrgentStateChanged || event is WindowOpened || event is WindowClosed
            || event is WindowMoved || event is ActiveWindowChanged || event == (
        WorkspaceEvent::ActiveMonitorChanged { workspace_name: None })),
        event.moves_windows() <==> (event is WindowOpened || event is WindowClosed
            || event is WindowMoved),
{
}

/// The workspace is the one at place `k` of the list, the first of the name: it has its identifier,
/// name and monitor, and the visibility that the active workspace and the monitors give it.
pub open spec fn is_told(
    told: Workspace,
    listed: Seq<HyprWorkspace>,
    name: Seq<char>,
    k: int,
    active: Option<Workspace>,
    monitors: Seq<HyprMonitor>,
) -> bool {
    &&& is_listed_first(listed, name, k)
    &&& told.id == listed[k].id
    &&& told.index == listed[k].id
    &&& told.name == listed[k].name
    &&& told.monitor == listed[k].monitor
    &&& is_visibility(
        told.visibility,
        name,
        listed[k].id,
        match active {
            Some(workspace) => Some(workspace.name@),
            None => None,
        },
        monitors,
    )
}

/// Whatever the active workspace, the workspace that an addition, a move or a focus message carries
/// is the one that the compositor lists by the name in the event: with its identifier, name and
/// monitor, and the visibility that the active name and the monitors give it.
pub proof fn law_messages_carry_the_listed_workspace(
    event: Occurrence,
    name: WorkspaceType,
    listed: Vec<HyprWorkspace>,
    active: Option<Workspace>,
    i: int,
)
    requires
        names(event.event, name),
        event.workspaces == Ok::<Vec<HyprWorkspace>, IpcError>(listed),
        0 <= i < event.outcome(active).sent.len(),
    ensures
        exists|k: int|
            {
                let monitors = match event.monitors {
                    Ok(monitors) => monitors@,
                    Err(_) => seq![],
                };
                &&& #[trigger] is_listed_first(listed@, name_text(name), k)
                &&& match event.outcome(active).sent[i] {
                    UpdateView::Add(told) => {
                        &&& event.event is WorkspaceAdded
                        &&& is_told(told, listed@, name_text(name), k, active, monitors)
                    },
                    UpdateView::Move(told) => {
                        &&& event.event is WorkspaceMoved
                        &&& is_told(told, listed@, name_text(name), k, active, monitors)
                    },
                    UpdateView::Focus { old, new } => {
                        &&& !(event.event is WorkspaceAdded)
                        &&& old == active
                        &&& event.outcome(active).active == Some(new)
                        &&& is_told(new, listed@, name_text(name), k, active, monitors)
                    },
                    UpdateView::Urgent { id, urgent } => {
                        &&& id == listed@[k].id
                        &&& !urgent
                        &&& i > 0 && event.outcome(active).sent[i - 1] is Focus
                    },
                    _ => false,
                }
            },
{
    let text = name_text(name);
    law_events_tell_of_what_they_name(event.event, name);
    let (change, told_name) = event.event.tells_of()->0;
    assert(told_name =~= text);
    law_workspaces_are_found_by_name(listed@, text);
    assert(event.found() is Some);
    let k = choose|k: int| #[trigger]
        is_listed_first(listed@, text, k) && listed@[k] == event.found()->0;
    let monitors = match event.monitors {
        Ok(monitors) => monitors@,
        Err(_) => seq![],
    };
    assert(ipc::known_monitors(event.monitors) =~= monitors);
    let told = event.told_of(active)->0;
    law_visibility_is_what_monitors_show(listed@[k], lookup::active_name(active), monitors);
    assert(is_told(told, listed@, text, k, active, monitors));
    law_changes_are_told_of_the_workspace(change, told, active);
}

/// How many messages an event that names a workspace sends, and of which kind. An unlisted
/// workspace, or a list that could not be read, sends none. A new workspace sends one, an
/// activation two where the workspace is not the active one, and a move one more than an
/// activation. The active workspace stays where no focus message is sent.
pub proof fn law_named_events_send_their_kind(
    event: Occurrence,
    name: WorkspaceType,
    active: Option<Workspace>,
)
    requires
        names(event.event, name),
    ensures
        ({
            let sent = event.outcome(active).sent;
            let listed = event.workspaces matches Ok(workspaces) && exists|k: int|
                0 <= k < workspaces@.len() && (#[trigger] workspaces@[k]).name@ == name_text(name);
            let focused = active matches Some(workspace) && workspace.name@ == name_text(name);
            &&& !listed ==> sent.len() == 0 && event.outcome(active).active == active
            &&& listed && event.event is WorkspaceAdded ==> sent.len() == 1 && sent[0] is Add
                && event.outcome(active).active == active
            &&& listed && event.event is WorkspaceMoved ==> sent[0] is Move && if focused {
                &&& sent.len() == 1
                &&& event.outcome(active).active == active
            } else {
                &&& sent.len() == 3
                &&& sent[1] is Focus
                &&& sent[2] is Urgent
                &&& event.outcome(active).active == Some(sent[1]->new)
            }
            &&& listed && (event.event is WorkspaceChanged || event.event is ActiveMonitorChanged)
                ==> if focused {
                &&& sent.len() == 0
                &&& event.outcome(active).active == active
            } else {
                &&& sent.len() == 2
                &&& sent[0] is Focus
                &&& sent[1] is Urgent
                &&& event.outcome(active).active == Some(sent[0]->new)
            }
        }),
{
    let text = name_text(name);
    law_events_tell_of_what_they_name(event.event, name);
    let (change, told_name) = event.event.tells_of()->0;
    assert(told_name =~= text);
    if let Ok(workspaces) = event.workspaces {
        law_workspaces_are_found_by_name(workspaces@, text);
        if event.found() is Some {
            let k = choose|k: int| #[trigger]
                is_listed_first(workspaces@, text, k) && workspaces@[k] == event.found()->0;
            assert(workspaces@[k].name@ == text);
            let told = event.told_of(active)->0;
            law_changes_are_told_of_the_workspace(change, told, active);
        }
    }
}

/// Where a listed window has the address, the first one that has it, and no other, makes its
/// workspace urgent; where none has it, none is found, and where the windows could not be read,
/// that is the fault. The addresses are equal as a whole.
pub proof fn law_urgency_goes_to_the_workspace_of_the_window(
    urgent: UrgentWindow,
    clients: Vec<HyprClient>,
    error: IpcError,
)
    ensures
        match urgent.urgency(Ok(clients)) {
            Ok(update) => exists|i: int|
                {
                    &&& 0 <= i < clients@.len()
                    &&& (#[trigger] clients@[i]).address@ == urgent.address@
                    &&& forall|j: int|
                        0 <= j < i ==> (#[trigger] clients@[j]).address@ != urgent.address@
                    &&& update == (WorkspaceUpdate::Urgent {
                        id: clients@[i].workspace as i64,
                        urgent: true,
                    })
                },
            Err(fault) => fault == Fault::ClientNotFound && forall|i: int|
                0 <= i < clients@.len() ==> (#[trigger] clients@[i]).address@ != urgent.address@,
        },
        urgent.urgency(Err(error)) == Err::<WorkspaceUpdate, Fault>(Fault::Clients(error)),
{
    let here = events::at(urgent.address@);
    search::lemma_first(clients@, here);
    match search::first(clients@, here) {
        Some(client) => {
            let i = choose|i: int| #[trigger]
                search::is_first(clients@, here, i) && clients@[i] == client;
            assert(clients@[i].address@ == urgent.address@);
            assert forall|j: int| 0 <= j < i implies (#[trigger] clients@[j]).address@
                != urgent.address@ by {
                assert(!here(clients@[j]));
            }
        },
        None => {
            assert forall|i: int| 0 <= i < clients@.len() implies (
            #[trigger] clients@[i]).address@ != urgent.address@ by {
                assert(!here(clients@[i]));
            }
        },
    }
}

/// Windows at other addresses, wherever they are listed, change nothing about which workspace
/// becomes urgent.
pub proof fn law_other_windows_do_not_matter_to_urgency(
    urgent: UrgentWindow,
    alone: Vec<HyprClient>,
    listed: Vec<HyprClient>,
    i: int,
)
    requires
        alone@.len() == 1,
        alone@[0].address@ == urgent.address@,
        0 <= i < listed@.len(),
        listed@[i] == alone@[0],
        forall|j: int|
            0 <= j < listed@.len() && j != i ==> (#[trigger] listed@[j]).address@
                != urgent.address@,
    ensures
        urgent.urgency(Ok(listed)) == urgent.urgency(Ok(alone)),
{
    assert(search::is_first(listed@, events::at(urgent.address@), i)) by {
        assert forall|j: int| 0 <= j < i implies !#[trigger] events::at(urgent.address@)(
            listed@[j],
        ) by {}
    }
    search::lemma_first_found(listed@, events::at(urgent.address@), i);
    assert(search::is_first(alone@, events::at(urgent.address@), 0));
    search::lemma_first_found(alone@, events::at(urgent.address@), 0);
}

/// The events that name no workspace: a renaming and a deletion are told with the identifier, and
/// the name, that they carry; a change of the active window with its address; an urgent window by
/// its workspace; and a change of the windows by a snapshot of the listed windows and workspaces,
/// where both could be read. The active workspace stays.
pub proof fn law_plain_events_are_told_as_they_are(
    event: Occurrence,
    active: Option<Workspace>,
    id: i32,
    name: String,
    address: Option<String>,
    urgent: UrgentWindow,
)
    ensures
        ({
            let o = event.outcome(active);
            &&& event.event == (WorkspaceEvent::WorkspaceRenamed { id, name }) ==> o.sent == seq![
                UpdateView::Rename { id: id as i64, name },
            ]
            &&& event.event == (WorkspaceEvent::WorkspaceDeleted { id }) ==> o.sent == seq![
                UpdateView::Remove(id as i64),
            ]
            &&& event.event == (WorkspaceEvent::ActiveWindowChanged { address }) ==> o.sent == seq![
                UpdateView::WindowFocusChanged { address },
            ]
            &&& event.event == (WorkspaceEvent::UrgentStateChanged { address: urgent.address })
                ==> o.sent == (match urgent.urgency(event.clients) {
                Ok(update) => seq![update@],
                Err(_) => seq![],
            })
            &&& event.event == (WorkspaceEvent::ActiveMonitorChanged { workspace_name: None })
                ==> o.sent.len() == 0
            &&& event.event is WindowOpened || event.event is WindowClosed
                || event.event is WindowMoved ==> match (event.clients, event.workspaces) {
                (Ok(clients), Ok(workspaces)) => o.sent == seq![
                    UpdateView::Windows(
                        snapshot::snapshot(
                            clients@,
                            match event.active_client {
                                Ok(Some(client)) => Some(client.address@),
                                _ => None,
                            },
                            workspaces@,
                        ),
                    ),
                ],
                _ => o.sent.len() == 0,
            }
            &&& !(event.event is WorkspaceAdded) && !(event.event is WorkspaceChanged) && !(
            event.event is WorkspaceMoved) && !(event.event is ActiveMonitorChanged) ==> o.active
                == active
        }),
{
}

/// A run of events comes to what its events come to, one after the other, each from the active
/// workspace that the ones before it left.
pub proof fn law_runs_come_event_by_event(
    events: Seq<Occurrence>,
    next: Occurrence,
    start: Option<Workspace>,
)
    ensures
        history::history(seq![], start).sent.len() == 0,
        history::history(seq![], start).active == start,
        ({
            let before = history::history(events, start);
            let after = history::history(events.push(next), start);
            let last = next.outcome(before.active);
            &&& after.sent == before.sent + last.sent
            &&& after.active == last.active
        }),
{
    assert(events.push(next).drop_last() =~= events);
}

/// The workspace last focused is that of the last focus message, and the one at the start where
/// there is none.
pub proof fn law_the_last_focus_message_counts(sent: Seq<UpdateView>, start: Option<Workspace>)
    ensures
        (forall|i: int| 0 <= i < sent.len() ==> !(#[trigger] sent[i] is Focus))
            ==> history::last_focused(sent, start) == start,
        forall|i: int|
            0 <= i < sent.len() && #[trigger] sent[i] is Focus && (forall|j: int|
                i < j < sent.len() ==> !(#[trigger] sent[j] is Focus)) ==> history::last_focused(
                sent,
                start,
            ) == Some(sent[i]->new),
    decreases sent.len(),
{
    if sent.len() > 0 && !(sent.last() is Focus) {
        let init = sent.drop_last();
        law_the_last_focus_message_counts(init, start);
        if forall|i: int| 0 <= i < sent.len() ==> !(#[trigger] sent[i] is Focus) {
            assert forall|i: int| 0 <= i < init.len() implies !(#[trigger] init[i] is Focus) by {
                assert(init[i] == sent[i]);
            }
        }
        assert forall|i: int|
            0 <= i < sent.len() && #[trigger] sent[i] is Focus && (forall|j: int|
                i < j < sent.len() ==> !(#[trigger] sent[j] is Focus)) implies history::last_focused(
            sent,
            start,
        ) == Some(sent[i]->new) by {
            assert(init[i] is Focus);
            assert forall|j: int| i < j < init.len() implies !(#[trigger] init[j] is Focus) by {
                assert(init[j] == sent[j]);
            }
        }
    } else if sent.len() > 0 {
        assert(sent[sent.len() - 1] is Focus);
    }
}

} // verus!
