//! What each compositor event about workspaces and windows calls for.

use vstd::prelude::*;
use crate::ipc::{get_workspace_name, Fault, HyprClient, HyprWorkspace, IpcError, WorkspaceType};
#[allow(unused_imports)]
use crate::search;
use crate::lookup::{Change, Lookup};
use crate::text::same_text;
use crate::workspace::{Visibility, Workspace, WorkspaceUpdate};

verus! {

/// An event of the compositor.
#[derive(Debug)]
pub enum WorkspaceEvent {
    WorkspaceAdded { name: WorkspaceType },
    WorkspaceChanged { name: WorkspaceType },
    ActiveMonitorChanged { workspace_name: Option<WorkspaceType> },
    WorkspaceMoved { name: WorkspaceType },
    WorkspaceRenamed { id: i32, name: String },
    WorkspaceDeleted { id: i32 },
    /// The window at this address wants attention.
    UrgentStateChanged { address: String },
    WindowOpened,
    WindowClosed,
    WindowMoved,
    /// The window at this address got the focus, or no window has it.
    ActiveWindowChanged { address: Option<String> },
}

/// What an event calls for.
#[derive(Debug)]
pub enum Reaction {
    /// Send this update.
    Send(WorkspaceUpdate),
    /// Look up a workspace; ask the compositor for its workspaces.
    Find(Lookup),
    /// Look up the workspace of a window; ask the compositor for its windows.
    FindUrgent(UrgentWindow),
    /// Take a snapshot of the windows; ask the compositor for its windows.
    Snapshot,
    /// Nothing can be done, for this reason.
    Reject(Fault),
}

impl WorkspaceEvent {
    /// The event tells of a change to a workspace that the compositor lists by the name.
    pub open spec fn tells_of(self) -> Option<(Change, Seq<char>)> {
        match self {
            WorkspaceEvent::WorkspaceAdded { name } => Some((Change::Added, name.listed_name())),
            WorkspaceEvent::WorkspaceChanged { name } => Some(
                (Change::Activated, name.listed_name()),
            ),
            WorkspaceEvent::ActiveMonitorChanged { workspace_name: Some(name) } => Some(
                (Change::Activated, name.listed_name()),
            ),
            WorkspaceEvent::WorkspaceMoved { name } => Some((Change::Moved, name.listed_name())),
            _ => None,
        }
    }

    /// The event changes which windows there are, or where they are.
    pub open spec fn moves_windows(self) -> bool {
        self is WindowOpened || self is WindowClosed || self is WindowMoved
    }

    /// What the event calls for.
    ///
    /// A change of the active window costs no query and no snapshot: it never alters which
    /// windows sit on which workspace, only which is highlighted.
    pub fn react(self) -> (reaction: Reaction)
        ensures
            self.tells_of() matches Some((change, name)) ==> (reaction matches Reaction::Find(
                lookup,
            ) && lookup.change == change && lookup.name@ == name),
            self == (WorkspaceEvent::ActiveMonitorChanged { workspace_name: None }) ==> reaction
                == Reaction::Reject(Fault::NoWorkspaceName),
            self matches WorkspaceEvent::WorkspaceRenamed { id, name } ==> reaction
                == Reaction::Send(WorkspaceUpdate::Rename { id: id as i64, name }),
            self matches WorkspaceEvent::WorkspaceDeleted { id } ==> reaction == Reaction::Send(
                WorkspaceUpdate::Remove(id as i64),
            ),
            self matches WorkspaceEvent::UrgentStateChanged { address } ==> reaction
                == Reaction::FindUrgent(UrgentWindow { address }),
            self.moves_windows() ==> reaction == Reaction::Snapshot,
            self matches WorkspaceEvent::ActiveWindowChanged { address } ==> reaction
                == Reaction::Send(WorkspaceUpdate::WindowFocusChanged { address }),
    {
        match self {
            WorkspaceEvent::WorkspaceAdded { name } => find(Change::Added, name),
            WorkspaceEvent::WorkspaceChanged { name } => find(Change::Activated, name),
            WorkspaceEvent::ActiveMonitorChanged { workspace_name } => match workspace_name {
                Some(name) => find(Change::Activated, name),
                None => Reaction::Reject(Fault::NoWorkspaceName),
            },
            WorkspaceEvent::WorkspaceMoved { name } => find(Change::Moved, name),
            WorkspaceEvent::WorkspaceRenamed { id, name } => Reaction::Send(
                WorkspaceUpdate::Rename { id: id as i64, name },
            ),
            WorkspaceEvent::WorkspaceDeleted { id } => Reaction::Send(
                WorkspaceUpdate::Remove(id as i64),
            ),
            WorkspaceEvent::UrgentStateChanged { address } => Reaction::FindUrgent(
                UrgentWindow { address },
            ),
            WorkspaceEvent::WindowOpened => Reaction::Snapshot,
            WorkspaceEvent::WindowClosed => Reaction::Snapshot,
            WorkspaceEvent::WindowMoved => Reaction::Snapshot,
            WorkspaceEvent::ActiveWindowChanged { address } => Reaction::Send(
                WorkspaceUpdate::WindowFocusChanged { address },
            ),
        }
    }
}

/// Calls for the lookup of a workspace.
fn find(change: Change, name: WorkspaceType) -> (reaction: Reaction)
    ensures
        reaction matches Reaction::Find(lookup) && lookup.change == change && lookup.name@
            == name.listed_name(),
{
    Reaction::Find(Lookup { change, name: get_workspace_name(name) })
}

/// A window that wants attention, to be looked up among the compositor's windows.
#[derive(Debug)]
pub struct UrgentWindow {
    pub address: String,
}

/// The condition of being the window at `address`.
pub open spec fn at(address: Seq<char>) -> spec_fn(HyprClient) -> bool {
    |c: HyprClient| c.address@ == address
}

impl UrgentWindow {
    /// What comes of the compositor's windows: the workspace of the first one at the address is
    /// urgent.
    pub open spec fn urgency(self, reply: Result<Vec<HyprClient>, IpcError>) -> Result<
        WorkspaceUpdate,
        Fault,
    > {
        match reply {
            Err(error) => Err(Fault::Clients(error)),
            Ok(clients) => match search::first(clients@, at(self.address@)) {
                Some(client) => Ok(
                    WorkspaceUpdate::Urgent { id: client.workspace as i64, urgent: true },
                ),
                None => Err(Fault::ClientNotFound),
            },
        }
    }

    /// Goes on with the compositor's windows: the workspace of the window is urgent.
    pub fn on_clients(self, reply: Result<Vec<HyprClient>, IpcError>) -> (update: Result<
        WorkspaceUpdate,
        Fault,
    >)
        ensures
            update == self.urgency(reply),
            reply matches Ok(clients) ==> forall|i: int|
                0 <= i < clients@.len() && (#[trigger] clients@[i]).address@ == self.address@ && (
                forall|j: int|
                    0 <= j < i ==> (#[trigger] clients@[j]).address@ != self.address@)
                    ==> update == Ok::<WorkspaceUpdate, Fault>(
                    WorkspaceUpdate::Urgent { id: clients@[i].workspace as i64, urgent: true },
                ),
    {
        let clients = match reply {
            Ok(clients) => clients,
            Err(error) => return Err(Fault::Clients(error)),
        };
        let ghost here = at(self.address@);
        let mut i: usize = 0;
        while i < clients.len()
            invariant
                i <= clients.len(),
                reply == Ok::<Vec<HyprClient>, IpcError>(clients),
                here == at(self.address@),
                forall|j: int| 0 <= j < i ==> !#[trigger] here(clients@[j]),
                forall|j: int| 0 <= j < i ==> (#[trigger] clients@[j]).address@ != self.address@,
            decreases clients.len() - i,
        {
            if same_text(&clients[i].address, &self.address) {
                proof {
                    assert(search::is_first(clients@, here, i as int));
                    search::lemma_first_found(clients@, here, i as int);
                }
                return Ok(
                    WorkspaceUpdate::Urgent { id: clients[i].workspace as i64, urgent: true },
                );
            }
            i += 1;
        }
        Err(Fault::ClientNotFound)
    }
}

/// The active workspace with which listening starts: the compositor never reports the previous
/// one, so it has to be kept. Unknown where the query failed.
pub fn get_active_workspace(reply: Result<HyprWorkspace, IpcError>) -> (active: Option<Workspace>)
    ensures
        active == (match reply {
            Ok(workspace) => Some(workspace.described(Visibility::Visible { focused: true })),
            Err(_) => None,
        }),
{
    match reply {
        Ok(workspace) => Some(Workspace::from((Visibility::focused(), workspace))),
        Err(_) => None,
    }
}

} // verus!
