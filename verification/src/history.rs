//! Whole events: an event with the compositor's replies to every query it may lead to, and what
//! runs of events come to.

use vstd::prelude::*;
use crate::events::{Reaction, WorkspaceEvent};
use crate::ipc::{Fault, HyprClient, HyprMonitor, HyprWorkspace, IpcError};
use crate::lookup::Progress;
use crate::snapshot::WindowSnapshot;
#[allow(unused_imports)]
use crate::workspace::{UpdateView, Workspace, WorkspaceUpdate};
#[allow(unused_imports)]
use crate::{events, ipc, lookup, search, snapshot, text, workspace};

verus! {

/// An event of the compositor, with what it then replies to each query.
#[derive(Debug)]
pub struct Occurrence {
    pub event: WorkspaceEvent,
    pub workspaces: Result<Vec<HyprWorkspace>, IpcError>,
    pub monitors: Result<Vec<HyprMonitor>, IpcError>,
    pub clients: Result<Vec<HyprClient>, IpcError>,
    pub active_client: Result<Option<HyprClient>, IpcError>,
}

/// What an event comes to: the messages sent, and the active workspace after.
pub struct Outcome {
    pub sent: Seq<UpdateView>,
    pub active: Option<Workspace>,
}

impl Occurrence {
    /// The workspace that the event tells of, as the compositor lists it. There is none where the
    /// event tells of no workspace, the workspaces could not be read, or none goes by the name.
    pub open spec fn found(self) -> Option<HyprWorkspace> {
        match (self.event.tells_of(), self.workspaces) {
            (Some((_, name)), Ok(workspaces)) => lookup::workspace_named(workspaces@, name),
            _ => None,
        }
    }

    /// That workspace as subscribers will know it.
    pub open spec fn told_of(self, active: Option<Workspace>) -> Option<Workspace> {
        match self.found() {
            Some(found) => Some(
                found.described(
                    ipc::visibility_of(
                        found,
                        lookup::active_name(active),
                        ipc::known_monitors(self.monitors),
                    ),
                ),
            ),
            None => None,
        }
    }

    /// The address of the active window, if it is known.
    pub open spec fn active_address(self) -> Option<Seq<char>> {
        match self.active_client {
            Ok(Some(client)) => Some(client.address@),
            _ => None,
        }
    }

    /// The message that an event which tells of no workspace by name leads to, if any.
    pub open spec fn message(self) -> Option<UpdateView> {
        match self.event {
            WorkspaceEvent::WorkspaceRenamed { id, name } => Some(
                UpdateView::Rename { id: id as i64, name },
            ),
            WorkspaceEvent::WorkspaceDeleted { id } => Some(UpdateView::Remove(id as i64)),
            WorkspaceEvent::ActiveWindowChanged { address } => Some(
                UpdateView::WindowFocusChanged { address },
            ),
            WorkspaceEvent::UrgentStateChanged { address } => match self.clients {
                Ok(clients) => match search::first(clients@, events::at(address@)) {
                    Some(client) => Some(
                        UpdateView::Urgent { id: client.workspace as i64, urgent: true },
                    ),
                    None => None,
                },
                Err(_) => None,
            },
            _ => match (self.event.moves_windows(), self.clients, self.workspaces) {
                (true, Ok(clients), Ok(workspaces)) => Some(
                    UpdateView::Windows(
                        snapshot::snapshot(clients@, self.active_address(), workspaces@),
                    ),
                ),
                _ => None,
            },
        }
    }

    /// What the event comes to.
    pub open spec fn outcome(self, active: Option<Workspace>) -> Outcome {
        match self.event.tells_of() {
            Some((change, _)) => match self.told_of(active) {
                Some(workspace) => Outcome {
                    sent: lookup::change_messages(change, workspace, active),
                    active: lookup::active_after(change, workspace, active),
                },
                None => Outcome { sent: Seq::empty(), active },
            },
            None => Outcome {
                sent: match self.message() {
                    Some(message) => seq![message],
                    None => Seq::empty(),
                },
                active,
            },
        }
    }

    /// Plays the event through: takes each step that it calls for, with the reply that the step
    /// waits for, and hands out the updates to be sent. Where a step fails, nothing more is sent.
    pub fn play(self, active: &mut Option<Workspace>) -> (updates: Vec<WorkspaceUpdate>)
        ensures
            workspace::messages(updates@) == self.outcome(*old(active)).sent,
            *final(active) == self.outcome(*old(active)).active,
    {
        let Occurrence { event, workspaces, monitors, clients, active_client } = self;
        let updates = match event.react() {
            Reaction::Send(update) => one(Ok(update)),
            Reaction::Find(lookup) => match lookup.on_workspaces(active, workspaces) {
                Progress::Finished(updates) => updates,
                Progress::NeedsMonitors(located) => located.on_monitors(active, monitors),
                Progress::Failed(_) => Vec::new(),
            },
            Reaction::FindUrgent(urgent) => one(urgent.on_clients(clients)),
            Reaction::Snapshot => match WindowSnapshot::on_clients(clients) {
                Ok(started) => one(
                    started.on_active_client(active_client).on_workspaces(workspaces),
                ),
                Err(_) => Vec::new(),
            },
            Reaction::Reject(_) => Vec::new(),
        };
        assert(workspace::messages(updates@) =~= self.outcome(*old(active)).sent);
        updates
    }
}

/// The update as a run of updates; an empty one where there is none.
fn one(update: Result<WorkspaceUpdate, Fault>) -> (updates: Vec<WorkspaceUpdate>)
    ensures
        workspace::messages(updates@) == (match update {
            Ok(update) => seq![update@],
            Err(_) => Seq::empty(),
        }),
{
    let mut updates: Vec<WorkspaceUpdate> = Vec::new();
    if let Ok(update) = update {
        updates.push(update);
    }
    assert(workspace::messages(updates@) =~= (match update {
        Ok(update) => seq![update@],
        Err(_) => Seq::empty(),
    }));
    updates
}

/// What a run of events comes to.
pub open spec fn history(events: Seq<Occurrence>, active: Option<Workspace>) -> Outcome
    decreases events.len(),
{
    if events.len() == 0 {
        Outcome { sent: Seq::empty(), active }
    } else {
        let before = history(events.drop_last(), active);
        let now = events.last().outcome(before.active);
        Outcome { sent: before.sent + now.sent, active: now.active }
    }
}

/// The workspace to which the last of the focus messages moved the focus; `active` where there is
/// none among them.
pub open spec fn last_focused(sent: Seq<UpdateView>, active: Option<Workspace>) -> Option<Workspace>
    decreases sent.len(),
{
    if sent.len() == 0 {
        active
    } else {
        match sent.last() {
            UpdateView::Focus { old, new } => Some(new),
            _ => last_focused(sent.drop_last(), active),
        }
    }
}

} // verus!
