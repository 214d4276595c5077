//! What a new subscriber to workspaces is sent.
//!
//! Seeding a subscription takes three replies of the compositor: its active workspace, its
//! monitors, and its workspaces. [`Subscription`] waits for the second and [`Seeding`] for the
//! third. A snapshot of the windows follows.

use vstd::prelude::*;
use crate::events::Reaction;
use crate::ipc::{create_is_visible, Fault, HyprMonitor, HyprWorkspace, IpcError};
#[allow(unused_imports)]
use crate::{ipc, text};
#[allow(unused_imports)]
use crate::workspace::{UpdateView, Visibility, Workspace, WorkspaceUpdate};

verus! {

/// The workspaces as subscribers know them.
pub open spec fn described(
    workspaces: Seq<HyprWorkspace>,
    active_name: Option<Seq<char>>,
    monitors: Seq<HyprMonitor>,
) -> Seq<Workspace> {
    Seq::new(
        workspaces.len(),
        |i: int|
            workspaces[i].described(ipc::visibility_of(workspaces[i], active_name, monitors)),
    )
}

/// Describes each workspace to subscribers. Where the monitors could not be read, nothing is
/// visible but the active workspace.
pub fn describe(
    workspaces: Vec<HyprWorkspace>,
    active_name: Option<&String>,
    monitors: Result<Vec<HyprMonitor>, IpcError>,
) -> (listed: Vec<Workspace>)
    ensures
        listed@ == described(
            workspaces@,
            text::chars(active_name),
            ipc::known_monitors(monitors),
        ),
{
    let ghost name = text::chars(active_name);
    let ghost known = ipc::known_monitors(monitors);
    let is_visible = create_is_visible(monitors);
    let mut listed: Vec<Workspace> = Vec::new();
    for workspace in it: workspaces
        invariant
            it.seq() == workspaces@,
            name == text::chars(active_name),
            forall|w: &HyprWorkspace| #[trigger] call_requires(is_visible, (w,)),
            forall|w: &HyprWorkspace, visible: bool| #[trigger]
                call_ensures(is_visible, (w,), visible) ==> visible == ipc::shown(known, w.id),
            listed@.len() == it.index(),
            forall|j: int|
                0 <= j < it.index() ==> #[trigger] listed@[j] == described(
                    workspaces@,
                    name,
                    known,
                )[j],
    {
        let visibility = Visibility::of(&workspace, active_name, &is_visible);
        listed.push(Workspace::from((visibility, workspace)));
    }
    assert(listed@ =~= described(workspaces@, name, known));
    listed
}

/// A subscription of which the active workspace is known.
#[derive(Debug)]
pub struct Subscription {
    /// The name of the active workspace
    pub active_name: Option<String>,
}

/// A subscription of which the active workspace is known, and what was said of the monitors.
#[derive(Debug)]
pub struct Seeding {
    /// The name of the active workspace
    pub active_name: Option<String>,
    pub monitors: Result<Vec<HyprMonitor>, IpcError>,
}

impl Subscription {
    /// Starts with the active workspace. Where it could not be read, none is focused.
    pub fn on_active_workspace(reply: Result<HyprWorkspace, IpcError>) -> (started: Self)
        ensures
            started.active_name == (match reply {
                Ok(active) => Some(active.name),
                Err(_) => None,
            }),
    {
        let active_name = match reply {
            Ok(active) => Some(active.name),
            Err(_) => None,
        };
        Subscription { active_name }
    }

    /// Goes on with the compositor's monitors.
    pub fn on_monitors(self, reply: Result<Vec<HyprMonitor>, IpcError>) -> (seeding: Seeding)
        ensures
            seeding == (Seeding { active_name: self.active_name, monitors: reply }),
    {
        Seeding { active_name: self.active_name, monitors: reply }
    }
}

impl Seeding {
    /// Ends with the compositor's workspaces: the initial list is sent, and the windows on each
    /// workspace after it.
    pub fn on_workspaces(self, reply: Result<Vec<HyprWorkspace>, IpcError>) -> (reactions: Vec<
        Reaction,
    >)
        ensures
            match reply {
                Ok(workspaces) => {
                    &&& reactions@.len() == 2
                    &&& reactions@[0] matches Reaction::Send(update) && update@
                        == UpdateView::Init(
                        described(
                            workspaces@,
                            text::chars(self.active_name),
                            ipc::known_monitors(self.monitors),
                        ),
                    )
                    &&& reactions@[1] == Reaction::Snapshot
                },
                Err(error) => reactions@ == seq![Reaction::Reject(Fault::Workspaces(error))],
            },
    {
        let mut reactions: Vec<Reaction> = Vec::new();
        match reply {
            Ok(workspaces) => {
                let listed = describe(workspaces, self.active_name.as_ref(), self.monitors);
                reactions.push(Reaction::Send(WorkspaceUpdate::Init(listed)));
                reactions.push(Reaction::Snapshot);
            },
            Err(error) => {
                reactions.push(Reaction::Reject(Fault::Workspaces(error)));
            },
        }
        reactions
    }
}

} // verus!
