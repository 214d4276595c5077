//! Events about one workspace: finding it, and telling subscribers what became of it.
//!
//! An event names a workspace. The client asks the compositor for its workspaces, and, unless the
//! workspace turns out to be the active one, for its monitors too. [`Lookup`] waits for the first
//! reply, [`Located`] for the second.

use vstd::prelude::*;
use crate::ipc::{create_is_visible, Fault, HyprMonitor, HyprWorkspace, IpcError};
#[allow(unused_imports)]
use crate::{ipc, search, text, workspace};
use crate::text::same_text;
#[allow(unused_imports)]
use crate::workspace::{UpdateView, Visibility, Workspace, WorkspaceUpdate};

verus! {

/// What happened to the workspace.
#[derive(Debug, Copy, Clone, PartialEq, Eq, Structural)]
pub enum Change {
    /// It was created.
    Added,
    /// It became the active workspace of its monitor, or its monitor became the active one.
    Activated,
    /// It moved to another monitor.
    Moved,
}

/// An event about a workspace, to be looked up among the compositor's workspaces.
#[derive(Debug)]
pub struct Lookup {
    pub change: Change,
    /// The name by which the compositor lists the workspace
    pub name: String,
}

/// An event about a workspace that was found and goes by another name than the active one.
/// Whether it is visible depends on what the monitors show.
#[derive(Debug)]
pub struct Located {
    pub change: Change,
    pub workspace: HyprWorkspace,
}

/// Where a lookup stands once the workspaces are known.
#[derive(Debug)]
pub enum Progress {
    /// The lookup is over, and these updates are to be sent.
    Finished(Vec<WorkspaceUpdate>),
    /// The lookup goes on once the monitors are known.
    NeedsMonitors(Located),
    /// The lookup is over, for this reason.
    Failed(Fault),
}

/// The name of the active workspace.
pub open spec fn active_name(active: Option<Workspace>) -> Option<Seq<char>> {
    match active {
        Some(workspace) => Some(workspace.name@),
        None => None,
    }
}

/// The condition of going by `name`.
pub open spec fn goes_by(name: Seq<char>) -> spec_fn(HyprWorkspace) -> bool {
    |w: HyprWorkspace| w.name@ == name
}

/// The first listed workspace that goes by `name`.
pub open spec fn workspace_named(
    workspaces: Seq<HyprWorkspace>,
    name: Seq<char>,
) -> Option<HyprWorkspace> {
    search::first(workspaces, goes_by(name))
}

/// The messages that tell of a focus change: the change itself, and that the newly focused
/// workspace is not urgent any more.
pub open spec fn focus_messages(old: Option<Workspace>, new: Workspace) -> Seq<UpdateView> {
    seq![UpdateView::Focus { old, new }, UpdateView::Urgent { id: new.id, urgent: false }]
}

/// The messages that tell of a change to a workspace that was found.
pub open spec fn change_messages(
    change: Change,
    workspace: Workspace,
    active: Option<Workspace>,
) -> Seq<UpdateView> {
    let focus = if workspace.visibility.has_focus() {
        Seq::empty()
    } else {
        focus_messages(active, workspace)
    };
    match change {
        Change::Added => seq![UpdateView::Add(workspace)],
        Change::Activated => focus,
        Change::Moved => seq![UpdateView::Move(workspace)] + focus,
    }
}

/// The active workspace after a change to a workspace that was found.
pub open spec fn active_after(
    change: Change,
    workspace: Workspace,
    active: Option<Workspace>,
) -> Option<Workspace> {
    if change is Added || workspace.visibility.has_focus() {
        active
    } else {
        Some(workspace)
    }
}

/// Appends a `WorkspaceUpdate::Focus` event, and that the workspace is not urgent, to `updates`,
/// and makes the workspace the active one.
pub fn send_focus_change(
    active: &mut Option<Workspace>,
    workspace: Workspace,
    updates: &mut Vec<WorkspaceUpdate>,
)
    ensures
        *final(active) == Some(workspace),
        workspace::messages(final(updates)@) == workspace::messages(old(updates)@) + focus_messages(
            *old(active),
            workspace,
        ),
{
    updates.push(WorkspaceUpdate::Focus { old: active.take(), new: workspace.clone() });
    updates.push(WorkspaceUpdate::Urgent { id: workspace.id, urgent: false });
    *active = Some(workspace);
    proof {
        assert(workspace::messages(updates@) =~= workspace::messages(old(updates)@)
            + focus_messages(*old(active), workspace));
    }
}

/// Tells of a change to a workspace that was found, and keeps track of the active workspace.
pub fn conclude(change: Change, workspace: Workspace, active: &mut Option<Workspace>) -> (updates:
    Vec<WorkspaceUpdate>)
    ensures
        workspace::messages(updates@) == change_messages(change, workspace, *old(active)),
        *final(active) == active_after(change, workspace, *old(active)),
{
    let mut updates: Vec<WorkspaceUpdate> = Vec::new();
    assert(workspace::messages(updates@) =~= Seq::empty());
    match change {
        Change::Added => {
            updates.push(WorkspaceUpdate::Add(workspace));
        },
        Change::Activated => {
            if !workspace.visibility.is_focused() {
                send_focus_change(active, workspace, &mut updates);
            }
        },
        Change::Moved => {
            updates.push(WorkspaceUpdate::Move(workspace.clone()));
            if !workspace.visibility.is_focused() {
                send_focus_change(active, workspace, &mut updates);
            }
        },
    }
    assert(workspace::messages(updates@) =~= change_messages(change, workspace, *old(active)));
    updates
}

/// Finds the first listed workspace that goes by `name`.
pub fn get_workspace(workspaces: Vec<HyprWorkspace>, name: &String) -> (found: Option<
    HyprWorkspace,
>)
    ensures
        found == workspace_named(workspaces@, name@),
{
    let ghost named = goes_by(name@);
    let mut listed = workspaces;
    let mut i: usize = 0;
    while i < listed.len()
        invariant
            i <= listed.len(),
            listed@ == workspaces@,
            named == goes_by(name@),
            forall|j: int| 0 <= j < i ==> !#[trigger] named(workspaces@[j]),
        decreases listed.len() - i,
    {
        if same_text(&listed[i].name, name) {
            proof {
                assert(search::is_first(workspaces@, named, i as int));
                search::lemma_first_found(workspaces@, named, i as int);
            }
            return Some(listed.swap_remove(i));
        }
        i += 1;
    }
    None
}

impl Lookup {
    /// The workspace has to be among those that the compositor lists. A new one may be gone again
    /// by the time it is looked up.
    pub open spec fn must_exist(self) -> bool {
        !(self.change is Added)
    }

    /// Goes on with the compositor's workspaces.
    ///
    /// The workspace that goes by the name of the active one has the focus, whatever the monitors
    /// show.
    pub fn on_workspaces(
        self,
        active: &mut Option<Workspace>,
        reply: Result<Vec<HyprWorkspace>, IpcError>,
    ) -> (progress: Progress)
        ensures
            match reply {
                Err(error) => {
                    &&& progress == Progress::Failed(Fault::Workspaces(error))
                    &&& *final(active) == *old(active)
                },
                Ok(workspaces) => match workspace_named(workspaces@, self.name@) {
                    None => {
                        &&& self.must_exist() ==> progress == Progress::Failed(
                            Fault::WorkspaceNotFound,
                        )
                        &&& !self.must_exist() ==> (progress matches Progress::Finished(updates)
                            && updates@.len() == 0)
                        &&& *final(active) == *old(active)
                    },
                    Some(found) => if ipc::is_active(found, active_name(*old(active))) {
                        let workspace = found.described(Visibility::Visible { focused: true });
                        &&& progress matches Progress::Finished(updates)
                            && workspace::messages(updates@) == change_messages(
                            self.change,
                            workspace,
                            *old(active),
                        )
                        &&& *final(active) == *old(active)
                    } else {
                        &&& progress == Progress::NeedsMonitors(
                            Located { change: self.change, workspace: found },
                        )
                        &&& *final(active) == *old(active)
                    },
                },
            },
    {
        let workspaces = match reply {
            Ok(workspaces) => workspaces,
            Err(error) => return Progress::Failed(Fault::Workspaces(error)),
        };
        match get_workspace(workspaces, &self.name) {
            Some(found) => {
                if found.has_active_name(name_of(active.as_ref())) {
                    let workspace = Workspace::from((Visibility::focused(), found));
                    Progress::Finished(conclude(self.change, workspace, active))
                } else {
                    Progress::NeedsMonitors(Located { change: self.change, workspace: found })
                }
            },
            None => match self.change {
                Change::Added => Progress::Finished(Vec::new()),
                _ => Progress::Failed(Fault::WorkspaceNotFound),
            },
        }
    }
}

/// The name of a workspace, if there is one.
pub fn name_of(workspace: Option<&Workspace>) -> (name: Option<&String>)
    ensures
        text::chars(name) == (match workspace {
            Some(workspace) => Some(workspace.name@),
            None => None,
        }),
{
    match workspace {
        Some(workspace) => Some(&workspace.name),
        None => None,
    }
}

impl Located {
    /// The workspace as subscribers will know it.
    pub open spec fn resolved(
        self,
        active: Option<Workspace>,
        monitors: Seq<HyprMonitor>,
    ) -> Workspace {
        self.workspace.described(
            ipc::visibility_of(self.workspace, active_name(active), monitors),
        )
    }

    /// Goes on with the compositor's monitors. Where they could not be read, nothing is visible
    /// but the active workspace.
    pub fn on_monitors(
        self,
        active: &mut Option<Workspace>,
        reply: Result<Vec<HyprMonitor>, IpcError>,
    ) -> (updates: Vec<WorkspaceUpdate>)
        ensures
            ({
                let workspace = self.resolved(*old(active), ipc::known_monitors(reply));
                &&& workspace::messages(updates@) == change_messages(
                    self.change,
                    workspace,
                    *old(active),
                )
                &&& *final(active) == active_after(self.change, workspace, *old(active))
            }),
    {
        let is_visible = create_is_visible(reply);
        let visibility = Visibility::of(&self.workspace, name_of(active.as_ref()), is_visible);
        conclude(self.change, Workspace::from((visibility, self.workspace)), active)
    }
}

} // verus!
