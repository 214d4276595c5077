//! Snapshots of the windows on each workspace.
//!
//! A snapshot takes three replies of the compositor: its windows, its active window, and its
//! workspaces. [`WindowSnapshot`] waits for the second and [`PlacedWindows`] for the third.

use std::collections::HashMap;
use vstd::prelude::*;
use crate::ipc::{Fault, HyprClient, HyprWorkspace, IpcError};
#[allow(unused_imports)]
use crate::{text, workspace};
use crate::text::same_text;
#[allow(unused_imports)]
use crate::workspace::{UpdateView, WorkspaceUpdate, WorkspaceWindow};

verus! {

broadcast use vstd::std_specs::hash::group_hash_axioms;

/// The condition of being on the workspace `id`.
pub open spec fn on(id: i64) -> spec_fn(HyprClient) -> bool {
    |c: HyprClient| c.workspace == id
}

/// A window as subscribers know it.
pub open spec fn window(client: HyprClient, active: Option<Seq<char>>) -> WorkspaceWindow {
    WorkspaceWindow {
        id: client.address,
        app_id: client.class,
        focused: active == Some(client.address@),
    }
}

/// The windows on the workspace `id`, in the order in which the compositor lists them.
pub open spec fn windows_on(
    clients: Seq<HyprClient>,
    active: Option<Seq<char>>,
    id: i64,
) -> Seq<WorkspaceWindow> {
    clients.filter(on(id)).map_values(|c: HyprClient| window(c, active))
}

/// No workspace before index `k` has the identifier `id`.
pub open spec fn unlisted_before(workspaces: Seq<HyprWorkspace>, k: int, id: i64) -> bool {
    forall|j: int| 0 <= j < k ==> (#[trigger] workspaces[j]).id != id
}

/// The snapshot: each workspace in turn with the windows on it, windows being handed out once.
pub open spec fn snapshot(
    clients: Seq<HyprClient>,
    active: Option<Seq<char>>,
    workspaces: Seq<HyprWorkspace>,
) -> Seq<(i64, Seq<WorkspaceWindow>)> {
    Seq::new(
        workspaces.len(),
        |i: int|
            {
                let id = workspaces[i].id as i64;
                (
                    id,
                    if unlisted_before(workspaces, i, id) {
                        windows_on(clients, active, id)
                    } else {
                        Seq::empty()
                    },
                )
            },
    )
}

/// The windows that a map holds for the workspace `id`.
spec fn bucket(buckets: Map<i64, Vec<WorkspaceWindow>>, id: i64) -> Seq<WorkspaceWindow> {
    if buckets.contains_key(id) {
        buckets[id]@
    } else {
        Seq::empty()
    }
}

/// One more listed window is one more window on its workspace.
proof fn lemma_windows_on_push(clients: Seq<HyprClient>, i: int, active: Option<Seq<char>>, id: i64)
    requires
        0 <= i < clients.len(),
    ensures
        windows_on(clients.take(i + 1), active, id) == (if clients[i].workspace == id {
            windows_on(clients.take(i), active, id).push(window(clients[i], active))
        } else {
            windows_on(clients.take(i), active, id)
        }),
{
    reveal(Seq::filter);
    assert(clients.take(i + 1).drop_last() =~= clients.take(i));
    assert(windows_on(clients.take(i + 1), active, id) =~= (if clients[i].workspace == id {
        windows_on(clients.take(i), active, id).push(window(clients[i], active))
    } else {
        windows_on(clients.take(i), active, id)
    }));
}

/// Sorts the windows by workspace.
fn by_workspace(clients: Vec<HyprClient>, active: Option<&String>) -> (buckets: HashMap<
    i64,
    Vec<WorkspaceWindow>,
>)
    ensures
        forall|id: i64| #[trigger]
            bucket(buckets@, id) == windows_on(clients@, text::chars(active), id),
{
    let mut buckets: HashMap<i64, Vec<WorkspaceWindow>> = HashMap::new();
    let ghost focus = text::chars(active);
    proof {
        reveal(Seq::filter);
        assert forall|id: i64| #[trigger]
            bucket(buckets@, id) == windows_on(clients@.take(0), focus, id) by {
            assert(windows_on(clients@.take(0), focus, id) =~= Seq::empty());
        }
    }
    let mut i: usize = 0;
    while i < clients.len()
        invariant
            i <= clients.len(),
            focus == text::chars(active),
            forall|id: i64| #[trigger]
                bucket(buckets@, id) == windows_on(clients@.take(i as int), focus, id),
        decreases clients.len() - i,
    {
        let client = &clients[i];
        let focused = match active {
            Some(address) => same_text(address, &client.address),
            None => false,
        };
        let ghost before = buckets@;
        let place: i64 = client.workspace as i64;
        buckets.entry(place).or_insert(Vec::new()).push(
            WorkspaceWindow { id: client.address.clone(), app_id: client.class.clone(), focused },
        );
        proof {
            assert forall|id: i64| #[trigger]
                bucket(buckets@, id) == windows_on(clients@.take(i + 1), focus, id) by {
                lemma_windows_on_push(clients@, i as int, focus, id);
                assert(bucket(before, id) == windows_on(clients@.take(i as int), focus, id));
            }
        }
        i += 1;
    }
    assert(clients@.take(i as int) =~= clients@);
    buckets
}

/// Buckets the windows by workspace, for every current workspace. Workspaces without windows get
/// an empty vector, so that their icons clear.
pub fn window_snapshot(
    clients: Vec<HyprClient>,
    active: Option<&String>,
    workspaces: &Vec<HyprWorkspace>,
) -> (listed: Vec<(i64, Vec<WorkspaceWindow>)>)
    ensures
        workspace::snapshot_view(listed@) == snapshot(
            clients@,
            text::chars(active),
            workspaces@,
        ),
{
    let ghost focus = text::chars(active);
    let mut buckets = by_workspace(clients, active);
    let mut listed: Vec<(i64, Vec<WorkspaceWindow>)> = Vec::new();
    let mut i: usize = 0;
    while i < workspaces.len()
        invariant
            i <= workspaces.len(),
            focus == text::chars(active),
            listed.len() == i,
            forall|id: i64| #[trigger]
                bucket(buckets@, id) == (if unlisted_before(workspaces@, i as int, id) {
                    windows_on(clients@, focus, id)
                } else {
                    Seq::empty()
                }),
            forall|j: int|
                0 <= j < i ==> (#[trigger] listed@[j]).0 == workspaces@[j].id && listed@[j].1@ == (
                if unlisted_before(workspaces@, j, workspaces@[j].id as i64) {
                    windows_on(clients@, focus, workspaces@[j].id as i64)
                } else {
                    Seq::empty()
                }),
        decreases workspaces.len() - i,
    {
        let id: i64 = workspaces[i].id as i64;
        let ghost before = buckets@;
        assert(bucket(before, id) == bucket(buckets@, id));
        let windows: Vec<WorkspaceWindow> = match buckets.remove(&id) {
            Some(windows) => windows,
            None => Vec::new(),
        };
        proof {
            assert(windows@ =~= bucket(before, id));
            assert forall|other: i64| #[trigger]
                bucket(buckets@, other) == (if unlisted_before(workspaces@, i + 1, other) {
                    windows_on(clients@, focus, other)
                } else {
                    Seq::empty()
                }) by {
                assert(bucket(before, other) == (if unlisted_before(
                    workspaces@,
                    i as int,
                    other,
                ) {
                    windows_on(clients@, focus, other)
                } else {
                    Seq::empty()
                }));
                if other == id {
                    assert(workspaces@[i as int].id == other);
                    assert(!unlisted_before(workspaces@, i + 1, other));
                } else if unlisted_before(workspaces@, i as int, other) {
                    assert(unlisted_before(workspaces@, i + 1, other));
                } else {
                    assert(!unlisted_before(workspaces@, i + 1, other));
                }
            }
        }
        listed.push((id, windows));
        i += 1;
    }
    assert(workspace::snapshot_view(listed@) =~= snapshot(clients@, focus, workspaces@));
    listed
}

/// A snapshot of which the windows are known.
#[derive(Debug)]
pub struct WindowSnapshot {
    pub clients: Vec<HyprClient>,
}

/// A snapshot of which the windows are known, and which of them has the focus.
#[derive(Debug)]
pub struct PlacedWindows {
    pub clients: Vec<HyprClient>,
    /// The address of the currently focused window, so that its icon can be highlighted
    pub active_address: Option<String>,
}

impl WindowSnapshot {
    /// Starts a snapshot with the compositor's windows.
    pub fn on_clients(reply: Result<Vec<HyprClient>, IpcError>) -> (started: Result<Self, Fault>)
        ensures
            started == (match reply {
                Ok(clients) => Ok(WindowSnapshot { clients }),
                Err(error) => Err(Fault::Clients(error)),
            }),
    {
        match reply {
            Ok(clients) => Ok(WindowSnapshot { clients }),
            Err(error) => Err(Fault::Clients(error)),
        }
    }

    /// Goes on with the active window. Where there is none, or it could not be read, no window
    /// has the focus.
    pub fn on_active_client(self, reply: Result<Option<HyprClient>, IpcError>) -> (placed:
        PlacedWindows)
        ensures
            placed == (PlacedWindows {
                clients: self.clients,
                active_address: match reply {
                    Ok(Some(client)) => Some(client.address),
                    _ => None,
                },
            }),
    {
        let active_address = match reply {
            Ok(Some(client)) => Some(client.address),
            _ => None,
        };
        PlacedWindows { clients: self.clients, active_address }
    }
}

impl PlacedWindows {
    /// Ends the snapshot with the compositor's workspaces.
    pub fn on_workspaces(self, reply: Result<Vec<HyprWorkspace>, IpcError>) -> (update: Result<
        WorkspaceUpdate,
        Fault,
    >)
        ensures
            match reply {
                Ok(workspaces) => update matches Ok(update) && update@ == UpdateView::Windows(
                    snapshot(
                        self.clients@,
                        text::chars(self.active_address),
                        workspaces@,
                    ),
                ),
                Err(error) => update == Err::<WorkspaceUpdate, Fault>(Fault::Workspaces(error)),
            },
    {
        match reply {
            Ok(workspaces) => Ok(
                WorkspaceUpdate::Windows(
                    window_snapshot(self.clients, self.active_address.as_ref(), &workspaces),
                ),
            ),
            Err(error) => Err(Fault::Workspaces(error)),
        }
    }
}

} // verus!
