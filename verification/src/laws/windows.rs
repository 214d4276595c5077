//! Snapshots and window icons, told by the fields of the listed windows.

use vstd::prelude::*;
#[allow(unused_imports)]
use crate::button::{Button, WindowIcon, WorkspaceMessage};
#[allow(unused_imports)]
use crate::ipc::{HyprClient, HyprWorkspace};
#[allow(unused_imports)]
use crate::workspace::WorkspaceWindow;
#[allow(unused_imports)]
use crate::{button, snapshot, workspace};

verus! {

/// A snapshot has each listed workspace at its place, under its identifier. The first workspace of
/// an identifier has the windows on it in the order in which they are listed: the j-th has the
/// address of the j-th listed window there as its identifier and its class as the application, and
/// it is highlighted exactly if its address is the active one. A later workspace of the same
/// identifier has none.
pub proof fn law_snapshots_have_the_listed_windows(
    clients: Seq<HyprClient>,
    active: Option<Seq<char>>,
    workspaces: Seq<HyprWorkspace>,
    i: int,
)
    requires
        0 <= i < workspaces.len(),
    ensures
        ({
            let taken = snapshot::snapshot(clients, active, workspaces);
            let here = clients.filter(|c: HyprClient| c.workspace == workspaces[i].id);
            &&& taken.len() == workspaces.len()
            &&& taken[i].0 == workspaces[i].id
            &&& if forall|k: int|
                0 <= k < i ==> (#[trigger] workspaces[k]).id != workspaces[i].id {
                &&& taken[i].1.len() == here.len()
                &&& forall|j: int|
                    0 <= j < here.len() ==> {
                        &&& (#[trigger] taken[i].1[j]).id == here[j].address
                        &&& taken[i].1[j].app_id == here[j].class
                        &&& taken[i].1[j].focused <==> active == Some(here[j].address@)
                    }
            } else {
                taken[i].1.len() == 0
            }
        }),
{
    let here = |c: HyprClient| c.workspace == workspaces[i].id;
    assert(snapshot::on(workspaces[i].id as i64) =~= here);
    assert(snapshot::unlisted_before(workspaces, i, workspaces[i].id as i64) <==> forall|k: int|
        0 <= k < i ==> (#[trigger] workspaces[k]).id != workspaces[i].id);
}

/// Every window of a snapshot is a listed one: some listed window on the workspace has the window's
/// identifier as its address and the window's application as its class.
pub proof fn law_snapshot_windows_are_listed(
    clients: Seq<HyprClient>,
    active: Option<Seq<char>>,
    workspaces: Seq<HyprWorkspace>,
    i: int,
    j: int,
)
    requires
        0 <= i < workspaces.len(),
        0 <= j < snapshot::snapshot(clients, active, workspaces)[i].1.len(),
    ensures
        ({
            let shown = snapshot::snapshot(clients, active, workspaces)[i].1[j];
            exists|c: int|
                {
                    &&& 0 <= c < clients.len()
                    &&& (#[trigger] clients[c]).workspace == workspaces[i].id
                    &&& clients[c].address == shown.id
                    &&& clients[c].class == shown.app_id
                    &&& shown.focused <==> active == Some(clients[c].address@)
                }
        }),
{
    law_snapshots_have_the_listed_windows(clients, active, workspaces, i);
    let here = |c: HyprClient| c.workspace == workspaces[i].id;
    super::lemma_filter_source(clients, here, j);
}

/// Every listed window on a listed workspace is in the snapshot, under its identifier, with its
/// address and class.
pub proof fn law_listed_windows_are_in_the_snapshot(
    clients: Seq<HyprClient>,
    active: Option<Seq<char>>,
    workspaces: Seq<HyprWorkspace>,
    c: int,
    i: int,
)
    requires
        0 <= c < clients.len(),
        0 <= i < workspaces.len(),
        workspaces[i].id == clients[c].workspace,
        forall|k: int| 0 <= k < i ==> (#[trigger] workspaces[k]).id != workspaces[i].id,
    ensures
        ({
            let windows = snapshot::snapshot(clients, active, workspaces)[i].1;
            exists|j: int|
                {
                    &&& 0 <= j < windows.len()
                    &&& (#[trigger] windows[j]).id == clients[c].address
                    &&& windows[j].app_id == clients[c].class
                    &&& windows[j].focused <==> active == Some(clients[c].address@)
                }
        }),
{
    law_snapshots_have_the_listed_windows(clients, active, workspaces, i);
    let here = |c: HyprClient| c.workspace == workspaces[i].id;
    lemma_kept(clients, here, c);
    let j = choose|j: int|
        0 <= j < clients.filter(here).len() && #[trigger] clients.filter(here)[j] == clients[c];
    let windows = snapshot::snapshot(clients, active, workspaces)[i].1;
    assert(windows[j].id == clients[c].address);
}

/// What meets the condition is kept by filtering.
proof fn lemma_kept<T>(s: Seq<T>, p: spec_fn(T) -> bool, c: int)
    requires
        0 <= c < s.len(),
        p(s[c]),
    ensures
        exists|j: int| 0 <= j < s.filter(p).len() && #[trigger] s.filter(p)[j] == s[c],
    decreases s.len(),
{
    reveal(Seq::filter);
    let init = s.drop_last();
    if c < init.len() {
        assert(init[c] == s[c]);
        lemma_kept(init, p, c);
        let j = choose|j: int|
            0 <= j < init.filter(p).len() && #[trigger] init.filter(p)[j] == init[c];
        assert(s.filter(p)[j] == s[c]);
    } else {
        assert(s.filter(p)[init.filter(p).len() as int] == s[c]);
    }
}

/// An icon shows the application of its window in the size that is set, and a click on it asks for
/// that window on the workspace of the button. An icon of its own is highlighted with its window,
/// and a shared one with any window of the application.
pub proof fn law_icons_are_of_their_windows(b: Button, windows: Seq<WorkspaceWindow>, i: int)
    requires
        0 <= i < windows.len(),
    ensures
        ({
            let icon = b.icon(windows, i);
            &&& icon.app_id == windows[i].app_id
            &&& icon.size == b.icons.window_icon_size
            &&& icon.on_click == (WorkspaceMessage::FocusWindow {
                workspace_id: b.workspace_id,
                address: windows[i].id,
            })
            &&& !b.icons.dedupe_window_icons ==> icon.focused == windows[i].focused
            &&& b.icons.dedupe_window_icons ==> (icon.focused <==> exists|j: int|
                0 <= j < windows.len() && (#[trigger] windows[j]).app_id@ == windows[i].app_id@
                    && windows[j].focused)
        }),
        b.has_icon(windows, i) <==> (!b.icons.dedupe_window_icons || forall|j: int|
            0 <= j < i ==> (#[trigger] windows[j]).app_id@ != windows[i].app_id@),
        button::first_of_app(windows, i) <==> forall|j: int|
            0 <= j < i ==> (#[trigger] windows[j]).app_id@ != windows[i].app_id@,
        button::app_focused(windows, windows[i].app_id@) <==> exists|j: int|
            0 <= j < windows.len() && (#[trigger] windows[j]).app_id@ == windows[i].app_id@
                && windows[j].focused,
{
}

/// The places of the windows that have an icon, in order: all of them, or, where icons are shared,
/// those of the first window of each application.
pub open spec fn places(windows: Seq<WorkspaceWindow>, shared: bool, k: nat) -> Seq<int> {
    Seq::new(k, |i: int| i).filter(
        |i: int|
            !shared || forall|j: int|
                0 <= j < i ==> (#[trigger] windows[j]).app_id@ != windows[i].app_id@,
    )
}

/// The icons are those of the windows that have one, in the order of the windows.
pub proof fn law_icons_stand_in_the_order_of_windows(
    b: Button,
    windows: Seq<WorkspaceWindow>,
    k: nat,
)
    requires
        k <= windows.len(),
    ensures
        ({
            let shown = b.icons_before(windows, k as int);
            let at = places(windows, b.icons.dedupe_window_icons, k);
            &&& shown.len() == at.len()
            &&& forall|n: int|
                0 <= n < at.len() ==> 0 <= at[n] < k && #[trigger] shown[n] == b.icon(
                    windows,
                    at[n],
                )
        }),
    decreases k,
{
    reveal(Seq::filter);
    let shared = b.icons.dedupe_window_icons;
    let all = Seq::new(k, |i: int| i);
    if k > 0 {
        let before = (k - 1) as nat;
        law_icons_stand_in_the_order_of_windows(b, windows, before);
        law_icons_are_of_their_windows(b, windows, k - 1);
        assert(all.drop_last() =~= Seq::new(before, |i: int| i));
        assert(all.last() == k - 1);
        let at = places(windows, shared, k);
        let earlier = places(windows, shared, before);
        assert(at == (if b.has_icon(windows, k - 1) {
            earlier.push(k - 1)
        } else {
            earlier
        }));
    } else {
        assert(all.len() == 0);
    }
}

} // verus!
