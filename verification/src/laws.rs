//! What holds of the library as a whole.

pub mod modules;
pub mod requests;
pub mod updates;
pub mod windows;

use vstd::prelude::*;
#[allow(unused_imports)]
use vstd::string::*;
#[allow(unused_imports)]
use crate::{
    address, button, client, compositor, history, ipc, lookup, search, snapshot, subscription, text,
};
#[allow(unused_imports)]
use crate::button::{Button, ClassChange, CssClass, OpenState, WorkspaceMessage};
#[allow(unused_imports)]
use crate::client::{Client, CommandView};
#[allow(unused_imports)]
use crate::history::{Occurrence, Outcome};
#[allow(unused_imports)]
use crate::input::LayoutEvent;
#[allow(unused_imports)]
use crate::ipc::{HyprClient, HyprMonitor, HyprWorkspace, IpcError};
#[allow(unused_imports)]
use crate::lookup::{Change, Located};
#[allow(unused_imports)]
use crate::workspace::{UpdateView, Visibility, Workspace, WorkspaceWindow};

verus! {

/// The two steps of a lookup come to the outcome of the event: a workspace that goes by the active
/// name is done with once it is found, any other once the monitors are known, and where the
/// workspaces could not be read or none goes by the name, nothing comes of the event.
pub proof fn law_lookup_steps_make_the_outcome(
    event: Occurrence,
    change: Change,
    name: Seq<char>,
    active: Option<Workspace>,
)
    requires
        event.event.tells_of() == Some((change, name)),
    ensures
        match event.found() {
            None => event.outcome(active) == (Outcome { sent: Seq::empty(), active }),
            Some(found) => if ipc::is_active(found, lookup::active_name(active)) {
                let workspace = found.described(Visibility::Visible { focused: true });
                event.outcome(active) == (Outcome {
                    sent: lookup::change_messages(change, workspace, active),
                    active,
                })
            } else {
                let located = Located { change, workspace: found };
                let workspace = located.resolved(active, ipc::known_monitors(event.monitors));
                event.outcome(active) == (Outcome {
                    sent: lookup::change_messages(change, workspace, active),
                    active: lookup::active_after(change, workspace, active),
                })
            },
        },
        event.workspaces is Err ==> event.found() is None,
{
}

/// A workspace is shown exactly if the monitors are known and any of them has it as the active one;
/// where they could not be read, no workspace is shown.
pub proof fn law_workspaces_are_shown_by_monitors(
    reply: Result<Vec<HyprMonitor>, IpcError>,
    id: i32,
)
    ensures
        ipc::shown(ipc::known_monitors(reply), id) <==> (reply matches Ok(monitors)
            && exists|i: int|
            0 <= i < monitors@.len() && (#[trigger] monitors@[i]).active_workspace == id),
        reply is Err ==> !ipc::shown(ipc::known_monitors(reply), id),
{
}

/// A workspace is focused exactly if it goes by the active name, and only a visible workspace is
/// focused.
pub proof fn law_focused_means_active(
    workspace: HyprWorkspace,
    active_name: Option<Seq<char>>,
    monitors: Seq<HyprMonitor>,
)
    ensures
        ({
            let visibility = ipc::visibility_of(workspace, active_name, monitors);
            &&& visibility.has_focus() <==> ipc::is_active(workspace, active_name)
            &&& visibility is Visible <==> (ipc::is_active(workspace, active_name) || ipc::shown(
                monitors,
                workspace.id,
            ))
        }),
{
}

/// Whatever the event and whatever queries fail: a focus message names the workspace that was
/// active as the old one, never goes from a workspace to one of the same name, and is followed by
/// the message that the new one is not urgent. There is at most one, and the active workspace
/// changes only with it, to the new one.
pub proof fn law_focus_moves_from_the_active_workspace(
    event: Occurrence,
    active: Option<Workspace>,
)
    ensures
        ({
            let o = event.outcome(active);
            &&& forall|i: int|
                0 <= i < o.sent.len() && #[trigger] o.sent[i] is Focus ==> {
                    &&& o.sent[i]->old == active
                    &&& active is Some ==> active->0.name@ != o.sent[i]->new.name@
                    &&& o.active == Some(o.sent[i]->new)
                    &&& i + 1 < o.sent.len()
                    &&& o.sent[i + 1] == (UpdateView::Urgent {
                        id: o.sent[i]->new.id,
                        urgent: false,
                    })
                }
            &&& forall|i: int, j: int|
                0 <= i < o.sent.len() && 0 <= j < o.sent.len() && #[trigger] o.sent[i] is Focus
                    && #[trigger] o.sent[j] is Focus ==> i == j
            &&& (forall|i: int| 0 <= i < o.sent.len() ==> !(#[trigger] o.sent[i] is Focus))
                ==> o.active == active
        }),
{
    if let (Some((change, _)), Some(workspace)) = (event.event.tells_of(), event.told_of(active)) {
        let sent = lookup::change_messages(change, workspace, active);
        if !workspace.visibility.has_focus() {
            if change is Activated {
                assert(sent[0] is Focus);
            } else if change is Moved {
                assert(sent[1] is Focus);
            }
        }
    }
}

/// Through any run of events, whatever queries fail, each focus message names as the old workspace
/// the one to which the focus message before it moved the focus, goes to a workspace of another
/// name, and is directly followed by the message that the new workspace is not urgent. The
/// workspace kept as the active one is that of the last focus message.
pub proof fn law_focus_history_is_linked(events: Seq<Occurrence>, start: Option<Workspace>)
    ensures
        ({
            let h = history::history(events, start);
            &&& h.active == history::last_focused(h.sent, start)
            &&& forall|i: int|
                0 <= i < h.sent.len() && #[trigger] h.sent[i] is Focus ==> {
                    let old = h.sent[i]->old;
                    let new = h.sent[i]->new;
                    &&& old == history::last_focused(h.sent.take(i), start)
                    &&& old is Some ==> old->0.name@ != new.name@
                    &&& i + 1 < h.sent.len()
                    &&& h.sent[i + 1] == (UpdateView::Urgent { id: new.id, urgent: false })
                }
        }),
    decreases events.len(),
{
    if events.len() > 0 {
        let before = history::history(events.drop_last(), start);
        let now = events.last().outcome(before.active);
        let h = history::history(events, start);
        law_focus_history_is_linked(events.drop_last(), start);
        law_focus_moves_from_the_active_workspace(events.last(), before.active);
        assert(history::last_focused(h.sent, start) == now.active) by {
            lemma_last_focused_add(before.sent, now.sent, start);
            lemma_last_focused_of(now.sent, before.active, now.active);
        }
        assert forall|i: int| 0 <= i < h.sent.len() && #[trigger] h.sent[i] is Focus implies {
            let old = h.sent[i]->old;
            let new = h.sent[i]->new;
            &&& old == history::last_focused(h.sent.take(i), start)
            &&& old is Some ==> old->0.name@ != new.name@
            &&& i + 1 < h.sent.len()
            &&& h.sent[i + 1] == (UpdateView::Urgent { id: new.id, urgent: false })
        } by {
            if i < before.sent.len() {
                assert(before.sent[i] is Focus);
                assert(h.sent.take(i) =~= before.sent.take(i));
            } else {
                let k = i - before.sent.len();
                let earlier = now.sent.take(k);
                assert(now.sent[k] is Focus);
                assert(h.sent.take(i) =~= before.sent + earlier);
                assert forall|j: int|
                    0 <= j < k implies !(#[trigger] earlier[j] is Focus) by {
                    assert(earlier[j] == now.sent[j]);
                    assert(now.sent[k] is Focus);
                }
                lemma_last_focused_add(before.sent, earlier, start);
                lemma_last_focused_of(earlier, before.active, before.active);
            }
        }
    }
}

/// The last focus message of two runs is that of the second, if it has one, and else that of the
/// first.
proof fn lemma_last_focused_add(
    a: Seq<UpdateView>,
    b: Seq<UpdateView>,
    active: Option<Workspace>,
)
    ensures
        history::last_focused(a + b, active) == history::last_focused(
            b,
            history::last_focused(a, active),
        ),
    decreases b.len(),
{
    if b.len() == 0 {
        assert(a + b =~= a);
    } else {
        assert((a + b).drop_last() =~= a + b.drop_last());
        lemma_last_focused_add(a, b.drop_last(), active);
    }
}

/// Where every focus message moves the focus to `after`, that is where the last one moves it.
proof fn lemma_last_focused_of(
    sent: Seq<UpdateView>,
    active: Option<Workspace>,
    after: Option<Workspace>,
)
    requires
        forall|j: int|
            0 <= j < sent.len() && #[trigger] sent[j] is Focus ==> after == Some(sent[j]->new),
        (forall|j: int| 0 <= j < sent.len() ==> !(#[trigger] sent[j] is Focus)) ==> after == active,
    ensures
        history::last_focused(sent, active) == after,
    decreases sent.len(),
{
    if sent.len() > 0 && !(sent.last() is Focus) {
        let init = sent.drop_last();
        assert forall|j: int|
            0 <= j < init.len() && #[trigger] init[j] is Focus implies after == Some(
            init[j]->new,
        ) by {
            assert(init[j] == sent[j]);
        }
        if forall|j: int| 0 <= j < init.len() ==> !(#[trigger] init[j] is Focus) {
            assert forall|j: int| 0 <= j < sent.len() implies !(#[trigger] sent[j] is Focus) by {
                if j < init.len() {
                    assert(init[j] == sent[j]);
                }
            }
        }
        lemma_last_focused_of(init, active, after);
    } else if sent.len() > 0 {
        assert(sent[sent.len() - 1] is Focus);
    }
}

/// An event that comes again, with the compositor unchanged, moves no focus the second time: a
/// repeated activation sends nothing, and a repeated move only that the workspace moved.
pub proof fn law_focus_settles(event: Occurrence, active: Option<Workspace>)
    ensures
        ({
            let first = event.outcome(active);
            let second = event.outcome(first.active);
            &&& second.active == first.active
            &&& event.event.tells_of() matches Some((Change::Activated, _)) ==> second.sent.len()
                == 0
            &&& event.event.tells_of() matches Some((Change::Moved, _)) ==> {
                &&& first.sent.len() == 0 ==> second.sent.len() == 0
                &&& first.sent.len() > 0 ==> second.sent.len() == 1 && second.sent[0] is Move
            }
        }),
{
}

/// An event costs few messages: a new workspace one, an activation none or two, a move one or
/// three, and any other event at most one. An event about a workspace that cannot be found costs
/// none.
pub proof fn law_events_send_little(event: Occurrence, active: Option<Workspace>)
    ensures
        ({
            let n = event.outcome(active).sent.len();
            match event.event.tells_of() {
                None => n <= 1,
                Some((change, _)) => if event.found() is None {
                    n == 0
                } else {
                    match change {
                        Change::Added => n == 1,
                        Change::Activated => n == 0 || n == 2,
                        Change::Moved => n == 1 || n == 3,
                    }
                },
            }
        }),
{
}

/// A snapshot covers every listed workspace, in the order of the list. Where no two workspaces
/// share an identifier, each has all the windows on it, and none where no window is on it.
pub proof fn law_snapshot_covers_every_workspace(
    clients: Seq<HyprClient>,
    active: Option<Seq<char>>,
    workspaces: Seq<HyprWorkspace>,
)
    requires
        forall|i: int, j: int|
            0 <= i < j < workspaces.len() ==> (#[trigger] workspaces[i]).id != (
            #[trigger] workspaces[j]).id,
    ensures
        ({
            let taken = snapshot::snapshot(clients, active, workspaces);
            &&& taken.len() == workspaces.len()
            &&& forall|i: int|
                0 <= i < workspaces.len() ==> {
                    let id = workspaces[i].id as i64;
                    &&& (#[trigger] taken[i]).0 == id
                    &&& taken[i].1 == snapshot::windows_on(clients, active, id)
                    &&& (forall|c: int|
                        0 <= c < clients.len() ==> (#[trigger] clients[c]).workspace != id)
                        ==> taken[i].1.len() == 0
                }
        }),
{
    let taken = snapshot::snapshot(clients, active, workspaces);
    assert forall|i: int| 0 <= i < workspaces.len() implies {
        let id = workspaces[i].id as i64;
        &&& (#[trigger] taken[i]).0 == id
        &&& taken[i].1 == snapshot::windows_on(clients, active, id)
        &&& (forall|c: int| 0 <= c < clients.len() ==> (#[trigger] clients[c]).workspace != id)
            ==> taken[i].1.len() == 0
    } by {
        let id = workspaces[i].id as i64;
        assert(snapshot::unlisted_before(workspaces, i, id));
        if forall|c: int| 0 <= c < clients.len() ==> (#[trigger] clients[c]).workspace != id {
            lemma_filter_none(clients, snapshot::on(id));
        }
    }
}

/// The windows of a snapshot, one workspace after the other.
pub open spec fn all_windows(taken: Seq<(i64, Seq<WorkspaceWindow>)>) -> Seq<WorkspaceWindow>
    decreases taken.len(),
{
    if taken.len() == 0 {
        Seq::empty()
    } else {
        all_windows(taken.drop_last()) + taken.last().1
    }
}

/// The windows that meet a condition, as subscribers know them.
pub open spec fn windows_where(
    clients: Seq<HyprClient>,
    active: Option<Seq<char>>,
    p: spec_fn(HyprClient) -> bool,
) -> Seq<WorkspaceWindow> {
    clients.filter(p).map_values(
        |c: HyprClient|
            WorkspaceWindow {
                id: c.address,
                app_id: c.class,
                focused: active == Some(c.address@),
            },
    )
}

/// The condition of being on a listed workspace.
pub open spec fn on_listed(workspaces: Seq<HyprWorkspace>) -> spec_fn(HyprClient) -> bool {
    |c: HyprClient|
        exists|j: int| 0 <= j < workspaces.len() && (#[trigger] workspaces[j]).id == c.workspace
}

/// A snapshot holds the windows on listed workspaces, each of them once: none is left out, and none
/// is there twice.
pub proof fn law_snapshot_holds_each_window_once(
    clients: Seq<HyprClient>,
    active: Option<Seq<char>>,
    workspaces: Seq<HyprWorkspace>,
)
    ensures
        all_windows(snapshot::snapshot(clients, active, workspaces)).to_multiset()
            == windows_where(clients, active, on_listed(workspaces)).to_multiset(),
    decreases workspaces.len(),
{
    let taken = snapshot::snapshot(clients, active, workspaces);
    if workspaces.len() == 0 {
        lemma_filter_none(clients, on_listed(workspaces));
        assert(windows_where(clients, active, on_listed(workspaces)) =~= Seq::empty());
    } else {
        let init = workspaces.drop_last();
        let id = workspaces.last().id as i64;
        law_snapshot_holds_each_window_once(clients, active, init);
        assert forall|k: int, other: i64|
            0 <= k <= init.len() implies #[trigger] snapshot::unlisted_before(init, k, other)
            == snapshot::unlisted_before(workspaces, k, other) by {
            assert forall|j: int| 0 <= j < k implies init[j] == workspaces[j] by {}
            if snapshot::unlisted_before(init, k, other) {
                assert forall|j: int| 0 <= j < k implies (#[trigger] workspaces[j]).id != other by {
                    assert(init[j].id != other);
                }
            }
            if snapshot::unlisted_before(workspaces, k, other) {
                assert forall|j: int| 0 <= j < k implies (#[trigger] init[j]).id != other by {
                    assert(workspaces[j].id != other);
                }
            }
        }
        assert(taken.drop_last() =~= snapshot::snapshot(clients, active, init));
        assert forall|c: HyprClient| #[trigger] on_listed(workspaces)(c) == (on_listed(init)(c)
            || c.workspace == id) by {
            let n = init.len() as int;
            if c.workspace == id {
                assert(workspaces[n].id == c.workspace);
            } else if on_listed(workspaces)(c) {
                let j = choose|j: int|
                    0 <= j < workspaces.len() && (#[trigger] workspaces[j]).id == c.workspace;
                assert(init[j].id == c.workspace);
            }
            if on_listed(init)(c) {
                let j = choose|j: int| 0 <= j < n && (#[trigger] init[j]).id == c.workspace;
                assert(workspaces[j].id == c.workspace);
            }
        }
        if snapshot::unlisted_before(workspaces, init.len() as int, id) {
            assert forall|c: HyprClient| #[trigger]
                on_listed(init)(c) implies c.workspace != id by {}
            lemma_windows_split(
                clients,
                active,
                on_listed(workspaces),
                on_listed(init),
                snapshot::on(id),
            );
            assert(taken.last().1 == windows_where(clients, active, snapshot::on(id)));
            vstd::seq_lib::lemma_multiset_commutative(
                all_windows(taken.drop_last()),
                taken.last().1,
            );
        } else {
            assert forall|c: HyprClient| #[trigger]
                on_listed(workspaces)(c) == on_listed(init)(c) by {
                if c.workspace == id {
                    assert(!snapshot::unlisted_before(init, init.len() as int, id));
                }
            }
            assert(on_listed(workspaces) =~= on_listed(init));
            assert(all_windows(taken) =~= all_windows(taken.drop_last()));
        }
    }
}

/// Every window of a snapshot is one that the compositor lists, on the workspace under which the
/// snapshot has it.
pub proof fn law_snapshot_places_windows_where_they_are(
    clients: Seq<HyprClient>,
    active: Option<Seq<char>>,
    workspaces: Seq<HyprWorkspace>,
    i: int,
    j: int,
)
    requires
        0 <= i < workspaces.len(),
        0 <= j < snapshot::snapshot(clients, active, workspaces)[i].1.len(),
    ensures
        exists|c: int|
            0 <= c < clients.len() && (#[trigger] clients[c]).workspace == workspaces[i].id
                && snapshot::snapshot(clients, active, workspaces)[i].1[j] == (WorkspaceWindow {
                id: clients[c].address,
                app_id: clients[c].class,
                focused: active == Some(clients[c].address@),
            }),
{
    let id = workspaces[i].id as i64;
    lemma_filter_source(clients, snapshot::on(id), j);
    let c = choose|c: int|
        0 <= c < clients.len() && #[trigger] clients[c] == clients.filter(snapshot::on(id))[j]
            && snapshot::on(id)(clients[c]);
    assert(clients[c].workspace == workspaces[i].id);
}

/// Filtering by a condition that nothing meets leaves nothing.
proof fn lemma_filter_none<T>(s: Seq<T>, p: spec_fn(T) -> bool)
    requires
        forall|i: int| 0 <= i < s.len() ==> !p(#[trigger] s[i]),
    ensures
        s.filter(p).len() == 0,
    decreases s.len(),
{
    reveal(Seq::filter);
    if s.len() > 0 {
        lemma_filter_none(s.drop_last(), p);
    }
}

/// What filtering keeps was there, and meets the condition.
proof fn lemma_filter_source<T>(s: Seq<T>, p: spec_fn(T) -> bool, j: int)
    requires
        0 <= j < s.filter(p).len(),
    ensures
        exists|c: int| 0 <= c < s.len() && #[trigger] s[c] == s.filter(p)[j] && p(s[c]),
    decreases s.len(),
{
    reveal(Seq::filter);
    if s.len() > 0 {
        let init = s.drop_last();
        if j < init.filter(p).len() {
            lemma_filter_source(init, p, j);
            let c = choose|c: int|
                0 <= c < init.len() && #[trigger] init[c] == init.filter(p)[j] && p(init[c]);
            assert(s[c] == s.filter(p)[j]);
        } else {
            assert(s[s.len() - 1] == s.filter(p)[j]);
        }
    }
}

/// Of two conditions that exclude each other, the windows that meet the one and those that meet the
/// other are together those that meet either.
proof fn lemma_windows_split(
    clients: Seq<HyprClient>,
    active: Option<Seq<char>>,
    either: spec_fn(HyprClient) -> bool,
    p: spec_fn(HyprClient) -> bool,
    q: spec_fn(HyprClient) -> bool,
)
    requires
        forall|c: HyprClient| #[trigger] either(c) == (p(c) || q(c)),
        forall|c: HyprClient| #[trigger] p(c) ==> !q(c),
    ensures
        windows_where(clients, active, either).to_multiset() == windows_where(
            clients,
            active,
            p,
        ).to_multiset().add(windows_where(clients, active, q).to_multiset()),
    decreases clients.len(),
{
    broadcast use vstd::seq_lib::group_to_multiset_ensures;

    if clients.len() == 0 {
        lemma_windows_last(clients, active, either);
        assert(windows_where(clients, active, either) =~= Seq::empty());
        assert(windows_where(clients, active, p) =~= Seq::empty());
        assert(windows_where(clients, active, q) =~= Seq::empty());
        assert(windows_where(clients, active, either).to_multiset() =~= windows_where(
            clients,
            active,
            p,
        ).to_multiset().add(windows_where(clients, active, q).to_multiset()));
    } else {
        let c = clients.last();
        lemma_windows_split(clients.drop_last(), active, either, p, q);
        lemma_windows_last(clients, active, either);
        lemma_windows_last(clients, active, p);
        lemma_windows_last(clients, active, q);
        assert(either(c) == (p(c) || q(c)));
        assert(p(c) ==> !q(c));
        assert(windows_where(clients, active, either).to_multiset() =~= windows_where(
            clients,
            active,
            p,
        ).to_multiset().add(windows_where(clients, active, q).to_multiset()));
    }
}

/// The last listed window is the last of those that meet a condition, if it meets it.
proof fn lemma_windows_last(
    clients: Seq<HyprClient>,
    active: Option<Seq<char>>,
    p: spec_fn(HyprClient) -> bool,
)
    ensures
        clients.len() > 0 ==> windows_where(clients, active, p) == (if p(clients.last()) {
            windows_where(clients.drop_last(), active, p).push(
                snapshot::window(clients.last(), active),
            )
        } else {
            windows_where(clients.drop_last(), active, p)
        }),
        clients.len() == 0 ==> windows_where(clients, active, p).len() == 0,
{
    reveal(Seq::filter);
    if clients.len() > 0 {
        assert(windows_where(clients, active, p) =~= (if p(clients.last()) {
            windows_where(clients.drop_last(), active, p).push(
                snapshot::window(clients.last(), active),
            )
        } else {
            windows_where(clients.drop_last(), active, p)
        }));
    }
}

/// In a snapshot a window is highlighted exactly if its address is the active one.
pub proof fn law_snapshot_highlights_the_active_window(
    clients: Seq<HyprClient>,
    active: Option<Seq<char>>,
    workspaces: Seq<HyprWorkspace>,
)
    ensures
        forall|i: int, j: int|
            #![trigger snapshot::snapshot(clients, active, workspaces)[i].1[j]]
            0 <= i < workspaces.len() && 0 <= j < snapshot::snapshot(
                clients,
                active,
                workspaces,
            )[i].1.len() ==> {
                let shown = snapshot::snapshot(clients, active, workspaces)[i].1[j];
                shown.focused == (active == Some(shown.id@))
            },
{
}

/// A change of the active window alters which windows are highlighted, and neither which windows
/// there are nor on which workspaces they are.
pub proof fn law_focus_alters_only_the_highlight(
    clients: Seq<HyprClient>,
    before: Option<Seq<char>>,
    after: Option<Seq<char>>,
    workspaces: Seq<HyprWorkspace>,
)
    ensures
        ({
            let a = snapshot::snapshot(clients, before, workspaces);
            let b = snapshot::snapshot(clients, after, workspaces);
            &&& a.len() == b.len()
            &&& forall|i: int|
                0 <= i < a.len() ==> (#[trigger] a[i]).0 == b[i].0 && a[i].1.len()
                    == b[i].1.len()
            &&& forall|i: int, j: int|
                0 <= i < a.len() && 0 <= j < a[i].1.len() ==> (#[trigger] a[i].1[j]).id
                    == b[i].1[j].id && a[i].1[j].app_id == b[i].1[j].app_id
        }),
{
}

/// A new subscriber learns of every listed workspace, in the order of the list; exactly those that
/// go by the active name are focused.
pub proof fn law_subscribers_learn_every_workspace(
    workspaces: Seq<HyprWorkspace>,
    active_name: Option<Seq<char>>,
    monitors: Seq<HyprMonitor>,
)
    ensures
        ({
            let listed = subscription::described(workspaces, active_name, monitors);
            &&& listed.len() == workspaces.len()
            &&& forall|i: int|
                0 <= i < listed.len() ==> {
                    &&& (#[trigger] listed[i]).id == workspaces[i].id
                    &&& listed[i].name == workspaces[i].name
                    &&& listed[i].monitor == workspaces[i].monitor
                    &&& listed[i].visibility.has_focus() <==> active_name == Some(
                        workspaces[i].name@,
                    )
                }
        }),
{
}

/// A window is focused only after its workspace was pulled onto the current monitor: that comes
/// first, and where it fails nothing more is called.
pub proof fn law_window_focus_follows_the_workspace(c: Client, workspace_id: i64, id: Seq<char>)
    ensures
        ({
            let plan = c.focus_window_commands(workspace_id, id);
            let rest = client::rest_of(plan, true);
            let pull = if c.use_lua_dispatch {
                client::lua_focus(client::workspace_here_arg(workspace_id))
            } else {
                CommandView::Custom {
                    name: "focusworkspaceoncurrentmonitor"@,
                    arg: text::decimal(workspace_id as int),
                }
            };
            let focus = if c.use_lua_dispatch {
                client::lua_focus(client::window_arg(id))
            } else {
                CommandView::FocusWindow { address: address::canonical_address(id) }
            };
            &&& client::next_of(plan, true) == Some(pull)
            &&& client::next_of(rest, false) is None
            &&& client::rest_of(rest, false).len() == 0
            &&& client::next_of(rest, true) == Some(focus)
            &&& client::rest_of(rest, true).len() == 0
        }),
{
}

/// A request for a workspace names that workspace and no other, whatever its identifier.
pub proof fn law_requests_name_the_workspace(c: Client, id: i64)
    ensures
        match c.focus_command(id) {
            CommandView::Workspace(named) => named == id,
            CommandView::Custom { name, arg } => if c.use_lua_dispatch {
                name == "hl.dsp.focus"@ && arg == client::workspace_arg(id)
            } else {
                name == "workspace"@ && arg == text::decimal(id as int)
            },
            CommandView::FocusWindow { .. } => false,
        },
{
}

/// Requests for different workspaces call different dispatchers, or give them different
/// arguments.
pub proof fn law_requests_tell_workspaces_apart(c: Client, a: i64, b: i64)
    requires
        c.focus_command(a) == c.focus_command(b),
    ensures
        a == b,
{
    if c.use_lua_dispatch {
        lemma_enclosed(
            "{workspace=\""@,
            text::decimal(a as int),
            text::decimal(b as int),
            "\"}"@,
        );
    }
    if c.focus_command(a) is Custom {
        text::lemma_decimal_injective(a as int, b as int);
    }
}

/// Requests for different windows, or for windows on different workspaces, call different
/// dispatchers, or give them different arguments. Without a Lua configuration the addresses count
/// in their canonical form.
pub proof fn law_requests_tell_windows_apart(
    c: Client,
    a: i64,
    b: i64,
    first: Seq<char>,
    second: Seq<char>,
)
    requires
        c.focus_window_commands(a, first) == c.focus_window_commands(b, second),
    ensures
        a == b,
        c.use_lua_dispatch ==> first == second,
        address::canonical_address(first) == address::canonical_address(second),
{
    let x = c.focus_window_commands(a, first);
    let y = c.focus_window_commands(b, second);
    assert(x[0] == y[0] && x[1] == y[1]);
    if c.use_lua_dispatch {
        lemma_enclosed(
            "{workspace=\""@,
            text::decimal(a as int),
            text::decimal(b as int),
            "\",on_current_monitor=true}"@,
        );
        lemma_enclosed("{window=\"address:"@, first, second, "\"}"@);
    }
    text::lemma_decimal_injective(a as int, b as int);
}

/// A click on the icon of a window asks for that window on the workspace of the button, and the
/// last of the dispatchers that this takes focuses the window at its address.
pub proof fn law_a_click_focuses_the_window(
    b: Button,
    c: Client,
    windows: Seq<WorkspaceWindow>,
    i: int,
)
    requires
        0 <= i < windows.len(),
    ensures
        b.icon(windows, i).on_click == (WorkspaceMessage::FocusWindow {
            workspace_id: b.workspace_id,
            address: windows[i].id,
        }),
        ({
            let plan = c.focus_window_commands(b.workspace_id, windows[i].id@);
            plan.last() == (if c.use_lua_dispatch {
                client::lua_focus(client::window_arg(windows[i].id@))
            } else {
                CommandView::FocusWindow { address: address::canonical_address(windows[i].id@) }
            })
        }),
{
}

/// What stands between the same two pieces of text is the same where the whole is.
proof fn lemma_enclosed(before: Seq<char>, a: Seq<char>, b: Seq<char>, after: Seq<char>)
    requires
        before + a + after == before + b + after,
    ensures
        a == b,
{
    let x = before + a + after;
    let y = before + b + after;
    assert(x.len() == y.len());
    assert forall|i: int| 0 <= i < a.len() implies a[i] == b[i] by {
        assert(x[before.len() + i] == a[i]);
        assert(y[before.len() + i] == b[i]);
    }
    assert(a =~= b);
}

/// An address in canonical form stays as it is.
pub proof fn law_canonical_addresses_stay(id: Seq<char>)
    ensures
        address::canonical_address(address::canonical_address(id)) == address::canonical_address(
            id,
        ),
{
    assert("0x"@.is_prefix_of("0x"@ + id));
}

/// A layout name that ended up behind the keyboard name is recovered: the event means what it
/// would with both names in their places.
pub proof fn law_layouts_are_recovered(garbled: LayoutEvent, meant: LayoutEvent)
    requires
        garbled.layout_name@.len() == 0,
        garbled.keyboard_name@ == meant.keyboard_name@ + seq![','] + meant.layout_name@,
        meant.layout_name@.len() > 0,
        forall|i: int|
            0 <= i < meant.keyboard_name@.len() ==> #[trigger] meant.keyboard_name@[i] != ',',
        forall|i: int|
            0 <= i < meant.layout_name@.len() ==> #[trigger] meant.layout_name@[i] != ',',
    ensures
        garbled.layout() == meant.layout(),
{
    let s = garbled.keyboard_name@;
    let n = meant.keyboard_name@.len() as int;
    assert(search::is_first(s, text::comma(), n)) by {
        assert(s[n] == ',');
        assert forall|j: int| 0 <= j < n implies !#[trigger] text::comma()(s[j]) by {
            assert(s[j] == meant.keyboard_name@[j]);
        }
    }
    search::lemma_first_found(s, text::comma(), n);
    let rest = s.skip(n + 1);
    assert(rest =~= meant.layout_name@);
    assert(search::first_index(rest, text::comma()) is None);
}

/// A client is handed out only for the compositor that is running, and never for one that is not
/// supported.
pub proof fn law_clients_match_the_compositor(
    result: compositor::Result<compositor::Backend>,
    environment: compositor::Environment,
    features: compositor::Features,
    module: Seq<char>,
    on_sway: bool,
    on_hyprland: bool,
)
    requires
        ({
            let running = compositor::current(environment, features);
            ||| compositor::input_client(result, running, module, on_sway, on_hyprland)
            ||| compositor::workspace_client(result, running, features)
        }),
        result is Ok,
    ensures
        match result->Ok_0 {
            compositor::Backend::Sway => environment.swaysock && features.sway,
            compositor::Backend::Hyprland => !environment.swaysock
                && environment.hyprland_instance_signature && features.hyprland,
            compositor::Backend::Niri => !environment.swaysock
                && !environment.hyprland_instance_signature && environment.niri_socket
                && features.niri,
        },
{
}

/// The classes that show how open a workspace is.
pub open spec fn state_classes() -> Set<CssClass> {
    set![CssClass::Visible, CssClass::Focused, CssClass::Inactive]
}

/// The widget shows how open the workspace is.
pub open spec fn shows(classes: Set<CssClass>, open_state: OpenState) -> bool {
    &&& classes.contains(CssClass::Visible) == open_state.can_be_seen()
    &&& classes.contains(CssClass::Focused) == (open_state is Focused)
    &&& classes.contains(CssClass::Inactive) == (open_state is Closed)
}

/// After the changes for an open state a widget shows that state, whatever classes it had, and
/// keeps its other classes.
pub proof fn law_open_state_is_shown(classes: Set<CssClass>, open_state: OpenState)
    ensures
        ({
            let after = button::after_changes(classes, button::open_state_changes(open_state));
            &&& shows(after, open_state)
            &&& after.difference(state_classes()) == classes.difference(state_classes())
        }),
{
    lemma_three_changes(classes, button::open_state_changes(open_state));
    let after = button::after_changes(classes, button::open_state_changes(open_state));
    assert(after.difference(state_classes()) =~= classes.difference(state_classes()));
}

/// What a run of three changes comes to.
proof fn lemma_three_changes(classes: Set<CssClass>, changes: Seq<ClassChange>)
    requires
        changes.len() == 3,
    ensures
        button::after_changes(classes, changes) == button::after_change(
            button::after_change(button::after_change(classes, changes[0]), changes[1]),
            changes[2],
        ),
{
    reveal_with_fuel(button::after_changes, 4);
    assert(changes.drop_last().drop_last().drop_last().len() == 0);
}

/// What one run of changes after another comes to.
proof fn lemma_changes_add(classes: Set<CssClass>, a: Seq<ClassChange>, b: Seq<ClassChange>)
    ensures
        button::after_changes(classes, a + b) == button::after_changes(
            button::after_changes(classes, a),
            b,
        ),
    decreases b.len(),
{
    if b.len() == 0 {
        assert(a + b =~= a);
    } else {
        assert((a + b).drop_last() =~= a + b.drop_last());
        lemma_changes_add(classes, a, b.drop_last());
    }
}

/// The widget of a new button is marked as an item and shows how open the workspace is.
pub proof fn law_new_buttons_show_their_state(open_state: OpenState)
    ensures
        ({
            let after = button::after_changes(
                Set::empty(),
                seq![ClassChange::Add(CssClass::Item)] + button::open_state_changes(open_state),
            );
            &&& shows(after, open_state)
            &&& after.difference(state_classes()) == set![CssClass::Item]
        }),
{
    let start = seq![ClassChange::Add(CssClass::Item)];
    let item: Set<CssClass> = button::after_changes(Set::empty(), start);
    reveal_with_fuel(button::after_changes, 2);
    assert(start.drop_last().len() == 0);
    assert(item =~= set![CssClass::Item]);
    lemma_changes_add(Set::empty(), start, button::open_state_changes(open_state));
    law_open_state_is_shown(item, open_state);
    assert(item.difference(state_classes()) =~= set![CssClass::Item]);
}

/// A widget that shows its state goes on to do so when the state is set: where the state is the
/// same, its classes stay, and else they change to show the new one.
pub proof fn law_setting_a_state_keeps_it_shown(
    classes: Set<CssClass>,
    before: OpenState,
    after: OpenState,
)
    requires
        shows(classes, before),
    ensures
        ({
            let changes = if before == after {
                Seq::empty()
            } else {
                button::open_state_changes(after)
            };
            shows(button::after_changes(classes, changes), after)
        }),
{
    law_open_state_is_shown(classes, after);
}

/// Urgency is shown apart from how open the workspace is: the one leaves the classes of the other.
pub proof fn law_urgency_is_shown_apart(
    classes: Set<CssClass>,
    open_state: OpenState,
    urgent: bool,
)
    ensures
        ({
            let marked = button::after_change(classes, button::toggled(CssClass::Urgent, urgent));
            &&& marked.contains(CssClass::Urgent) == urgent
            &&& shows(classes, open_state) <==> shows(marked, open_state)
            &&& button::after_changes(marked, button::open_state_changes(open_state)).contains(
                CssClass::Urgent,
            ) == urgent
        }),
{
    let marked = button::after_change(classes, button::toggled(CssClass::Urgent, urgent));
    lemma_three_changes(marked, button::open_state_changes(open_state));
}

/// Where icons are not shared, every window has one of its own, in the order of the windows,
/// highlighted exactly if the window has the focus.
pub proof fn law_every_window_has_an_icon(b: Button, windows: Seq<WorkspaceWindow>, k: int)
    requires
        !b.icons.dedupe_window_icons,
        0 <= k <= windows.len(),
    ensures
        b.icons_before(windows, k).len() == k,
        forall|i: int|
            0 <= i < k ==> (#[trigger] b.icons_before(windows, k)[i]) == b.icon(windows, i)
                && b.icons_before(windows, k)[i].focused == windows[i].focused,
    decreases k,
{
    if k > 0 {
        law_every_window_has_an_icon(b, windows, k - 1);
    }
}

/// Where icons are shared, no two icons are of the same application.
pub proof fn law_shared_icons_differ(b: Button, windows: Seq<WorkspaceWindow>, k: int)
    requires
        b.icons.dedupe_window_icons,
        0 <= k <= windows.len(),
    ensures
        forall|i: int, j: int|
            0 <= i < j < b.icons_before(windows, k).len() ==> (#[trigger] b.icons_before(
                windows,
                k,
            )[i]).app_id@ != (#[trigger] b.icons_before(windows, k)[j]).app_id@,
    decreases k,
{
    if k > 0 {
        law_shared_icons_differ(b, windows, k - 1);
        lemma_icons_come_from_windows(b, windows, k - 1);
    }
}

/// Every icon is that of some window.
proof fn lemma_icons_come_from_windows(b: Button, windows: Seq<WorkspaceWindow>, k: int)
    requires
        0 <= k <= windows.len(),
    ensures
        forall|i: int|
            0 <= i < b.icons_before(windows, k).len() ==> exists|w: int|
                0 <= w < k && #[trigger] b.has_icon(windows, w) && #[trigger] b.icons_before(
                    windows,
                    k,
                )[i] == b.icon(windows, w),
    decreases k,
{
    if k > 0 {
        lemma_icons_come_from_windows(b, windows, k - 1);
        let shown = b.icons_before(windows, k);
        let earlier = b.icons_before(windows, k - 1);
        assert forall|i: int| 0 <= i < shown.len() implies exists|w: int|
            0 <= w < k && #[trigger] b.has_icon(windows, w) && #[trigger] shown[i] == b.icon(
                windows,
                w,
            ) by {
            if i < earlier.len() {
                assert(shown[i] == earlier[i]);
                let w = choose|w: int|
                    0 <= w < k - 1 && #[trigger] b.has_icon(windows, w) && earlier[i] == b.icon(
                        windows,
                        w,
                    );
                assert(b.has_icon(windows, w));
            } else {
                assert(b.has_icon(windows, k - 1));
            }
        }
    }
}

/// Where icons are shared, every application with a window has an icon, and it is highlighted
/// exactly if any window of the application has the focus.
pub proof fn law_every_application_has_an_icon(b: Button, windows: Seq<WorkspaceWindow>, w: int)
    requires
        b.icons.dedupe_window_icons,
        0 <= w < windows.len(),
    ensures
        exists|i: int|
            0 <= i < b.icons_before(windows, windows.len() as int).len() && (
            #[trigger] b.icons_before(windows, windows.len() as int)[i]).app_id@
                == windows[w].app_id@ && b.icons_before(windows, windows.len() as int)[i].focused
                == button::app_focused(windows, windows[w].app_id@),
    decreases w,
{
    if button::first_of_app(windows, w) {
        lemma_shown_icon(b, windows, w, windows.len() as int);
    } else {
        let j = choose|j: int|
            0 <= j < w && (#[trigger] windows[j]).app_id@ == windows[w].app_id@;
        law_every_application_has_an_icon(b, windows, j);
    }
}

/// The icon of a window that has one is among the icons.
proof fn lemma_shown_icon(b: Button, windows: Seq<WorkspaceWindow>, w: int, k: int)
    requires
        b.has_icon(windows, w),
        0 <= w < k <= windows.len(),
    ensures
        exists|i: int|
            0 <= i < b.icons_before(windows, k).len() && #[trigger] b.icons_before(windows, k)[i]
                == b.icon(windows, w),
    decreases k,
{
    let shown = b.icons_before(windows, k);
    if w == k - 1 {
        assert(shown[shown.len() - 1] == b.icon(windows, w));
    } else {
        lemma_shown_icon(b, windows, w, k - 1);
        let earlier = b.icons_before(windows, k - 1);
        let i = choose|i: int|
            0 <= i < earlier.len() && #[trigger] earlier[i] == b.icon(windows, w);
        assert(shown[i] == b.icon(windows, w));
    }
}

} // verus!
