//! What the compositor reports over its socket, as far as decisions depend on it.

use vstd::prelude::*;
#[allow(unused_imports)]
use crate::text;
use crate::text::same_text;
use crate::workspace::{Visibility, Workspace};

verus! {

/// A workspace as the compositor lists it.
#[derive(Debug)]
pub struct HyprWorkspace {
    pub id: i32,
    pub name: String,
    /// Name of the monitor that the workspace is on
    pub monitor: String,
}

/// A monitor as the compositor lists it.
#[derive(Debug)]
pub struct HyprMonitor {
    /// Identifier of the workspace that the monitor shows
    pub active_workspace: i32,
}

/// A window as the compositor lists it.
#[derive(Debug)]
pub struct HyprClient {
    pub address: String,
    pub class: String,
    /// Identifier of the workspace that the window is on
    pub workspace: i32,
}

/// A keyboard as the compositor lists it.
#[derive(Debug)]
pub struct HyprKeyboard {
    pub name: String,
    pub active_keymap: String,
    /// Whether this is the primary keyboard
    pub main: bool,
}

/// How an event names a workspace.
#[derive(Debug)]
pub enum WorkspaceType {
    Regular(String),
    /// The special workspace, with its name if it has one
    Special(Option<String>),
}

/// A query that the compositor did not answer.
#[derive(Debug)]
pub struct IpcError {
    pub message: String,
}

/// Why an event or a request led to nothing.
#[derive(Debug)]
pub enum Fault {
    /// The active monitor changed, but the event named no workspace.
    NoWorkspaceName,
    /// The compositor lists no workspace of the name that the event gave.
    WorkspaceNotFound,
    /// The list of workspaces could not be read.
    Workspaces(IpcError),
    /// The compositor lists no window at the address that the event gave.
    ClientNotFound,
    /// The list of windows could not be read.
    Clients(IpcError),
    /// The list of input devices could not be read.
    Devices(IpcError),
    /// No keyboard is marked as the primary one.
    NoMainKeyboard,
    /// No layout name can be recovered from this keyboard name.
    NoLayout(String),
}

impl WorkspaceType {
    /// The name by which the compositor lists the workspace.
    pub open spec fn listed_name(self) -> Seq<char> {
        match self {
            WorkspaceType::Regular(name) => name@,
            WorkspaceType::Special(Some(name)) => name@,
            WorkspaceType::Special(None) => Seq::empty(),
        }
    }
}

/// The name by which the compositor lists a workspace: empty for the special workspace without
/// a name.
pub fn get_workspace_name(name: WorkspaceType) -> (listed: String)
    ensures
        listed@ == name.listed_name(),
{
    match name {
        WorkspaceType::Regular(name) => name,
        WorkspaceType::Special(name) => match name {
            Some(name) => name,
            None => String::new(),
        },
    }
}

/// Some monitor shows the workspace `id`.
pub open spec fn shown(monitors: Seq<HyprMonitor>, id: i32) -> bool {
    exists|i: int| 0 <= i < monitors.len() && (#[trigger] monitors[i]).active_workspace == id
}

/// Tells whether some monitor shows the workspace `id`.
pub fn is_shown(monitors: &Vec<HyprMonitor>, id: i32) -> (visible: bool)
    ensures
        visible == shown(monitors@, id),
{
    let mut i: usize = 0;
    while i < monitors.len()
        invariant
            i <= monitors.len(),
            forall|j: int| 0 <= j < i ==> (#[trigger] monitors@[j]).active_workspace != id,
        decreases monitors.len() - i,
    {
        if monitors[i].active_workspace == id {
            return true;
        }
        i += 1;
    }
    false
}

/// The monitors that a reply lists; none where the query failed.
pub open spec fn known_monitors(reply: Result<Vec<HyprMonitor>, IpcError>) -> Seq<HyprMonitor> {
    match reply {
        Ok(monitors) => monitors@,
        Err(_) => Seq::empty(),
    }
}

/// Creates a function which determines if a workspace is visible, from what the compositor said
/// of its monitors. Where they could not be read, no workspace is.
///
/// It is only valid so long as workspaces do not change, so it should not be stored long term.
pub fn create_is_visible(reply: Result<Vec<HyprMonitor>, IpcError>) -> (is_visible: impl Fn(
    &HyprWorkspace,
) -> bool)
    ensures
        forall|w: &HyprWorkspace| #[trigger] call_requires(is_visible, (w,)),
        forall|w: &HyprWorkspace, visible: bool| #[trigger]
            call_ensures(is_visible, (w,), visible) ==> visible == shown(
                known_monitors(reply),
                w.id,
            ),
{
    let monitors: Vec<HyprMonitor> = match reply {
        Ok(monitors) => monitors,
        Err(_) => Vec::new(),
    };
    assert(monitors@ =~= known_monitors(reply));
    move |w: &HyprWorkspace| -> (visible: bool)
        ensures
            visible == shown(monitors@, w.id),
        { is_shown(&monitors, w.id) }
}

/// The workspace is the one that goes by the active name.
pub open spec fn is_active(workspace: HyprWorkspace, active_name: Option<Seq<char>>) -> bool {
    active_name == Some(workspace.name@)
}

/// The visibility of a workspace, given the name of the active one and what monitors show.
pub open spec fn visibility_of(
    workspace: HyprWorkspace,
    active_name: Option<Seq<char>>,
    monitors: Seq<HyprMonitor>,
) -> Visibility {
    if is_active(workspace, active_name) {
        Visibility::Visible { focused: true }
    } else if shown(monitors, workspace.id) {
        Visibility::Visible { focused: false }
    } else {
        Visibility::Hidden
    }
}

impl HyprWorkspace {
    /// The workspace as subscribers know it.
    pub open spec fn described(self, visibility: Visibility) -> Workspace {
        Workspace {
            id: self.id as i64,
            index: self.id as i64,
            name: self.name,
            monitor: self.monitor,
            visibility,
        }
    }

    /// Tells whether this is the workspace that goes by the active name.
    pub fn has_active_name(&self, active_name: Option<&String>) -> (active: bool)
        ensures
            active == is_active(*self, text::chars(active_name)),
    {
        match active_name {
            Some(name) => same_text(&self.name, name),
            None => false,
        }
    }
}

impl Visibility {
    /// The visibility of a workspace, given the name of the active one.
    ///
    /// The workspace that goes by the active name is focused, and `is_visible` is not asked
    /// about it.
    pub fn of<F: FnOnce(&HyprWorkspace) -> bool>(
        workspace: &HyprWorkspace,
        active_name: Option<&String>,
        is_visible: F,
    ) -> (visibility: Self)
        requires
            !is_active(*workspace, text::chars(active_name)) ==> call_requires(
                is_visible,
                (workspace,),
            ),
        ensures
            if is_active(*workspace, text::chars(active_name)) {
                visibility == (Visibility::Visible { focused: true })
            } else {
                exists|visible: bool| #[trigger]
                    call_ensures(is_visible, (workspace,), visible) && visibility == (if visible {
                        Visibility::Visible { focused: false }
                    } else {
                        Visibility::Hidden
                    })
            },
    {
        if workspace.has_active_name(active_name) {
            Self::focused()
        } else if is_visible(workspace) {
            Self::visible()
        } else {
            Self::Hidden
        }
    }
}

impl From<(Visibility, HyprWorkspace)> for Workspace {
    fn from(pair: (Visibility, HyprWorkspace)) -> (workspace: Self) {
        let (visibility, workspace) = pair;
        Self {
            id: workspace.id as i64,
            index: workspace.id as i64,
            name: workspace.name,
            monitor: workspace.monitor,
            visibility,
        }
    }
}

impl vstd::std_specs::convert::FromSpecImpl<(Visibility, HyprWorkspace)> for Workspace {
    open spec fn obeys_from_spec() -> bool {
        true
    }

    open spec fn from_spec(pair: (Visibility, HyprWorkspace)) -> Self {
        pair.1.described(pair.0)
    }
}

} // verus!
