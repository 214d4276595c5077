//! Workspaces, the windows on them, and the updates about both that subscribers receive.

use vstd::prelude::*;

verus! {

/// Indicates workspace visibility.
/// Visible workspaces have a boolean flag to indicate if they are also focused.
#[derive(Debug, Copy, Clone, PartialEq, Eq, Structural)]
pub enum Visibility {
    Visible { focused: bool },
    Hidden,
}

impl Visibility {
    /// Visible on some monitor, without the focus.
    pub fn visible() -> (visibility: Self)
        ensures
            visibility == (Visibility::Visible { focused: false }),
    {
        Self::Visible { focused: false }
    }

    /// Visible, with the focus.
    pub fn focused() -> (visibility: Self)
        ensures
            visibility == (Visibility::Visible { focused: true }),
    {
        Self::Visible { focused: true }
    }

    /// Tells whether the workspace can be seen on some monitor.
    pub fn is_visible(self) -> (visible: bool)
        ensures
            visible == (self is Visible),
    {
        matches!(self, Self::Visible { .. })
    }

    /// The workspace has the focus.
    pub open spec fn has_focus(self) -> bool {
        self == (Visibility::Visible { focused: true })
    }

    /// Tells whether the workspace has the focus.
    pub fn is_focused(self) -> (focused: bool)
        ensures
            focused == self.has_focus(),
    {
        if let Self::Visible { focused } = self {
            focused
        } else {
            false
        }
    }
}

/// A workspace of the compositor.
#[derive(Debug)]
pub struct Workspace {
    /// Unique identifier
    pub id: i64,
    /// The workspace index (e.g. for sorting)
    pub index: i64,
    /// Workspace friendly name
    pub name: String,
    /// Name of the monitor (output) the workspace is located on
    pub monitor: String,
    /// How visible the workspace is
    pub visibility: Visibility,
}

impl Clone for Workspace {
    fn clone(&self) -> (copy: Self)
        ensures
            copy == *self,
    {
        Workspace {
            id: self.id,
            index: self.index,
            name: self.name.clone(),
            monitor: self.monitor.clone(),
            visibility: self.visibility,
        }
    }
}

/// A single window (client) open on a workspace.
///
/// Emitted via [`WorkspaceUpdate::Windows`] so that an app icon per open window can be
/// rendered inside the workspace button.
#[derive(Debug)]
pub struct WorkspaceWindow {
    /// Compositor-unique window identifier (e.g. Hyprland address),
    /// used to focus the window when its icon is clicked.
    pub id: String,
    /// Application id / window class, used to resolve an icon.
    pub app_id: String,
    /// Whether this is the currently focused (active) window.
    pub focused: bool,
}

impl Clone for WorkspaceWindow {
    fn clone(&self) -> (copy: Self)
        ensures
            copy == *self,
    {
        WorkspaceWindow { id: self.id.clone(), app_id: self.app_id.clone(), focused: self.focused }
    }
}

/// What subscribers are told about workspaces and their windows.
#[derive(Debug)]
pub enum WorkspaceUpdate {
    /// Provides an initial list of workspaces.
    /// This is re-sent to all subscribers when a new subscription is created.
    Init(Vec<Workspace>),
    Add(Workspace),
    Remove(i64),
    Move(Workspace),
    /// Declares focus moved from the old workspace to the new.
    Focus { old: Option<Workspace>, new: Workspace },
    Rename { id: i64, name: String },
    /// The urgent state of a node changed.
    Urgent { id: i64, urgent: bool },
    /// The windows open on each current workspace: one atomic snapshot, a pair of workspace id
    /// and windows for each workspace, the empty ones too.
    ///
    /// Only emitted by compositors that can map windows to workspaces.
    Windows(Vec<(i64, Vec<WorkspaceWindow>)>),
    /// The active (focused) window changed, without the set of windows itself changing.
    ///
    /// Carries the newly-focused window's address, or `None` when focus left every mapped window.
    WindowFocusChanged { address: Option<String> },
    /// An update was triggered by the compositor but has no meaning here.
    /// Consumers ignore it.
    Unknown,
}

/// What a [`WorkspaceUpdate`] says, with sequences in place of vectors.
pub enum UpdateView {
    Init(Seq<Workspace>),
    Add(Workspace),
    Remove(i64),
    Move(Workspace),
    Focus { old: Option<Workspace>, new: Workspace },
    Rename { id: i64, name: String },
    Urgent { id: i64, urgent: bool },
    Windows(Seq<(i64, Seq<WorkspaceWindow>)>),
    WindowFocusChanged { address: Option<String> },
    Unknown,
}

/// A window snapshot, with sequences in place of vectors.
pub open spec fn snapshot_view(snapshot: Seq<(i64, Vec<WorkspaceWindow>)>) -> Seq<
    (i64, Seq<WorkspaceWindow>),
> {
    Seq::new(snapshot.len(), |i: int| (snapshot[i].0, snapshot[i].1@))
}

impl View for WorkspaceUpdate {
    type V = UpdateView;

    open spec fn view(&self) -> UpdateView {
        match *self {
            WorkspaceUpdate::Init(workspaces) => UpdateView::Init(workspaces@),
            WorkspaceUpdate::Add(workspace) => UpdateView::Add(workspace),
            WorkspaceUpdate::Remove(id) => UpdateView::Remove(id),
            WorkspaceUpdate::Move(workspace) => UpdateView::Move(workspace),
            WorkspaceUpdate::Focus { old, new } => UpdateView::Focus { old, new },
            WorkspaceUpdate::Rename { id, name } => UpdateView::Rename { id, name },
            WorkspaceUpdate::Urgent { id, urgent } => UpdateView::Urgent { id, urgent },
            WorkspaceUpdate::Windows(snapshot) => UpdateView::Windows(snapshot_view(snapshot@)),
            WorkspaceUpdate::WindowFocusChanged { address } => UpdateView::WindowFocusChanged {
                address,
            },
            WorkspaceUpdate::Unknown => UpdateView::Unknown,
        }
    }
}

/// Copies a window snapshot.
fn copy_snapshot(snapshot: &Vec<(i64, Vec<WorkspaceWindow>)>) -> (copy: Vec<
    (i64, Vec<WorkspaceWindow>),
>)
    ensures
        snapshot_view(copy@) == snapshot_view(snapshot@),
{
    let mut copy: Vec<(i64, Vec<WorkspaceWindow>)> = Vec::new();
    let mut i: usize = 0;
    while i < snapshot.len()
        invariant
            i <= snapshot.len(),
            copy.len() == i,
            forall|j: int|
                0 <= j < i ==> (#[trigger] copy@[j]).0 == snapshot@[j].0 && copy@[j].1@
                    == snapshot@[j].1@,
        decreases snapshot.len() - i,
    {
        let windows = snapshot[i].1.clone();
        assert(windows@ =~= snapshot@[i as int].1@);
        copy.push((snapshot[i].0, windows));
        i += 1;
    }
    assert(snapshot_view(copy@) =~= snapshot_view(snapshot@));
    copy
}

impl Clone for WorkspaceUpdate {
    fn clone(&self) -> (copy: Self)
        ensures
            copy@ == self@,
    {
        match self {
            Self::Init(workspaces) => {
                let listed = workspaces.clone();
                assert(listed@ =~= workspaces@);
                Self::Init(listed)
            },
            Self::Add(workspace) => Self::Add(workspace.clone()),
            Self::Remove(id) => Self::Remove(*id),
            Self::Move(workspace) => Self::Move(workspace.clone()),
            Self::Focus { old, new } => Self::Focus {
                old: match old {
                    Some(workspace) => Some(workspace.clone()),
                    None => None,
                },
                new: new.clone(),
            },
            Self::Rename { id, name } => Self::Rename { id: *id, name: name.clone() },
            Self::Urgent { id, urgent } => Self::Urgent { id: *id, urgent: *urgent },
            Self::Windows(snapshot) => Self::Windows(copy_snapshot(snapshot)),
            Self::WindowFocusChanged { address } => Self::WindowFocusChanged {
                address: match address {
                    Some(address) => Some(address.clone()),
                    None => None,
                },
            },
            Self::Unknown => Self::Unknown,
        }
    }
}

/// What a run of updates says, in the order of sending.
pub open spec fn messages(updates: Seq<WorkspaceUpdate>) -> Seq<UpdateView> {
    Seq::new(updates.len(), |i: int| updates[i]@)
}

/// The keyboard layout changed to the one with this name.
#[derive(Debug)]
pub struct KeyboardLayoutUpdate(pub String);

impl Clone for KeyboardLayoutUpdate {
    fn clone(&self) -> (copy: Self)
        ensures
            copy == *self,
    {
        KeyboardLayoutUpdate(self.0.clone())
    }
}

/// The binding mode changed.
#[derive(Debug)]
pub struct BindModeUpdate {
    /// The binding mode that became active.
    pub name: String,
    /// Whether the mode should be parsed as pango markup.
    pub pango_markup: bool,
}

impl Clone for BindModeUpdate {
    fn clone(&self) -> (copy: Self)
        ensures
            copy == *self,
    {
        BindModeUpdate { name: self.name.clone(), pango_markup: self.pango_markup }
    }
}

} // verus!
