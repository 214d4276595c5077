//! Workspace buttons: their CSS classes, their window icons, and what a click on them asks for.

use vstd::prelude::*;
use crate::text::same_text;
use crate::workspace::WorkspaceWindow;

verus! {

/// How open the workspace of a button is.
#[derive(Debug, Copy, Clone, PartialEq, Eq, Structural)]
pub enum OpenState {
    /// Not open: the button stands for a workspace that could be opened.
    Closed,
    /// Open, but not visible on any monitor
    Hidden,
    /// Visible, but not focused
    Visible,
    /// Focused
    Focused,
}

impl OpenState {
    /// The workspace is visible, with or without the focus.
    pub open spec fn can_be_seen(self) -> bool {
        self is Visible || self is Focused
    }

    /// Tells whether the workspace is visible, with or without the focus.
    pub fn is_visible(self) -> (visible: bool)
        ensures
            visible == self.can_be_seen(),
    {
        matches!(self, Self::Visible | Self::Focused)
    }
}

/// A CSS class of a button or of a window icon in it.
#[derive(Debug, Copy, Clone, PartialEq, Eq, Structural)]
pub enum CssClass {
    Item,
    Visible,
    Focused,
    Inactive,
    Urgent,
    WindowIcon,
}

impl CssClass {
    /// The name of the class.
    pub fn name(self) -> (name: &'static str)
        ensures
            name@ == (match self {
                CssClass::Item => "item"@,
                CssClass::Visible => "visible"@,
                CssClass::Focused => "focused"@,
                CssClass::Inactive => "inactive"@,
                CssClass::Urgent => "urgent"@,
                CssClass::WindowIcon => "window-icon"@,
            }),
    {
        match self {
            Self::Item => "item",
            Self::Visible => "visible",
            Self::Focused => "focused",
            Self::Inactive => "inactive",
            Self::Urgent => "urgent",
            Self::WindowIcon => "window-icon",
        }
    }
}

/// A change to the CSS classes of a widget.
#[derive(Debug, Copy, Clone, PartialEq, Eq, Structural)]
pub enum ClassChange {
    Add(CssClass),
    Remove(CssClass),
}

/// The classes that a widget with the classes `classes` has after one change.
pub open spec fn after_change(classes: Set<CssClass>, change: ClassChange) -> Set<CssClass> {
    match change {
        ClassChange::Add(class) => classes.insert(class),
        ClassChange::Remove(class) => classes.remove(class),
    }
}

/// The classes that a widget with the classes `classes` has after a run of changes.
pub open spec fn after_changes(classes: Set<CssClass>, changes: Seq<ClassChange>) -> Set<CssClass>
    decreases changes.len(),
{
    if changes.len() == 0 {
        classes
    } else {
        after_change(after_changes(classes, changes.drop_last()), changes.last())
    }
}

/// Adds the class where it is wanted, and removes it elsewhere.
pub open spec fn toggled(class: CssClass, wanted: bool) -> ClassChange {
    if wanted {
        ClassChange::Add(class)
    } else {
        ClassChange::Remove(class)
    }
}

/// The changes that make a button show how open its workspace is.
pub open spec fn open_state_changes(open_state: OpenState) -> Seq<ClassChange> {
    seq![
        toggled(CssClass::Visible, open_state.can_be_seen()),
        toggled(CssClass::Focused, open_state is Focused),
        toggled(CssClass::Inactive, open_state is Closed),
    ]
}

/// Adds the class where it is wanted, and removes it elsewhere.
fn toggle(class: CssClass, wanted: bool) -> (change: ClassChange)
    ensures
        change == toggled(class, wanted),
{
    if wanted {
        ClassChange::Add(class)
    } else {
        ClassChange::Remove(class)
    }
}

/// What a click asks for.
#[derive(Debug)]
pub enum WorkspaceMessage {
    FocusWorkspace(i64),
    FocusWindow { workspace_id: i64, address: String },
}

impl Clone for WorkspaceMessage {
    fn clone(&self) -> (copy: Self)
        ensures
            copy == *self,
    {
        match self {
            Self::FocusWorkspace(id) => Self::FocusWorkspace(*id),
            Self::FocusWindow { workspace_id, address } => Self::FocusWindow {
                workspace_id: *workspace_id,
                address: address.clone(),
            },
        }
    }
}

/// The icon of a window, inside the button of its workspace.
#[derive(Debug)]
pub struct WindowIcon {
    /// The application whose icon is shown
    pub app_id: String,
    /// The size in pixels, both ways
    pub size: i32,
    /// Whether the icon is highlighted
    pub focused: bool,
    /// What a click on the icon asks for
    pub on_click: WorkspaceMessage,
}

impl WindowIcon {
    /// The CSS classes of the icon.
    pub fn classes(&self) -> (classes: Vec<CssClass>)
        ensures
            classes@ == (if self.focused {
                seq![CssClass::WindowIcon, CssClass::Focused]
            } else {
                seq![CssClass::WindowIcon]
            }),
    {
        let mut classes: Vec<CssClass> = Vec::new();
        classes.push(CssClass::WindowIcon);
        if self.focused {
            classes.push(CssClass::Focused);
        }
        classes
    }
}

/// How window icons are shown.
#[derive(Debug, Copy, Clone)]
pub struct IconSettings {
    /// Whether they are shown at all
    pub show_window_icons: bool,
    /// Their size in pixels, both ways
    pub window_icon_size: i32,
    /// Whether the windows of an application share one icon
    pub dedupe_window_icons: bool,
}

/// No window before index `i` is of the application of the window at `i`.
pub open spec fn first_of_app(windows: Seq<WorkspaceWindow>, i: int) -> bool {
    forall|j: int| 0 <= j < i ==> (#[trigger] windows[j]).app_id@ != windows[i].app_id@
}

/// Some window of the application has the focus.
pub open spec fn app_focused(windows: Seq<WorkspaceWindow>, app_id: Seq<char>) -> bool {
    exists|j: int|
        0 <= j < windows.len() && (#[trigger] windows[j]).app_id@ == app_id && windows[j].focused
}

/// A button of a workspace.
#[derive(Debug)]
pub struct Button {
    pub workspace_id: i64,
    pub monitor: String,
    pub open_state: OpenState,
    pub icons: IconSettings,
}

impl Button {
    /// The window at `i` has an icon: each window has, unless icons are shared and the window is
    /// not the first of its application.
    pub open spec fn has_icon(self, windows: Seq<WorkspaceWindow>, i: int) -> bool {
        !self.icons.dedupe_window_icons || first_of_app(windows, i)
    }

    /// The icon of the window at `i`. An icon that the windows of an application share is
    /// highlighted when any of them has the focus.
    pub open spec fn icon(self, windows: Seq<WorkspaceWindow>, i: int) -> WindowIcon {
        WindowIcon {
            app_id: windows[i].app_id,
            size: self.icons.window_icon_size,
            focused: if self.icons.dedupe_window_icons {
                app_focused(windows, windows[i].app_id@)
            } else {
                windows[i].focused
            },
            on_click: WorkspaceMessage::FocusWindow {
                workspace_id: self.workspace_id,
                address: windows[i].id,
            },
        }
    }

    /// The icons of the windows before index `k`, in the order of the windows.
    pub open spec fn icons_before(self, windows: Seq<WorkspaceWindow>, k: int) -> Seq<WindowIcon>
        decreases k,
    {
        if k <= 0 {
            Seq::empty()
        } else if self.has_icon(windows, k - 1) {
            self.icons_before(windows, k - 1).push(self.icon(windows, k - 1))
        } else {
            self.icons_before(windows, k - 1)
        }
    }

    /// Creates a button, and the changes that give its widget, which starts without any, the
    /// right CSS classes.
    pub fn new(id: i64, monitor: &str, open_state: OpenState, icons: IconSettings) -> (created: (
        Self,
        Vec<ClassChange>,
    ))
        ensures
            created.0.workspace_id == id,
            created.0.monitor@ == monitor@,
            created.0.open_state == open_state,
            created.0.icons == icons,
            created.1@ == seq![ClassChange::Add(CssClass::Item)] + open_state_changes(open_state),
    {
        let button = Button { workspace_id: id, monitor: monitor.to_owned(), open_state, icons };
        let mut changes: Vec<ClassChange> = Vec::new();
        changes.push(ClassChange::Add(CssClass::Item));
        let mut shown = button.apply_open_state();
        changes.append(&mut shown);
        (button, changes)
    }

    /// Replaces the per-window icons shown inside the workspace button.
    ///
    /// Nothing is to be replaced unless window icons are shown. Optionally deduplicates by
    /// application id.
    pub fn set_windows(&self, windows: &[WorkspaceWindow]) -> (shown: Option<Vec<WindowIcon>>)
        ensures
            if self.icons.show_window_icons {
                shown matches Some(shown) && shown@ == self.icons_before(
                    windows@,
                    windows@.len() as int,
                )
            } else {
                shown is None
            },
    {
        if !self.icons.show_window_icons {
            return None;
        }
        let mut shown: Vec<WindowIcon> = Vec::new();
        let mut i: usize = 0;
        while i < windows.len()
            invariant
                i <= windows.len(),
                shown@ == self.icons_before(windows@, i as int),
            decreases windows.len() - i,
        {
            let window = &windows[i];
            if !self.icons.dedupe_window_icons || is_first_of_app(windows, i) {
                let focused = if self.icons.dedupe_window_icons {
                    is_app_focused(windows, &window.app_id)
                } else {
                    window.focused
                };
                shown.push(
                    WindowIcon {
                        app_id: window.app_id.clone(),
                        size: self.icons.window_icon_size,
                        focused,
                        on_click: WorkspaceMessage::FocusWindow {
                            workspace_id: self.workspace_id,
                            address: window.id.clone(),
                        },
                    },
                );
            }
            i += 1;
        }
        Some(shown)
    }

    /// How open the workspace is.
    pub fn open_state(&self) -> (open_state: OpenState)
        ensures
            open_state == self.open_state,
    {
        self.open_state
    }

    /// Notes how open the workspace is, and hands out the changes to the CSS classes: none where
    /// nothing changed.
    pub fn set_open_state(&mut self, open_state: OpenState) -> (changes: Vec<ClassChange>)
        ensures
            *final(self) == (Button { open_state, ..*old(self) }),
            changes@ == (if old(self).open_state == open_state {
                Seq::empty()
            } else {
                open_state_changes(open_state)
            }),
    {
        if self.open_state == open_state {
            return Vec::new();
        }
        self.open_state = open_state;
        self.apply_open_state()
    }

    /// The changes to the CSS classes that make the button show how open its workspace is.
    fn apply_open_state(&self) -> (changes: Vec<ClassChange>)
        ensures
            changes@ == open_state_changes(self.open_state),
    {
        let open_state = self.open_state;
        let mut changes: Vec<ClassChange> = Vec::new();
        changes.push(toggle(CssClass::Visible, open_state.is_visible()));
        changes.push(toggle(CssClass::Focused, open_state == OpenState::Focused));
        changes.push(toggle(CssClass::Inactive, open_state == OpenState::Closed));
        changes
    }

    /// The change to the CSS classes that makes the button show whether its workspace is urgent.
    pub fn set_urgent(&self, urgent: bool) -> (change: ClassChange)
        ensures
            change == toggled(CssClass::Urgent, urgent),
    {
        toggle(CssClass::Urgent, urgent)
    }

    /// The workspace that the button stands for.
    pub fn workspace_id(&self) -> (id: i64)
        ensures
            id == self.workspace_id,
    {
        self.workspace_id
    }

    /// Makes the button stand for another workspace, which a click then asks for.
    pub fn set_workspace_id(&mut self, id: i64)
        ensures
            *final(self) == (Button { workspace_id: id, ..*old(self) }),
    {
        self.workspace_id = id;
    }

    /// What a click on the button asks for.
    pub fn on_click(&self) -> (message: WorkspaceMessage)
        ensures
            message == WorkspaceMessage::FocusWorkspace(self.workspace_id),
    {
        WorkspaceMessage::FocusWorkspace(self.workspace_id)
    }

    /// The name of the monitor that the workspace is on.
    pub fn monitor(&self) -> (monitor: &str)
        ensures
            monitor@ == self.monitor@,
    {
        self.monitor.as_str()
    }

    /// Notes the monitor that the workspace is on.
    pub fn set_monitor(&mut self, monitor: &str)
        ensures
            final(self).monitor@ == monitor@,
            *final(self) == (Button { monitor: final(self).monitor, ..*old(self) }),
    {
        self.monitor = monitor.to_owned();
    }
}

/// Tells whether no window before index `i` is of the application of the window at `i`.
fn is_first_of_app(windows: &[WorkspaceWindow], i: usize) -> (first: bool)
    requires
        i < windows@.len(),
    ensures
        first == first_of_app(windows@, i as int),
{
    let mut j: usize = 0;
    while j < i
        invariant
            j <= i < windows@.len(),
            forall|k: int|
                0 <= k < j ==> (#[trigger] windows@[k]).app_id@ != windows@[i as int].app_id@,
        decreases i - j,
    {
        if same_text(&windows[j].app_id, &windows[i].app_id) {
            return false;
        }
        j += 1;
    }
    true
}

/// Tells whether some window of the application has the focus.
fn is_app_focused(windows: &[WorkspaceWindow], app_id: &String) -> (focused: bool)
    ensures
        focused == app_focused(windows@, app_id@),
{
    let mut j: usize = 0;
    while j < windows.len()
        invariant
            j <= windows@.len(),
            forall|k: int|
                0 <= k < j ==> !((#[trigger] windows@[k]).app_id@ == app_id@
                    && windows@[k].focused),
        decreases windows.len() - j,
    {
        if windows[j].focused && same_text(&windows[j].app_id, app_id) {
            return true;
        }
        j += 1;
    }
    false
}

} // verus!
