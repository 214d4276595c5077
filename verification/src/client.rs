//! Requests to the compositor: which dispatchers to call, with which arguments, in which order.

use vstd::prelude::*;
#[allow(unused_imports)]
use vstd::string::*;
#[allow(unused_imports)]
use crate::{address, config, text};
use crate::address::window_address;
use crate::config::{detect_lua_config, ConfigError};
use crate::ipc::IpcError;
use crate::text::to_decimal;

verus! {

/// A dispatcher of the compositor, with its argument.
#[derive(Debug)]
pub enum DispatchCommand {
    /// The dispatcher of this name
    Custom { name: &'static str, arg: String },
    /// Focuses the workspace with this identifier.
    Workspace(i32),
    /// Focuses the window at this address.
    FocusWindow { address: String },
}

/// What a [`DispatchCommand`] says.
pub enum CommandView {
    Custom { name: Seq<char>, arg: Seq<char> },
    Workspace(i32),
    FocusWindow { address: Seq<char> },
}

impl View for DispatchCommand {
    type V = CommandView;

    open spec fn view(&self) -> CommandView {
        match *self {
            DispatchCommand::Custom { name, arg } => CommandView::Custom { name: name@, arg: arg@ },
            DispatchCommand::Workspace(id) => CommandView::Workspace(id),
            DispatchCommand::FocusWindow { address } => CommandView::FocusWindow {
                address: address@,
            },
        }
    }
}

/// What a run of commands says.
pub open spec fn commands(run: Seq<DispatchCommand>) -> Seq<CommandView> {
    Seq::new(run.len(), |i: int| run[i]@)
}

/// The argument that focuses the workspace `id`, under a Lua configuration.
pub open spec fn workspace_arg(id: i64) -> Seq<char> {
    "{workspace=\""@ + text::decimal(id as int) + "\"}"@
}

/// The argument that pulls the workspace `id` onto the current monitor, under a Lua configuration.
pub open spec fn workspace_here_arg(id: i64) -> Seq<char> {
    "{workspace=\""@ + text::decimal(id as int) + "\",on_current_monitor=true}"@
}

/// The argument that focuses the window at `address`, under a Lua configuration.
pub open spec fn window_arg(address: Seq<char>) -> Seq<char> {
    "{window=\"address:"@ + address + "\"}"@
}

/// The dispatcher that focuses, under a Lua configuration.
pub open spec fn lua_focus(arg: Seq<char>) -> CommandView {
    CommandView::Custom { name: "hl.dsp.focus"@, arg }
}

/// Puts `middle` between two pieces of text.
fn enclose(before: &str, middle: &str, after: &str) -> (whole: String)
    ensures
        whole@ == before@ + middle@ + after@,
{
    before.to_owned().concat(middle).concat(after)
}

/// Builds the `hl.dsp.focus` argument that focuses a workspace.
pub fn focus_workspace_arg(id: i64) -> (arg: String)
    ensures
        arg@ == workspace_arg(id),
{
    enclose("{workspace=\"", to_decimal(id).as_str(), "\"}")
}

/// Builds the `hl.dsp.focus` argument that pulls a workspace onto the *current*
/// monitor, the Lua-config-provider equivalent of the legacy
/// `focusworkspaceoncurrentmonitor` dispatcher.
pub fn focus_workspace_here_arg(workspace_id: i64) -> (arg: String)
    ensures
        arg@ == workspace_here_arg(workspace_id),
{
    enclose("{workspace=\"", to_decimal(workspace_id).as_str(), "\",on_current_monitor=true}")
}

/// Builds the `hl.dsp.focus` argument that focuses a window by address, the
/// Lua-config-provider equivalent of the legacy `focuswindow` dispatcher.
pub fn focus_window_arg(address: &str) -> (arg: String)
    ensures
        arg@ == window_arg(address@),
{
    enclose("{window=\"address:", address, "\"}")
}

/// Dispatchers to be called one after the other, each only if the one before it succeeded.
#[derive(Debug)]
pub struct DispatchPlan {
    /// The dispatchers still to be called, the next one first
    pub pending: Vec<DispatchCommand>,
}

impl View for DispatchPlan {
    type V = Seq<CommandView>;

    open spec fn view(&self) -> Seq<CommandView> {
        commands(self.pending@)
    }
}

/// The dispatcher to call next, if any, given whether all went well so far.
pub open spec fn next_of(pending: Seq<CommandView>, well: bool) -> Option<CommandView> {
    if well && pending.len() > 0 {
        Some(pending[0])
    } else {
        None
    }
}

/// What is still to be called after that.
pub open spec fn rest_of(pending: Seq<CommandView>, well: bool) -> Seq<CommandView> {
    if well && pending.len() > 0 {
        pending.drop_first()
    } else {
        Seq::empty()
    }
}

impl DispatchPlan {
    /// Hands out the dispatcher to call next, given how the previous one went; a failure ends
    /// the plan. The first is handed out as after a success.
    pub fn next(&mut self, previous: &Result<(), IpcError>) -> (command: Option<DispatchCommand>)
        ensures
            next_of(old(self)@, previous is Ok) == (match command {
                Some(command) => Some(command@),
                None => None,
            }),
            final(self)@ == rest_of(old(self)@, previous is Ok),
    {
        match previous {
            Ok(_) => {
                if self.pending.len() > 0 {
                    let command = self.pending.remove(0);
                    assert(self@ =~= old(self)@.drop_first());
                    Some(command)
                } else {
                    assert(self@ =~= Seq::empty());
                    None
                }
            },
            Err(_) => {
                self.pending.clear();
                assert(self@ =~= Seq::empty());
                None
            },
        }
    }
}

/// The client of the compositor, as far as requests depend on it.
#[derive(Debug)]
pub struct Client {
    /// Whether dispatchers take Lua arguments
    pub use_lua_dispatch: bool,
}

impl Client {
    /// Creates the client for a compositor with this configuration provider.
    pub fn new(provider: &Result<String, ConfigError>) -> (client: Self)
        ensures
            client.use_lua_dispatch == config::is_lua(*provider),
    {
        Client { use_lua_dispatch: detect_lua_config(provider) }
    }

    /// The dispatcher that focuses the workspace `id`. An identifier that the legacy dispatcher's
    /// own form has no room for is handed to it as text.
    pub open spec fn focus_command(self, id: i64) -> CommandView {
        if self.use_lua_dispatch {
            lua_focus(workspace_arg(id))
        } else if i32::MIN <= id <= i32::MAX {
            CommandView::Workspace(id as i32)
        } else {
            CommandView::Custom { name: "workspace"@, arg: text::decimal(id as int) }
        }
    }

    /// The dispatchers that bring the workspace onto the current monitor and focus the window.
    pub open spec fn focus_window_commands(self, workspace_id: i64, id: Seq<char>) -> Seq<
        CommandView,
    > {
        if self.use_lua_dispatch {
            seq![lua_focus(workspace_here_arg(workspace_id)), lua_focus(window_arg(id))]
        } else {
            seq![
                CommandView::Custom {
                    name: "focusworkspaceoncurrentmonitor"@,
                    arg: text::decimal(workspace_id as int),
                },
                CommandView::FocusWindow { address: address::canonical_address(id) },
            ]
        }
    }

    /// Requests the workspace with this id is focused.
    pub fn focus(&self, id: i64) -> (command: DispatchCommand)
        ensures
            command@ == self.focus_command(id),
    {
        if self.use_lua_dispatch {
            DispatchCommand::Custom { name: "hl.dsp.focus", arg: focus_workspace_arg(id) }
        } else if i32::MIN as i64 <= id && id <= i32::MAX as i64 {
            DispatchCommand::Workspace(id as i32)
        } else {
            DispatchCommand::Custom { name: "workspace", arg: to_decimal(id) }
        }
    }

    /// Requests the window with this id (compositor address) is focused.
    ///
    /// The window's workspace is brought onto the current monitor FIRST, and then the window is
    /// focused: focusing the window alone ignores the current monitor and jumps to the window's
    /// home monitor.
    pub fn focus_window(&self, workspace_id: i64, id: String) -> (plan: DispatchPlan)
        ensures
            plan@ == self.focus_window_commands(workspace_id, id@),
    {
        let mut pending: Vec<DispatchCommand> = Vec::new();
        if self.use_lua_dispatch {
            pending.push(
                DispatchCommand::Custom {
                    name: "hl.dsp.focus",
                    arg: focus_workspace_here_arg(workspace_id),
                },
            );
            pending.push(
                DispatchCommand::Custom {
                    name: "hl.dsp.focus",
                    arg: focus_window_arg(id.as_str()),
                },
            );
        } else {
            pending.push(
                DispatchCommand::Custom {
                    name: "focusworkspaceoncurrentmonitor",
                    arg: to_decimal(workspace_id),
                },
            );
            pending.push(DispatchCommand::FocusWindow { address: window_address(id.as_str()) });
        }
        let plan = DispatchPlan { pending };
        assert(plan@ =~= self.focus_window_commands(workspace_id, id@));
        plan
    }
}

} // verus!
