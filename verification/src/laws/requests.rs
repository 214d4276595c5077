//! Requests to the compositor, told by the texts and numbers that they hold.

use vstd::prelude::*;
#[allow(unused_imports)]
use vstd::string::*;
#[allow(unused_imports)]
use crate::client::{Client, CommandView, DispatchCommand, DispatchPlan};
#[allow(unused_imports)]
use crate::config::ConfigError;
#[allow(unused_imports)]
use crate::input::LayoutEvent;
#[allow(unused_imports)]
use crate::{address, client, config, search, text};

verus! {

/// A number below ten is written by its digit alone, any other by what a tenth of it is written by
/// and its last digit, and a negative one by a minus sign and what its opposite is written by.
pub proof fn law_decimals_are_positional(n: int)
    ensures
        0 <= n < 10 ==> text::decimal(n).len() == 1 && text::decimal(n)[0] as int == '0' as int + n,
        n >= 10 ==> {
            &&& text::decimal(n).len() == text::decimal(n / 10).len() + 1
            &&& text::decimal(n).drop_last() == text::decimal(n / 10)
            &&& text::decimal(n).last() as int == '0' as int + n % 10
        },
        n < 0 ==> text::decimal(n) == seq!['-'] + text::decimal(-n),
{
    if n >= 10 {
        assert(text::decimal(n).drop_last() =~= text::decimal(n / 10));
    }
}

/// The second field stands behind the first comma, and ends before the next one or with the text;
/// there is none exactly where there is no comma.
pub proof fn law_fields_stand_between_commas(s: Seq<char>)
    ensures
        match text::second_field(s) {
            Some(field) => exists|i: int|
                {
                    &&& 0 <= i < s.len()
                    &&& #[trigger] s[i] == ','
                    &&& forall|j: int| 0 <= j < i ==> #[trigger] s[j] != ','
                    &&& i + 1 + field.len() <= s.len()
                    &&& field == s.subrange(i + 1, i + 1 + field.len())
                    &&& forall|j: int| 0 <= j < field.len() ==> #[trigger] field[j] != ','
                    &&& i + 1 + field.len() < s.len() ==> s[i + 1 + field.len()] == ','
                },
            None => forall|j: int| 0 <= j < s.len() ==> #[trigger] s[j] != ',',
        },
{
    search::lemma_first(s, text::comma());
    if exists|i: int| search::is_first(s, text::comma(), i) {
        let i = choose|i: int| search::is_first(s, text::comma(), i);
        search::lemma_first_found(s, text::comma(), i);
        assert forall|j: int| 0 <= j < i implies #[trigger] s[j] != ',' by {
            assert(!text::comma()(s[j]));
        }
        let rest = s.skip(i + 1);
        search::lemma_first(rest, text::comma());
        let field = text::second_field(s)->0;
        if exists|j: int| search::is_first(rest, text::comma(), j) {
            let k = choose|j: int| search::is_first(rest, text::comma(), j);
            search::lemma_first_found(rest, text::comma(), k);
            assert(field =~= s.subrange(i + 1, i + 1 + field.len()));
            assert forall|j: int| 0 <= j < field.len() implies #[trigger] field[j] != ',' by {
                assert(!text::comma()(rest[j]));
            }
            assert(rest[k] == s[i + 1 + k]);
        } else {
            assert(field =~= s.subrange(i + 1, i + 1 + field.len()));
            assert forall|j: int| 0 <= j < field.len() implies #[trigger] field[j] != ',' by {
                assert(!text::comma()(rest[j]));
            }
        }
        assert(s[i] == ',');
    } else {
        assert forall|j: int| 0 <= j < s.len() implies #[trigger] s[j] != ',' by {
            assert(!text::comma()(s[j]));
        }
    }
}

/// A layout event that names a layout means that layout; one that does not means the second field
/// of the keyboard's name.
pub proof fn law_layout_names_go_before_keyboard_names(event: LayoutEvent)
    ensures
        event.layout_name@.len() > 0 ==> event.layout() == Some(event.layout_name@),
        event.layout_name@.len() == 0 ==> event.layout() == text::second_field(
            event.keyboard_name@,
        ),
{
}

/// An address that starts with a zero and an x is canonical; any other is what follows them in its
/// canonical form.
pub proof fn law_canonical_addresses_are_hexadecimal(id: Seq<char>)
    ensures
        ({
            let canonical = address::canonical_address(id);
            &&& canonical.len() >= 2 && canonical[0] == '0' && canonical[1] == 'x'
            &&& canonical == (if id.len() >= 2 && id[0] == '0' && id[1] == 'x' {
                id
            } else {
                seq!['0', 'x'] + id
            })
        }),
{
    reveal_strlit("0x");
    assert("0x"@ =~= seq!['0', 'x']);
    if id.len() >= 2 && id[0] == '0' && id[1] == 'x' {
        assert(id.subrange(0, 2) =~= seq!['0', 'x']);
    }
}

/// The runtime directory is the one that is set, and else that of the user.
pub proof fn law_the_runtime_directory_is_the_users(
    dir: Seq<char>,
    uid: Seq<char>,
    other: Option<Seq<char>>,
)
    ensures
        config::runtime_dir(Some(dir), other) == Some(dir),
        config::runtime_dir(None, Some(uid)) == Some("/run/user/"@ + uid),
        config::runtime_dir(None, None) is None,
{
}

/// The provider is Lua exactly if it is known and goes by that name.
pub proof fn law_lua_goes_by_its_name(provider: Result<String, ConfigError>)
    ensures
        config::is_lua(provider) <==> (provider matches Ok(name) && name@ == seq!['l', 'u', 'a']),
{
    reveal_strlit("lua");
    assert("lua"@ =~= seq!['l', 'u', 'a']);
}

/// What is told of a dispatcher is all that it holds, and of a plan what is told of each that is
/// still to be called.
pub proof fn law_commands_are_told_whole(
    name: &'static str,
    arg: String,
    id: i32,
    plan: DispatchPlan,
)
    ensures
        (DispatchCommand::Custom { name, arg })@ == (CommandView::Custom {
            name: name@,
            arg: arg@,
        }),
        DispatchCommand::Workspace(id)@ == CommandView::Workspace(id),
        (DispatchCommand::FocusWindow { address: arg })@ == (CommandView::FocusWindow {
            address: arg@,
        }),
        plan@.len() == plan.pending@.len(),
        forall|i: int| 0 <= i < plan@.len() ==> #[trigger] plan@[i] == plan.pending@[i]@,
{
}

/// After a success the next dispatcher is the first of those still to be called, and the others
/// stay; after a failure, none is next and none stays.
pub proof fn law_plans_go_on_only_after_a_success(pending: Seq<CommandView>)
    ensures
        pending.len() > 0 ==> (client::next_of(pending, true) matches Some(next) && seq![next]
            + client::rest_of(pending, true) == pending),
        pending.len() == 0 ==> client::next_of(pending, true) is None && client::rest_of(
            pending,
            true,
        ).len() == 0,
        client::next_of(pending, false) is None,
        client::rest_of(pending, false).len() == 0,
{
    if pending.len() > 0 {
        assert(seq![pending[0]] + pending.drop_first() =~= pending);
    }
}

/// The texts that dispatchers take under a Lua configuration hold the workspace's identifier in
/// decimal notation, or the window's address as it is, between fixed texts.
pub proof fn law_lua_arguments_are_exact(id: i64, window: Seq<char>, arg: Seq<char>)
    ensures
        client::workspace_arg(id) == "{workspace=\""@ + text::decimal(id as int) + "\"}"@,
        client::workspace_here_arg(id) == "{workspace=\""@ + text::decimal(id as int)
            + "\",on_current_monitor=true}"@,
        client::window_arg(window) == "{window=\"address:"@ + window + "\"}"@,
        client::lua_focus(arg) == (CommandView::Custom { name: "hl.dsp.focus"@, arg }),
{
}

/// Which dispatcher focuses a workspace: under a Lua configuration the one for Lua, with the
/// identifier in its text; else the one that takes a number, where the identifier fits it, and by
/// its name, with the identifier as text, where it does not.
pub proof fn law_focus_requests_are_exact(c: Client, id: i64)
    ensures
        c.use_lua_dispatch ==> c.focus_command(id) == (CommandView::Custom {
            name: "hl.dsp.focus"@,
            arg: "{workspace=\""@ + text::decimal(id as int) + "\"}"@,
        }),
        !c.use_lua_dispatch && -0x8000_0000 <= id <= 0x7fff_ffff ==> (c.focus_command(
            id,
        ) matches CommandView::Workspace(named) && named == id),
        !c.use_lua_dispatch && !(-0x8000_0000 <= id <= 0x7fff_ffff) ==> c.focus_command(id) == (
        CommandView::Custom { name: "workspace"@, arg: text::decimal(id as int) }),
{
}

/// Which dispatchers focus a window: first the one that pulls its workspace onto the current
/// monitor, by the workspace's identifier, and then the one that focuses it, by its address.
pub proof fn law_window_requests_are_exact(c: Client, workspace_id: i64, id: Seq<char>)
    ensures
        ({
            let run = c.focus_window_commands(workspace_id, id);
            let number = text::decimal(workspace_id as int);
            &&& run.len() == 2
            &&& c.use_lua_dispatch ==> {
                &&& run[0] == (CommandView::Custom {
                    name: "hl.dsp.focus"@,
                    arg: "{workspace=\""@ + number + "\",on_current_monitor=true}"@,
                })
                &&& run[1] == (CommandView::Custom {
                    name: "hl.dsp.focus"@,
                    arg: "{window=\"address:"@ + id + "\"}"@,
                })
            }
            &&& !c.use_lua_dispatch ==> {
                &&& run[0] == (CommandView::Custom {
                    name: "focusworkspaceoncurrentmonitor"@,
                    arg: number,
                })
                &&& run[1] matches CommandView::FocusWindow { address }
                &&& address == (if id.len() >= 2 && id[0] == '0' && id[1] == 'x' {
                    id
                } else {
                    seq!['0', 'x'] + id
                })
            }
        }),
{
    law_canonical_addresses_are_hexadecimal(id);
}

} // verus!
