//! Keyboards, compositors and buttons, told by their fields.

use vstd::prelude::*;
#[allow(unused_imports)]
use vstd::string::*;
#[allow(unused_imports)]
use crate::button::{ClassChange, CssClass, OpenState};
#[allow(unused_imports)]
use crate::compositor::{Backend, Compositor, Environment, Error, Features};
#[allow(unused_imports)]
use crate::ipc::{Fault, HyprKeyboard, IpcError};
#[allow(unused_imports)]
use crate::{button, compositor, input, search};

verus! {

/// The keyboard that counts is marked as the main one, and none before it is. There is none only
/// where no listed keyboard is marked, or where the keyboards could not be read.
pub proof fn law_the_main_keyboard_is_marked(keyboards: Vec<HyprKeyboard>, error: IpcError)
    ensures
        match input::main_keyboard_of(Ok(keyboards)) {
            Ok(keyboard) => exists|i: int|
                {
                    &&& 0 <= i < keyboards@.len()
                    &&& #[trigger] keyboards@[i] == keyboard
                    &&& keyboards@[i].main
                    &&& forall|j: int| 0 <= j < i ==> !(#[trigger] keyboards@[j]).main
                },
            Err(fault) => fault == Fault::NoMainKeyboard && forall|i: int|
                0 <= i < keyboards@.len() ==> !(#[trigger] keyboards@[i]).main,
        },
        input::main_keyboard_of(Err(error)) == Err::<HyprKeyboard, Fault>(Fault::Devices(error)),
{
    let main = input::is_main();
    search::lemma_first(keyboards@, main);
    match search::first(keyboards@, main) {
        Some(keyboard) => {
            let i = choose|i: int| #[trigger]
                search::is_first(keyboards@, main, i) && keyboards@[i] == keyboard;
            assert forall|j: int| 0 <= j < i implies !(#[trigger] keyboards@[j]).main by {
                assert(!main(keyboards@[j]));
            }
            assert(keyboards@[i].main);
        },
        None => {
            assert forall|i: int| 0 <= i < keyboards@.len() implies !(
            #[trigger] keyboards@[i]).main by {
                assert(!main(keyboards@[i]));
            }
        },
    }
}

/// Keyboards that are not marked as the main one, put in front, change nothing.
pub proof fn law_other_keyboards_do_not_matter(
    keyboards: Vec<HyprKeyboard>,
    more: Vec<HyprKeyboard>,
    other: HyprKeyboard,
)
    requires
        !other.main,
        more@ == seq![other] + keyboards@,
    ensures
        input::main_keyboard_of(Ok(more)) == input::main_keyboard_of(Ok(keyboards)),
{
    let error = IpcError { message: other.name };
    law_the_main_keyboard_is_marked(keyboards, error);
    law_the_main_keyboard_is_marked(more, error);
    assert forall|i: int| 0 <= i < keyboards@.len() implies #[trigger] keyboards@[i] == more@[i
        + 1] by {}
    assert(more@[0] == other);
    match (input::main_keyboard_of(Ok(keyboards)), input::main_keyboard_of(Ok(more))) {
        (Ok(a), Ok(b)) => {
            let i = choose|i: int|
                {
                    &&& 0 <= i < keyboards@.len()
                    &&& #[trigger] keyboards@[i] == a
                    &&& keyboards@[i].main
                    &&& forall|j: int| 0 <= j < i ==> !(#[trigger] keyboards@[j]).main
                };
            let k = choose|k: int|
                {
                    &&& 0 <= k < more@.len()
                    &&& #[trigger] more@[k] == b
                    &&& more@[k].main
                    &&& forall|j: int| 0 <= j < k ==> !(#[trigger] more@[j]).main
                };
            assert(more@[i + 1].main);
            assert(keyboards@[k - 1].main);
        },
        (Ok(a), Err(_)) => {
            let i = choose|i: int|
                0 <= i < keyboards@.len() && #[trigger] keyboards@[i] == a && keyboards@[i].main;
            assert(!more@[i + 1].main);
        },
        (Err(_), Ok(b)) => {
            let k = choose|k: int|
                0 <= k < more@.len() && #[trigger] more@[k] == b && more@[k].main;
            assert(!keyboards@[k - 1].main);
        },
        _ => {},
    }
}

/// Which compositor is running: the first of Sway, Hyprland and Niri that makes itself known, if it
/// is compiled in.
pub proof fn law_the_first_known_compositor_runs(environment: Environment, features: Features)
    ensures
        ({
            let running = compositor::current(environment, features);
            &&& running == Compositor::Sway <==> environment.swaysock && features.sway
            &&& running == Compositor::Hyprland <==> !environment.swaysock
                && environment.hyprland_instance_signature && features.hyprland
            &&& running == Compositor::Niri <==> !environment.swaysock
                && !environment.hyprland_instance_signature && environment.niri_socket
                && features.niri
        }),
{
}

/// What an input module answers: on Sway and Hyprland their client where the module is compiled in
/// for them, and else that it is disabled; on any other, that it is supported on those two.
pub proof fn law_input_modules_answer(
    result: compositor::Result<Backend>,
    running: Compositor,
    module: Seq<char>,
    on_sway: bool,
    on_hyprland: bool,
)
    requires
        compositor::input_client(result, running, module, on_sway, on_hyprland),
    ensures
        result == Ok::<Backend, Error>(Backend::Sway) <==> running == Compositor::Sway && on_sway,
        result == Ok::<Backend, Error>(Backend::Hyprland) <==> running == Compositor::Hyprland
            && on_hyprland,
        result != Ok::<Backend, Error>(Backend::Niri),
        match result {
            Ok(_) => true,
            Err(Error::Disabled(name)) => name@ == module && (running == Compositor::Sway
                || running == Compositor::Hyprland),
            Err(Error::Unsupported(name, supported)) => {
                &&& name@ == module
                &&& running == Compositor::Niri || running == Compositor::Unsupported
                &&& supported@.len() == 2
                &&& supported@[0]@ == "sway"@
                &&& supported@[1]@ == "hyprland"@
            },
            Err(Error::Other(_)) => false,
        },
{
    if let Err(Error::Unsupported(name, supported)) = result {
        let told = compositor::names(supported@);
        assert(told == seq!["sway"@, "hyprland"@]);
        assert(told.len() == 2);
        assert(told[0] == supported@[0]@ && told[1] == supported@[1]@);
    }
}

/// What the workspaces module answers: on Sway, Hyprland and Niri their client where the module is
/// compiled in for them, and else that it is disabled; on any other, that it is supported on those
/// three.
pub proof fn law_the_workspaces_module_answers(
    result: compositor::Result<Backend>,
    running: Compositor,
    features: Features,
)
    requires
        compositor::workspace_client(result, running, features),
    ensures
        result == Ok::<Backend, Error>(Backend::Sway) <==> running == Compositor::Sway
            && features.workspaces_sway,
        result == Ok::<Backend, Error>(Backend::Hyprland) <==> running == Compositor::Hyprland
            && features.workspaces_hyprland,
        result == Ok::<Backend, Error>(Backend::Niri) <==> running == Compositor::Niri
            && features.workspaces_niri,
        match result {
            Ok(_) => true,
            Err(Error::Disabled(name)) => name@ == "workspaces"@ && running
                != Compositor::Unsupported,
            Err(Error::Unsupported(name, supported)) => {
                &&& name@ == "workspaces"@
                &&& running == Compositor::Unsupported
                &&& supported@.len() == 3
                &&& supported@[0]@ == "sway"@
                &&& supported@[1]@ == "hyprland"@
                &&& supported@[2]@ == "niri"@
            },
            Err(Error::Other(_)) => false,
        },
{
    if let Err(Error::Unsupported(name, supported)) = result {
        let told = compositor::names(supported@);
        assert(told == seq!["sway"@, "hyprland"@, "niri"@]);
        assert(told.len() == 3);
        assert(told[0] == supported@[0]@ && told[1] == supported@[1]@ && told[2]
            == supported@[2]@);
    }
}

/// The changes for an open state name each of the three classes once: they add the visible class
/// to a visible or focused workspace, the focused class to a focused one and the inactive class to
/// a closed one, and remove the others.
pub proof fn law_state_changes_are_exact(open_state: OpenState)
    ensures
        ({
            let changes = button::open_state_changes(open_state);
            let seen = open_state == OpenState::Visible || open_state == OpenState::Focused;
            &&& changes.len() == 3
            &&& changes[0] == (if seen {
                ClassChange::Add(CssClass::Visible)
            } else {
                ClassChange::Remove(CssClass::Visible)
            })
            &&& changes[1] == (if open_state == OpenState::Focused {
                ClassChange::Add(CssClass::Focused)
            } else {
                ClassChange::Remove(CssClass::Focused)
            })
            &&& changes[2] == (if open_state == OpenState::Closed {
                ClassChange::Add(CssClass::Inactive)
            } else {
                ClassChange::Remove(CssClass::Inactive)
            })
            &&& open_state.can_be_seen() <==> seen
        }),
{
}

/// A class that is wanted is added and one that is not is removed; adding a class gives it to the
/// widget, removing it takes it, and the other classes stay.
pub proof fn law_class_changes_touch_one_class(
    classes: Set<CssClass>,
    class: CssClass,
    other: CssClass,
)
    ensures
        button::toggled(class, true) == ClassChange::Add(class),
        button::toggled(class, false) == ClassChange::Remove(class),
        button::after_change(classes, ClassChange::Add(class)).contains(class),
        !button::after_change(classes, ClassChange::Remove(class)).contains(class),
        other != class ==> {
            &&& button::after_change(classes, ClassChange::Add(class)).contains(other)
                == classes.contains(other)
            &&& button::after_change(classes, ClassChange::Remove(class)).contains(other)
                == classes.contains(other)
        },
{
}

/// A run of changes takes effect one after the other.
pub proof fn law_class_changes_take_effect_in_order(
    classes: Set<CssClass>,
    changes: Seq<ClassChange>,
    next: ClassChange,
)
    ensures
        button::after_changes(classes, seq![]) == classes,
        button::after_changes(classes, changes.push(next)) == button::after_change(
            button::after_changes(classes, changes),
            next,
        ),
{
    assert(changes.push(next).drop_last() =~= changes);
}

} // verus!
