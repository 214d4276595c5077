//! Keyboard layouts and binding modes.

use vstd::prelude::*;
#[allow(unused_imports)]
use vstd::string::*;
use crate::ipc::{Fault, HyprKeyboard, IpcError};
#[allow(unused_imports)]
use crate::{search, text};
use crate::text::cut_second_field;
use crate::workspace::{BindModeUpdate, KeyboardLayoutUpdate};

verus! {

/// A layout event of the compositor.
#[derive(Debug)]
pub struct LayoutEvent {
    pub keyboard_name: String,
    pub layout_name: String,
}

impl LayoutEvent {
    /// The layout that the event names. Where the layout name is empty, it stands in the keyboard
    /// name, behind a comma.
    pub open spec fn layout(self) -> Option<Seq<char>> {
        if self.layout_name@.len() == 0 {
            text::second_field(self.keyboard_name@)
        } else {
            Some(self.layout_name@)
        }
    }

    /// The update that a layout event calls for.
    pub fn layout_update(self) -> (update: Result<KeyboardLayoutUpdate, Fault>)
        ensures
            match self.layout() {
                Some(layout) => update matches Ok(update) && update.0@ == layout,
                None => update == Err::<KeyboardLayoutUpdate, Fault>(
                    Fault::NoLayout(self.keyboard_name),
                ),
            },
    {
        if self.layout_name.as_str().is_empty() {
            match cut_second_field(self.keyboard_name.as_str()) {
                Some(layout) => Ok(KeyboardLayoutUpdate(layout)),
                None => Err(Fault::NoLayout(self.keyboard_name)),
            }
        } else {
            Ok(KeyboardLayoutUpdate(self.layout_name))
        }
    }
}

/// The condition of being a primary keyboard.
pub open spec fn is_main() -> spec_fn(HyprKeyboard) -> bool {
    |k: HyprKeyboard| k.main
}

/// The first primary keyboard that a reply lists, or why there is none.
pub open spec fn main_keyboard_of(reply: Result<Vec<HyprKeyboard>, IpcError>) -> Result<
    HyprKeyboard,
    Fault,
> {
    match reply {
        Err(error) => Err(Fault::Devices(error)),
        Ok(keyboards) => match search::first(keyboards@, is_main()) {
            Some(keyboard) => Ok(keyboard),
            None => Err(Fault::NoMainKeyboard),
        },
    }
}

/// Finds the first primary keyboard that a reply lists.
fn main_keyboard(reply: Result<Vec<HyprKeyboard>, IpcError>) -> (keyboard: Result<
    HyprKeyboard,
    Fault,
>)
    ensures
        keyboard == main_keyboard_of(reply),
        reply matches Ok(keyboards) ==> forall|i: int|
            0 <= i < keyboards@.len() && (#[trigger] keyboards@[i]).main && (forall|j: int|
                0 <= j < i ==> !(#[trigger] keyboards@[j]).main) ==> keyboard == Ok::<HyprKeyboard, Fault>(
                keyboards@[i],
            ),
{
    let mut keyboards = match reply {
        Ok(keyboards) => keyboards,
        Err(error) => return Err(Fault::Devices(error)),
    };
    let ghost listed = keyboards@;
    let mut i: usize = 0;
    while i < keyboards.len()
        invariant
            i <= keyboards.len(),
            keyboards@ == listed,
            reply matches Ok(known) && known@ == listed,
            forall|j: int| 0 <= j < i ==> !#[trigger] is_main()(listed[j]),
            forall|j: int| 0 <= j < i ==> !(#[trigger] listed[j]).main,
        decreases keyboards.len() - i,
    {
        if keyboards[i].main {
            proof {
                assert(search::is_first(listed, is_main(), i as int));
                search::lemma_first_found(listed, is_main(), i as int);
            }
            return Ok(keyboards.swap_remove(i));
        }
        i += 1;
    }
    Err(Fault::NoMainKeyboard)
}

/// The name of the keyboard to be switched to its next layout: the primary one.
pub fn set_next_active(reply: Result<Vec<HyprKeyboard>, IpcError>) -> (device: Result<
    String,
    Fault,
>)
    ensures
        device == (match main_keyboard_of(reply) {
            Ok(keyboard) => Ok(keyboard.name),
            Err(fault) => Err(fault),
        }),
        reply matches Ok(keyboards) ==> forall|i: int|
            0 <= i < keyboards@.len() && (#[trigger] keyboards@[i]).main && (forall|j: int|
                0 <= j < i ==> !(#[trigger] keyboards@[j]).main) ==> device == Ok::<String, Fault>(
                keyboards@[i].name,
            ),
{
    match main_keyboard(reply) {
        Ok(keyboard) => Ok(keyboard.name),
        Err(fault) => Err(fault),
    }
}

/// What a new subscriber to keyboard layouts is sent: the layout of the primary keyboard.
pub fn current_layout(reply: Result<Vec<HyprKeyboard>, IpcError>) -> (update: Result<
    KeyboardLayoutUpdate,
    Fault,
>)
    ensures
        update == (match main_keyboard_of(reply) {
            Ok(keyboard) => Ok(KeyboardLayoutUpdate(keyboard.active_keymap)),
            Err(fault) => Err(fault),
        }),
        reply matches Ok(keyboards) ==> forall|i: int|
            0 <= i < keyboards@.len() && (#[trigger] keyboards@[i]).main && (forall|j: int|
                0 <= j < i ==> !(#[trigger] keyboards@[j]).main) ==> update == Ok::<KeyboardLayoutUpdate, Fault>(
                KeyboardLayoutUpdate(keyboards@[i].active_keymap),
            ),
{
    match main_keyboard(reply) {
        Ok(keyboard) => Ok(KeyboardLayoutUpdate(keyboard.active_keymap)),
        Err(fault) => Err(fault),
    }
}

/// The update that a change of the binding mode calls for. The name is plain text.
pub fn bind_mode_update(bind_mode: String) -> (update: BindModeUpdate)
    ensures
        update == (BindModeUpdate { name: bind_mode, pango_markup: false }),
{
    BindModeUpdate { name: bind_mode, pango_markup: false }
}

} // verus!
