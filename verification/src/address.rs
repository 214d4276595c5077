//! Window addresses.

use vstd::prelude::*;
#[allow(unused_imports)]
use vstd::string::*;

verus! {

/// The canonical form of the window address `id`: hexadecimal, behind `0x`.
pub open spec fn canonical_address(id: Seq<char>) -> Seq<char> {
    if "0x"@.is_prefix_of(id) {
        id
    } else {
        "0x"@ + id
    }
}

/// Calls `hyprland::shared::Address::new` and hands out the text of the address it makes.
///
/// Trusted: an `id` that starts with `0x` is kept as it is; any other gets `0x` put in front.
#[verifier::external_body]
pub(crate) fn window_address(id: &str) -> (address: String)
    ensures
        address@ == canonical_address(id@),
{
    hyprland::shared::Address::new(id).to_string()
}

} // verus!
