//! Input mapping: the fixed table from raw key identifiers to the
//! abstract actions of the engine.  Unrecognized identifiers map to no
//! action; the reserved actions have no key bound to them.

use vstd::prelude::*;
use vstd::string::StrSliceExecFns;

verus! {

/// The abstract actions a caller can request of the engine.  The last
/// three are reserved: no key maps to them and they are no-ops.
#[derive(Clone, Copy, Debug, PartialEq, Eq, Structural)]
pub enum Action {
    ShiftLeft,
    ShiftRight,
    RotateRight,
    RotateLeft,
    SoftDrop,
    HardDrop,
    Hold,
    Pause,
}

/// The fixed table from raw key identifiers to abstract actions.
pub open spec fn key_action(key: Seq<char>) -> Option<Action> {
    if key == "ArrowLeft"@ || key == "Numpad4"@ {
        Some(Action::ShiftLeft)
    } else if key == "ArrowRight"@ || key == "Numpad6"@ {
        Some(Action::ShiftRight)
    } else if key == "ArrowUp"@ || key == "KeyX"@ || key == "Numpad1"@ || key == "Numpad5"@
        || key == "Numpad9"@ {
        Some(Action::RotateRight)
    } else if key == "ControlLeft"@ || key == "ControlRight"@ || key == "KeyZ"@ || key
        == "Numpad3"@ || key == "Numpad7"@ {
        Some(Action::RotateLeft)
    } else if key == "ArrowDown"@ || key == "Numpad2"@ {
        Some(Action::SoftDrop)
    } else {
        None
    }
}

/// Whether two string slices hold the same character sequence.
pub fn str_eq(a: &str, b: &str) -> (r: bool)
    ensures
        r == (a@ == b@),
{
    let la = a.unicode_len();
    let lb = b.unicode_len();
    if la != lb {
        return false;
    }
    let mut i: usize = 0;
    while i < la
        invariant
            0 <= i <= la,
            la as nat == a@.len(),
            la as nat == b@.len(),
            forall|j: int| 0 <= j < i as int ==> a@[j] == b@[j],
        decreases la - i,
    {
        let ca = a.get_char(i);
        let cb = b.get_char(i);
        if ca != cb {
            return false;
        }
        i = i + 1;
    }
    proof {
        assert(a@ =~= b@);
    }
    true
}

/// Look up the abstract action for a raw key identifier.
pub fn action_for_key(key: &str) -> (a: Option<Action>)
    ensures
        a == key_action(key@),
{
    if str_eq(key, "ArrowLeft") || str_eq(key, "Numpad4") {
        Some(Action::ShiftLeft)
    } else if str_eq(key, "ArrowRight") || str_eq(key, "Numpad6") {
        Some(Action::ShiftRight)
    } else if str_eq(key, "ArrowUp") || str_eq(key, "KeyX") || str_eq(key, "Numpad1") || str_eq(
        key,
        "Numpad5",
    ) || str_eq(key, "Numpad9") {
        Some(Action::RotateRight)
    } else if str_eq(key, "ControlLeft") || str_eq(key, "ControlRight") || str_eq(key, "KeyZ")
        || str_eq(key, "Numpad3") || str_eq(key, "Numpad7") {
        Some(Action::RotateLeft)
    } else if str_eq(key, "ArrowDown") || str_eq(key, "Numpad2") {
        Some(Action::SoftDrop)
    } else {
        None
    }
}

} // verus!
