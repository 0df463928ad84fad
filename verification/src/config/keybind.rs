use vstd::prelude::*;
use crate::wm::actions::ActionType;

verus! {

/// One key binding: a key code, a modifier mask, and the action they trigger.
#[derive(Clone, Debug, PartialEq, Eq)]
pub struct Keybind {
    pub keycode: u8,
    pub modkeys: u16,
    pub action: ActionType,
}

} // verus!
