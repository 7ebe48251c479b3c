use vstd::prelude::*;
use crate::constants::{KEY_ARROW_LEFT, KEY_ARROW_RIGHT, KEY_SPACE};

verus! {

/// The binding table: for each logical action, the ordered list of physical
/// keys that trigger it. The host's configuration loader fills it in (falling
/// back to `Keybindings::default()` when loading fails); the core only reads
/// it.
#[derive(Clone, PartialEq, Eq, Debug)]
pub struct Keybindings {
    pub move_left: Vec<u32>,
    pub move_right: Vec<u32>,
    pub serve: Vec<u32>,
}

impl Default for Keybindings {
    /// The hardcoded default bindings: arrow-left, arrow-right and space.
    fn default() -> (r: Keybindings)
        ensures
            r.move_left@ == seq![KEY_ARROW_LEFT],
            r.move_right@ == seq![KEY_ARROW_RIGHT],
            r.serve@ == seq![KEY_SPACE],
    {
        let move_left = vec![KEY_ARROW_LEFT];
        let move_right = vec![KEY_ARROW_RIGHT];
        let serve = vec![KEY_SPACE];
        proof {
            assert(move_left@ =~= seq![KEY_ARROW_LEFT]);
            assert(move_right@ =~= seq![KEY_ARROW_RIGHT]);
            assert(serve@ =~= seq![KEY_SPACE]);
        }
        Keybindings { move_left, move_right, serve }
    }
}

} // verus!
