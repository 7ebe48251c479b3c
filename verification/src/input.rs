use vstd::prelude::*;
use crate::keybindings::Keybindings;

verus! {

/// Some key of `keys` is in `pressed`.
pub open spec fn any_pressed_spec(pressed: Seq<u32>, keys: Seq<u32>) -> bool {
    exists|i: int| 0 <= i < keys.len() && pressed.contains(#[trigger] keys[i])
}

/// A per-tick snapshot of the currently pressed physical keys, as the host's
/// input device reports them.
#[derive(Clone, PartialEq, Eq, Debug)]
pub struct InputState {
    pub pressed: Vec<u32>,
}

impl InputState {
    pub fn new(pressed: Vec<u32>) -> (r: InputState)
        ensures
            r.pressed == pressed,
    {
        InputState { pressed }
    }

    /// True iff at least one of `keys` is currently pressed.
    pub fn any_pressed(&self, keys: &Vec<u32>) -> (r: bool)
        ensures
            r == any_pressed_spec(self.pressed@, keys@),
    {
        let mut i: usize = 0;
        while i < keys.len()
            invariant
                i <= keys@.len(),
                forall|j: int| 0 <= j < i ==> !self.pressed@.contains(#[trigger] keys@[j]),
            decreases keys@.len() - i,
        {
            if contains_key(&self.pressed, keys[i]) {
                return true;
            }
            i += 1;
        }
        false
    }
}

/// True iff `key` occurs in `v`.
fn contains_key(v: &Vec<u32>, key: u32) -> (r: bool)
    ensures
        r == v@.contains(key),
{
    let mut i: usize = 0;
    while i < v.len()
        invariant
            i <= v@.len(),
            forall|j: int| 0 <= j < i ==> v@[j] != key,
        decreases v@.len() - i,
    {
        if v[i] == key {
            return true;
        }
        i += 1;
    }
    false
}

/// The paddle-movement intent read from the input snapshot: -1 if any
/// move-left key is pressed, else +1 if any move-right key is pressed, else
/// 0. Left takes precedence when both are held. The serve binding is
/// reserved and not consumed here.
pub open spec fn move_direction_spec(input: InputState, keybindings: Keybindings) -> int {
    if any_pressed_spec(input.pressed@, keybindings.move_left@) {
        -1
    } else if any_pressed_spec(input.pressed@, keybindings.move_right@) {
        1
    } else {
        0
    }
}

/// Maps the input snapshot and the binding table to a signed movement
/// direction, checking the move-left binding before the move-right one.
pub fn move_direction(input: &InputState, keybindings: &Keybindings) -> (d: i64)
    ensures
        d == move_direction_spec(*input, *keybindings),
{
    if input.any_pressed(&keybindings.move_left) {
        -1
    } else if input.any_pressed(&keybindings.move_right) {
        1
    } else {
        0
    }
}

/// The input mapper is a pure function of the snapshot and the binding
/// table: any two directions read from the same pair are equal, so repeated
/// calls within a tick agree.
pub proof fn lemma_move_direction_idempotent(
    input: InputState,
    keybindings: Keybindings,
    d1: int,
    d2: int,
)
    requires
        d1 == move_direction_spec(input, keybindings),
        d2 == move_direction_spec(input, keybindings),
    ensures
        d1 == d2,
{
}

} // verus!
