//! What the host reports about its joypads for one frame.

use crate::buttons::JoypadButton;
use vstd::prelude::*;

verus! {

/// The host buttons that are held down during one frame, each named by its
/// host port and button. A button that was not recorded is not held.
pub struct InputSnapshot {
    held: Vec<(u32, JoypadButton)>,
}

impl View for InputSnapshot {
    type V = Set<(u32, JoypadButton)>;

    closed spec fn view(&self) -> Set<(u32, JoypadButton)> {
        self.held@.to_set()
    }
}

impl InputSnapshot {
    /// A snapshot in which no button is held.
    pub fn new() -> (snapshot: InputSnapshot)
        ensures
            snapshot@ == Set::<(u32, JoypadButton)>::empty(),
    {
        let snapshot = InputSnapshot { held: Vec::new() };
        assert(snapshot@ =~= Set::<(u32, JoypadButton)>::empty());
        snapshot
    }

    /// Records that a button is held.
    pub fn press(&mut self, port: u32, button: JoypadButton)
        ensures
            final(self)@ == old(self)@.insert((port, button)),
    {
        self.held.push((port, button));
        proof {
            let before = old(self).held@;
            let after = self.held@;
            assert forall|key: (u32, JoypadButton)|
                after.contains(key) <==> (before.contains(key) || key == (port, button)) by {
                if before.contains(key) {
                    let i = choose|i: int| 0 <= i < before.len() && before[i] == key;
                    assert(after[i] == key);
                }
                if key == (port, button) {
                    assert(after[before.len() as int] == key);
                }
            }
            assert(self@ =~= old(self)@.insert((port, button)));
        }
    }

    /// Whether a button is held.
    pub fn is_pressed(&self, port: u32, button: JoypadButton) -> (pressed: bool)
        ensures
            pressed == self@.contains((port, button)),
    {
        let mut i: usize = 0;
        while i < self.held.len()
            invariant
                i <= self.held@.len(),
                forall|j: int| 0 <= j < i ==> self.held@[j] != (port, button),
            decreases self.held@.len() - i,
        {
            let entry = self.held[i];
            if entry.0 == port && entry.1 == button {
                assert(self.held@[i as int] == (port, button));
                return true;
            }
            i = i + 1;
        }
        false
    }
}

} // verus!
