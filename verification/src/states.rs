//! The key state of every engine command, and the rule that brings it up to
//! date from one frame's host input.

use crate::bindings::{is_bound, InputBinding, InputBindings};
use crate::buttons::{lemma_slot_injective, next_state, InputCommand, JoypadButton, KeyState};
use crate::snapshot::InputSnapshot;
use vstd::prelude::*;

verus! {

/// The key state of each engine command that has been observed so far. A
/// command gets its state the first time a frame observes it.
pub struct InputStates {
    slots: [Option<KeyState>; 16],
}

impl View for InputStates {
    type V = Map<InputCommand, KeyState>;

    closed spec fn view(&self) -> Map<InputCommand, KeyState> {
        Map::new(
            |command: InputCommand| self.slots@[command.spec_slot()] is Some,
            |command: InputCommand| self.slots@[command.spec_slot()]->0,
        )
    }
}

impl InputStates {
    /// No command has a state yet.
    pub fn new() -> (states: InputStates)
        ensures
            states@ == Map::<InputCommand, KeyState>::empty(),
    {
        let states = InputStates { slots: [None;16] };
        assert(states@ =~= Map::<InputCommand, KeyState>::empty());
        states
    }

    /// The state of a command, if it has one.
    pub fn get(&self, command: InputCommand) -> (state: Option<KeyState>)
        ensures
            state == self@.get(command),
    {
        self.slots[command.slot()]
    }

    /// Gives a command its state.
    pub fn set(&mut self, command: InputCommand, state: KeyState)
        ensures
            final(self)@ == old(self)@.insert(command, state),
    {
        self.slots[command.slot()] = Some(state);
        proof {
            assert forall|other: InputCommand| other != command implies self.slots@[other.spec_slot()]
                == old(self).slots@[other.spec_slot()] by {
                lemma_slot_injective(other, command);
            }
            assert(self@ =~= old(self)@.insert(command, state));
        }
    }
}

/// The states after one entry of the map has been observed: the entry's
/// command gets the state that follows from whether its host button is held.
pub open spec fn observed(
    states: Map<InputCommand, KeyState>,
    binding: InputBinding,
    held: Set<(u32, JoypadButton)>,
) -> Map<InputCommand, KeyState> {
    states.insert(
        binding.command,
        next_state(states.get(binding.command), held.contains(binding.key())),
    )
}

/// The states after the entries have been observed one after the other.
pub open spec fn reconciled(
    states: Map<InputCommand, KeyState>,
    entries: Seq<InputBinding>,
    held: Set<(u32, JoypadButton)>,
) -> Map<InputCommand, KeyState>
    decreases entries.len(),
{
    if entries.len() == 0 {
        states
    } else {
        observed(reconciled(states, entries.drop_last(), held), entries.last(), held)
    }
}

/// What observing entry `i` hands to the engine: its command, and the state
/// the command has once the entries up to and including `i` were observed.
pub open spec fn update_at(
    states: Map<InputCommand, KeyState>,
    entries: Seq<InputBinding>,
    held: Set<(u32, JoypadButton)>,
    i: int,
) -> (InputCommand, KeyState) {
    (entries[i].command, reconciled(states, entries.take(i + 1), held)[entries[i].command])
}

/// Observes every entry of the map in order: looks up whether its host button
/// is held, brings the state of its command up to date, and lists the command
/// with its new state for the engine.
pub fn reconcile_inputs(
    bindings: &InputBindings,
    states: &mut InputStates,
    held: &InputSnapshot,
) -> (updates: Vec<(InputCommand, KeyState)>)
    ensures
        final(states)@ == reconciled(old(states)@, bindings.entries(), held@),
        updates@.len() == bindings.entries().len(),
        forall|i: int|
            0 <= i < updates@.len() ==> updates@[i] == #[trigger] update_at(
                old(states)@,
                bindings.entries(),
                held@,
                i,
            ),
{
    let mut updates: Vec<(InputCommand, KeyState)> = Vec::new();
    let mut i: usize = 0;
    assert(bindings.entries().take(0) =~= Seq::<InputBinding>::empty());
    while i < bindings.len()
        invariant
            i <= bindings.entries().len(),
            states@ == reconciled(old(states)@, bindings.entries().take(i as int), held@),
            updates@.len() == i,
            forall|k: int|
                0 <= k < i ==> updates@[k] == #[trigger] update_at(
                    old(states)@,
                    bindings.entries(),
                    held@,
                    k,
                ),
        decreases bindings.entries().len() - i,
    {
        let binding = bindings.entry(i);
        let pressed = held.is_pressed(binding.port, binding.button);
        let state = match states.get(binding.command) {
            Some(previous) => previous.update_state(pressed),
            None => KeyState::new(pressed),
        };
        states.set(binding.command, state);
        updates.push((binding.command, state));
        proof {
            let next = bindings.entries().take(i + 1);
            assert(next.drop_last() =~= bindings.entries().take(i as int));
            assert(next.last() == binding);
        }
        i = i + 1;
    }
    assert(bindings.entries().take(i as int) =~= bindings.entries());
    updates
}

/// No command occurs in two entries.
pub open spec fn commands_distinct(entries: Seq<InputBinding>) -> bool {
    forall|i: int, j: int|
        0 <= i < j < entries.len() ==> (#[trigger] entries[i]).command != (
        #[trigger] entries[j]).command
}

/// Whether some entry drives `command`.
pub open spec fn is_driven(entries: Seq<InputBinding>, command: InputCommand) -> bool {
    exists|i: int| 0 <= i < entries.len() && (#[trigger] entries[i]).command == command
}

/// A command that no entry drives keeps the state it had, or stays without one.
pub proof fn lemma_undriven_command_untouched(
    states: Map<InputCommand, KeyState>,
    entries: Seq<InputBinding>,
    held: Set<(u32, JoypadButton)>,
    command: InputCommand,
)
    requires
        !is_driven(entries, command),
    ensures
        reconciled(states, entries, held).get(command) == states.get(command),
    decreases entries.len(),
{
    if entries.len() > 0 {
        let earlier = entries.drop_last();
        assert(entries[entries.len() - 1].command != command);
        assert forall|i: int| 0 <= i < earlier.len() implies (#[trigger] earlier[i]).command
            != command by {
            assert(entries[i].command != command);
        }
        lemma_undriven_command_untouched(states, earlier, held, command);
    }
}

/// Where every command has one entry at most, the state a driven command ends
/// up with follows from its state before and from its own host button alone.
pub proof fn lemma_driven_command_state(
    states: Map<InputCommand, KeyState>,
    entries: Seq<InputBinding>,
    held: Set<(u32, JoypadButton)>,
    i: int,
)
    requires
        commands_distinct(entries),
        0 <= i < entries.len(),
    ensures
        reconciled(states, entries, held).get(entries[i].command) == Some(
            next_state(states.get(entries[i].command), held.contains(entries[i].key())),
        ),
    decreases entries.len(),
{
    let earlier = entries.drop_last();
    let last = entries.len() - 1;
    if i == last {
        assert forall|k: int| 0 <= k < earlier.len() implies (#[trigger] earlier[k]).command
            != entries[i].command by {
            assert(entries[k].command != entries[last].command);
        }
        lemma_undriven_command_untouched(states, earlier, held, entries[i].command);
    } else {
        assert(earlier[i] == entries[i]);
        assert(commands_distinct(earlier)) by {
            assert forall|a: int, b: int| 0 <= a < b < earlier.len() implies (
            #[trigger] earlier[a]).command != (#[trigger] earlier[b]).command by {
                assert(entries[a].command != entries[b].command);
            }
        }
        lemma_driven_command_state(states, earlier, held, i);
        assert(entries[i].command != entries[last].command);
    }
}

/// Host buttons that the map does not name have no effect: two frames whose
/// held buttons differ only in such buttons leave every command in the same
/// state.
pub proof fn lemma_unbound_buttons_ignored(
    states: Map<InputCommand, KeyState>,
    entries: Seq<InputBinding>,
    held: Set<(u32, JoypadButton)>,
    other: Set<(u32, JoypadButton)>,
)
    requires
        forall|key: (u32, JoypadButton)|
            is_bound(entries, key) ==> (held.contains(key) <==> other.contains(key)),
    ensures
        reconciled(states, entries, held) == reconciled(states, entries, other),
    decreases entries.len(),
{
    if entries.len() > 0 {
        let earlier = entries.drop_last();
        let last = entries.last();
        assert forall|key: (u32, JoypadButton)| is_bound(earlier, key) implies (held.contains(key)
            <==> other.contains(key)) by {
            let k = choose|k: int| 0 <= k < earlier.len() && (#[trigger] earlier[k]).key() == key;
            assert(entries[k].key() == key);
        }
        lemma_unbound_buttons_ignored(states, earlier, held, other);
        assert(is_bound(entries, last.key())) by {
            assert(entries[entries.len() - 1].key() == last.key());
        }
    }
}

} // verus!
