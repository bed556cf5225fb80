//! The input reconciliation map: which engine command each host button
//! drives, keyed by host port and button.

use crate::buttons::{ControllerButton, InputCommand, JoypadButton};
use vstd::prelude::*;

verus! {

/// One entry of the map: the host button `button` on host port `port` drives
/// the engine command `command`.
#[derive(Clone, Copy, Debug, PartialEq, Eq, Structural)]
pub struct InputBinding {
    pub port: u32,
    pub button: JoypadButton,
    pub command: InputCommand,
}

impl InputBinding {
    /// The host side of the entry.
    pub open spec fn key(self) -> (u32, JoypadButton) {
        (self.port, self.button)
    }
}

/// No host button occurs in two entries.
pub open spec fn keys_distinct(entries: Seq<InputBinding>) -> bool {
    forall|i: int, j: int|
        0 <= i < j < entries.len() ==> (#[trigger] entries[i]).key() != (#[trigger] entries[j]).key()
}

/// Whether some entry has the host button `key`.
pub open spec fn is_bound(entries: Seq<InputBinding>, key: (u32, JoypadButton)) -> bool {
    exists|i: int| 0 <= i < entries.len() && (#[trigger] entries[i]).key() == key
}

/// Position of an entry with the host button `key`, where there is one.
pub open spec fn position_of(entries: Seq<InputBinding>, key: (u32, JoypadButton)) -> int {
    choose|i: int| 0 <= i < entries.len() && (#[trigger] entries[i]).key() == key
}

/// The entries read as a map from host button to command.
pub open spec fn binding_table(entries: Seq<InputBinding>) -> Map<
    (u32, JoypadButton),
    InputCommand,
> {
    Map::new(
        |key: (u32, JoypadButton)| is_bound(entries, key),
        |key: (u32, JoypadButton)| entries[position_of(entries, key)].command,
    )
}

/// The controller button that a host button drives: the host's X drives the
/// engine's C, seven buttons keep their names, and the rest drive nothing.
pub open spec fn controller_button(button: JoypadButton) -> Option<ControllerButton> {
    match button {
        JoypadButton::Start => Some(ControllerButton::Start),
        JoypadButton::Up => Some(ControllerButton::Up),
        JoypadButton::Down => Some(ControllerButton::Down),
        JoypadButton::Left => Some(ControllerButton::Left),
        JoypadButton::Right => Some(ControllerButton::Right),
        JoypadButton::A => Some(ControllerButton::A),
        JoypadButton::B => Some(ControllerButton::B),
        JoypadButton::X => Some(ControllerButton::C),
        _ => None,
    }
}

/// The command that the standard map gives a host button: host port 0 drives
/// controller 1, host port 1 drives controller 2, no other port drives any.
pub open spec fn standard_command(port: u32, button: JoypadButton) -> Option<InputCommand> {
    match controller_button(button) {
        Some(driven) => if port == 0 {
            Some(InputCommand::Controller1(driven))
        } else if port == 1 {
            Some(InputCommand::Controller2(driven))
        } else {
            None
        },
        None => None,
    }
}

/// The standard map.
pub open spec fn standard_table() -> Map<(u32, JoypadButton), InputCommand> {
    Map::new(
        |key: (u32, JoypadButton)| standard_command(key.0, key.1) is Some,
        |key: (u32, JoypadButton)| standard_command(key.0, key.1)->0,
    )
}

/// The entry of the standard map that drives `command`.
pub open spec fn standard_binding(command: InputCommand) -> InputBinding {
    InputBinding { port: command.port(), button: command.button().host_button(), command }
}

/// The entries of the standard map in order: the entry at a position drives
/// the command whose slot is that position.
pub open spec fn standard_entries() -> Seq<InputBinding> {
    seq![
        standard_binding(InputCommand::Controller1(ControllerButton::Start)),
        standard_binding(InputCommand::Controller1(ControllerButton::Up)),
        standard_binding(InputCommand::Controller1(ControllerButton::Down)),
        standard_binding(InputCommand::Controller1(ControllerButton::Left)),
        standard_binding(InputCommand::Controller1(ControllerButton::Right)),
        standard_binding(InputCommand::Controller1(ControllerButton::A)),
        standard_binding(InputCommand::Controller1(ControllerButton::B)),
        standard_binding(InputCommand::Controller1(ControllerButton::C)),
        standard_binding(InputCommand::Controller2(ControllerButton::Start)),
        standard_binding(InputCommand::Controller2(ControllerButton::Up)),
        standard_binding(InputCommand::Controller2(ControllerButton::Down)),
        standard_binding(InputCommand::Controller2(ControllerButton::Left)),
        standard_binding(InputCommand::Controller2(ControllerButton::Right)),
        standard_binding(InputCommand::Controller2(ControllerButton::A)),
        standard_binding(InputCommand::Controller2(ControllerButton::B)),
        standard_binding(InputCommand::Controller2(ControllerButton::C)),
    ]
}

/// A map from (host port, host button) to engine command, with its entries
/// kept in the order in which their keys were first bound.
pub struct InputBindings {
    entries: Vec<InputBinding>,
}

impl View for InputBindings {
    type V = Map<(u32, JoypadButton), InputCommand>;

    open spec fn view(&self) -> Map<(u32, JoypadButton), InputCommand> {
        binding_table(self.entries())
    }
}

impl InputBindings {
    /// The entries in order.
    pub closed spec fn entries(&self) -> Seq<InputBinding> {
        self.entries@
    }

    /// Every host button has at most one command.
    pub open spec fn wf(&self) -> bool {
        keys_distinct(self.entries())
    }

    /// A map without entries.
    pub fn new() -> (bindings: InputBindings)
        ensures
            bindings.wf(),
            bindings.entries() == Seq::<InputBinding>::empty(),
    {
        InputBindings { entries: Vec::new() }
    }

    /// Number of entries.
    pub fn len(&self) -> (n: usize)
        ensures
            n == self.entries().len(),
    {
        self.entries.len()
    }

    /// The entry at position `i`.
    pub fn entry(&self, i: usize) -> (binding: InputBinding)
        requires
            i < self.entries().len(),
        ensures
            binding == self.entries()[i as int],
    {
        self.entries[i]
    }

    fn position(&self, port: u32, button: JoypadButton) -> (found: Option<usize>)
        ensures
            match found {
                Some(i) => i < self.entries().len() && self.entries()[i as int].key() == (
                    port,
                    button,
                ),
                None => !is_bound(self.entries(), (port, button)),
            },
    {
        let mut i: usize = 0;
        while i < self.entries.len()
            invariant
                i <= self.entries@.len(),
                forall|j: int| 0 <= j < i ==> (#[trigger] self.entries@[j]).key() != (port, button),
            decreases self.entries@.len() - i,
        {
            let entry = self.entries[i];
            if entry.port == port && entry.button == button {
                return Some(i);
            }
            i = i + 1;
        }
        None
    }

    /// The command bound to a host button, if any.
    pub fn get(&self, port: u32, button: JoypadButton) -> (command: Option<InputCommand>)
        requires
            self.wf(),
        ensures
            command == self@.get((port, button)),
    {
        match self.position(port, button) {
            Some(i) => Some(self.entries[i].command),
            None => None,
        }
    }

    /// Binds a host button to a command and returns the command it was bound
    /// to before, if any. A button bound for the first time goes to the end
    /// of the entries; a button bound again keeps its place.
    pub fn insert(&mut self, port: u32, button: JoypadButton, command: InputCommand) -> (previous:
        Option<InputCommand>)
        requires
            old(self).wf(),
        ensures
            final(self).wf(),
            previous == old(self)@.get((port, button)),
            final(self)@ == old(self)@.insert((port, button), command),
            final(self).entries() == if is_bound(old(self).entries(), (port, button)) {
                old(self).entries().update(
                    position_of(old(self).entries(), (port, button)),
                    InputBinding { port, button, command },
                )
            } else {
                old(self).entries().push(InputBinding { port, button, command })
            },
    {
        let binding = InputBinding { port, button, command };
        match self.position(port, button) {
            Some(i) => {
                let previous = self.entries[i].command;
                self.entries[i] = binding;
                proof {
                    lemma_table_after_update(old(self).entries(), i as int, binding);
                }
                Some(previous)
            },
            None => {
                self.entries.push(binding);
                proof {
                    lemma_table_after_push(old(self).entries(), binding);
                }
                None
            },
        }
    }

    /// The standard map: on host port 0 the buttons Start, Up, Down, Left,
    /// Right, A, B and X drive controller 1, on host port 1 they drive
    /// controller 2, and X stands for the engine's C.
    pub fn standard() -> (bindings: InputBindings)
        ensures
            bindings.wf(),
            bindings.entries() == standard_entries(),
            bindings@ == standard_table(),
    {
        let mut bindings = InputBindings::new();
        bindings.insert(0, JoypadButton::Start, InputCommand::Controller1(ControllerButton::Start));
        bindings.insert(0, JoypadButton::Up, InputCommand::Controller1(ControllerButton::Up));
        bindings.insert(0, JoypadButton::Down, InputCommand::Controller1(ControllerButton::Down));
        bindings.insert(0, JoypadButton::Left, InputCommand::Controller1(ControllerButton::Left));
        bindings.insert(0, JoypadButton::Right, InputCommand::Controller1(ControllerButton::Right));
        bindings.insert(0, JoypadButton::A, InputCommand::Controller1(ControllerButton::A));
        bindings.insert(0, JoypadButton::B, InputCommand::Controller1(ControllerButton::B));
        bindings.insert(0, JoypadButton::X, InputCommand::Controller1(ControllerButton::C));

        bindings.insert(1, JoypadButton::Start, InputCommand::Controller2(ControllerButton::Start));
        bindings.insert(1, JoypadButton::Up, InputCommand::Controller2(ControllerButton::Up));
        bindings.insert(1, JoypadButton::Down, InputCommand::Controller2(ControllerButton::Down));
        bindings.insert(1, JoypadButton::Left, InputCommand::Controller2(ControllerButton::Left));
        bindings.insert(1, JoypadButton::Right, InputCommand::Controller2(ControllerButton::Right));
        bindings.insert(1, JoypadButton::A, InputCommand::Controller2(ControllerButton::A));
        bindings.insert(1, JoypadButton::B, InputCommand::Controller2(ControllerButton::B));
        bindings.insert(1, JoypadButton::X, InputCommand::Controller2(ControllerButton::C));
        assert(bindings.entries() =~= standard_entries());
        assert(bindings@ =~= standard_table());
        bindings
    }
}

/// The standard entries name no host button twice, and read as a map they
/// are the standard map.
pub proof fn lemma_standard_entries()
    ensures
        keys_distinct(standard_entries()),
        binding_table(standard_entries()) == standard_table(),
{
    let entries = standard_entries();
    assert forall|i: int| 0 <= i < 16 implies (#[trigger] entries[i]).command.spec_slot() == i
        && standard_command(entries[i].port, entries[i].button) == Some(entries[i].command) by {}
    assert forall|key: (u32, JoypadButton)| is_bound(entries, key) implies standard_command(
        key.0,
        key.1,
    ) == Some(entries[position_of(entries, key)].command) by {
        let i = position_of(entries, key);
        assert(entries[i].key() == key);
    }
    assert forall|key: (u32, JoypadButton)| standard_command(key.0, key.1) is Some implies is_bound(
        entries,
        key,
    ) by {
        let command = standard_command(key.0, key.1)->0;
        assert(entries[command.spec_slot()].key() == key);
    }
    assert(binding_table(entries) =~= standard_table());
}

/// Replacing the command of an entry changes the table at that key only.
proof fn lemma_table_after_update(entries: Seq<InputBinding>, i: int, binding: InputBinding)
    requires
        keys_distinct(entries),
        0 <= i < entries.len(),
        entries[i].key() == binding.key(),
    ensures
        keys_distinct(entries.update(i, binding)),
        position_of(entries, binding.key()) == i,
        binding_table(entries.update(i, binding)) == binding_table(entries).insert(
            binding.key(),
            binding.command,
        ),
{
    let after = entries.update(i, binding);
    assert forall|key: (u32, JoypadButton)| is_bound(after, key) <==> is_bound(entries, key) by {
        if is_bound(entries, key) {
            let j = position_of(entries, key);
            assert(after[j].key() == key);
        }
        if is_bound(after, key) {
            let j = position_of(after, key);
            assert(entries[j].key() == key);
        }
    }
    assert forall|key: (u32, JoypadButton)| is_bound(entries, key) implies position_of(after, key)
        == position_of(entries, key) by {
        let j = position_of(entries, key);
        assert(after[j].key() == key);
        let k = position_of(after, key);
        assert(entries[k].key() == key);
    }
    assert(is_bound(entries, binding.key()));
    assert(binding_table(after) =~= binding_table(entries).insert(binding.key(), binding.command));
}

/// Appending an entry with a fresh key adds that key to the table.
proof fn lemma_table_after_push(entries: Seq<InputBinding>, binding: InputBinding)
    requires
        keys_distinct(entries),
        !is_bound(entries, binding.key()),
    ensures
        keys_distinct(entries.push(binding)),
        binding_table(entries.push(binding)) == binding_table(entries).insert(
            binding.key(),
            binding.command,
        ),
{
    let after = entries.push(binding);
    assert(after[entries.len() as int] == binding);
    assert forall|key: (u32, JoypadButton)|
        is_bound(after, key) <==> (is_bound(entries, key) || key == binding.key()) by {
        if is_bound(entries, key) {
            let j = position_of(entries, key);
            assert(after[j].key() == key);
        }
        if is_bound(after, key) {
            let j = position_of(after, key);
            if j < entries.len() {
                assert(entries[j].key() == key);
            }
        }
    }
    assert forall|key: (u32, JoypadButton)| is_bound(entries, key) implies position_of(after, key)
        == position_of(entries, key) by {
        let j = position_of(entries, key);
        assert(after[j].key() == key);
        let k = position_of(after, key);
        if k < entries.len() {
            assert(entries[k].key() == key);
        }
    }
    assert(position_of(after, binding.key()) == entries.len());
    assert(binding_table(after) =~= binding_table(entries).insert(binding.key(), binding.command));
}

} // verus!
