//! The frame driver: the state a running game session keeps between frames,
//! and what one frame does to it before and after the engine runs.

use crate::audio::{audio_channel, drain_audio, ring_capacity, seen, AUDIO_QUEUE_CAPACITY};
use crate::bindings::{
    lemma_standard_entries,
    standard_binding,
    standard_entries,
    standard_table,
    InputBinding,
    InputBindings,
};
use crate::buttons::{next_state, ControllerButton, InputCommand, JoypadButton, KeyState};
use crate::palette::{buffer_to_color_image, color_image, FRAME_BYTES, FRAME_HEIGHT, FRAME_WIDTH};
use crate::snapshot::InputSnapshot;
use crate::states::{
    commands_distinct,
    lemma_driven_command_state,
    reconcile_inputs,
    reconciled,
    update_at,
    InputStates,
};
use vstd::prelude::*;

verus! {

/// The command in a slot: the inverse of `InputCommand::spec_slot`.
pub open spec fn command_at(slot: int) -> InputCommand {
    let button = if slot % 8 == 0 {
        ControllerButton::Start
    } else if slot % 8 == 1 {
        ControllerButton::Up
    } else if slot % 8 == 2 {
        ControllerButton::Down
    } else if slot % 8 == 3 {
        ControllerButton::Left
    } else if slot % 8 == 4 {
        ControllerButton::Right
    } else if slot % 8 == 5 {
        ControllerButton::A
    } else if slot % 8 == 6 {
        ControllerButton::B
    } else {
        ControllerButton::C
    };
    if slot < 8 {
        InputCommand::Controller1(button)
    } else {
        InputCommand::Controller2(button)
    }
}

/// The state of every command after a frame in which the host buttons `held`
/// are down: each command looks at the one host button that drives it.
pub open spec fn frame_states(
    states: Map<InputCommand, KeyState>,
    held: Set<(u32, JoypadButton)>,
) -> Map<InputCommand, KeyState> {
    Map::new(
        |command: InputCommand| true,
        |command: InputCommand|
            next_state(states.get(command), held.contains(standard_binding(command).key())),
    )
}

/// What a frame hands to the engine: every command in slot order, each with
/// its state after the frame.
pub open spec fn frame_updates(
    states: Map<InputCommand, KeyState>,
    held: Set<(u32, JoypadButton)>,
) -> Seq<(InputCommand, KeyState)> {
    Seq::new(16, |slot: int| (command_at(slot), frame_states(states, held)[command_at(slot)]))
}

/// Observing the entries of the standard map one after the other gives every
/// command the state that its own host button calls for.
pub proof fn lemma_standard_reconciled(
    states: Map<InputCommand, KeyState>,
    held: Set<(u32, JoypadButton)>,
)
    ensures
        reconciled(states, standard_entries(), held) == frame_states(states, held),
        forall|i: int|
            0 <= i < 16 ==> #[trigger] update_at(states, standard_entries(), held, i)
                == frame_updates(states, held)[i],
{
    let entries = standard_entries();
    assert forall|i: int| 0 <= i < 16 implies (#[trigger] entries[i]) == standard_binding(
        command_at(i),
    ) && command_at(i).spec_slot() == i by {}
    assert(commands_distinct(entries));
    let after = reconciled(states, entries, held);
    assert forall|command: InputCommand| #[trigger]
        after.dom().contains(command) && after[command] == frame_states(states, held)[command] by {
        let i = command.spec_slot();
        assert(entries[i] == standard_binding(command));
        lemma_driven_command_state(states, entries, held, i);
    }
    assert(after =~= frame_states(states, held));
    assert forall|i: int| 0 <= i < 16 implies #[trigger] update_at(states, entries, held, i)
        == frame_updates(states, held)[i] by {
        let prefix = entries.take(i + 1);
        assert(prefix[i] == entries[i]);
        assert(commands_distinct(prefix)) by {
            assert forall|a: int, b: int| 0 <= a < b < prefix.len() implies (
            #[trigger] prefix[a]).command != (#[trigger] prefix[b]).command by {
                assert(entries[a].command != entries[b].command);
            }
        }
        lemma_driven_command_state(states, prefix, held, i);
    }
}

/// A frame pays no attention to host buttons that the standard map does not
/// name: two frames whose held buttons differ only in such buttons leave
/// every command in the same state and hand the same updates to the engine.
pub proof fn lemma_frame_ignores_unbound_buttons(
    states: Map<InputCommand, KeyState>,
    held: Set<(u32, JoypadButton)>,
    other: Set<(u32, JoypadButton)>,
)
    requires
        forall|key: (u32, JoypadButton)|
            standard_table().dom().contains(key) ==> (held.contains(key) <==> other.contains(key)),
    ensures
        frame_states(states, held) == frame_states(states, other),
        frame_updates(states, held) == frame_updates(states, other),
{
    assert forall|command: InputCommand|
        held.contains(standard_binding(command).key()) <==> other.contains(
            standard_binding(command).key(),
        ) by {
        assert(standard_table().dom().contains(standard_binding(command).key()));
    }
    assert(frame_states(states, held) =~= frame_states(states, other));
}

/// After a frame every command reads as pressed exactly if the host button
/// that drives it was held during the frame, and remembers whether it read
/// as pressed before.
pub proof fn lemma_frame_state_follows_press(
    states: Map<InputCommand, KeyState>,
    held: Set<(u32, JoypadButton)>,
    command: InputCommand,
)
    ensures
        frame_states(states, held).dom().contains(command),
        frame_states(states, held)[command].pressed == held.contains(
            standard_binding(command).key(),
        ),
        frame_states(states, held)[command].was_pressed == (states.dom().contains(command)
            && states[command].pressed),
{
}

/// Why a game could not be loaded.
#[derive(Clone, Copy, Debug, PartialEq, Eq, Structural)]
pub enum LoadError {
    /// The host did not grant the pixel format that the frames are made for.
    UnsupportedPixelFormat,
}

/// One expanded frame, as the host receives it.
pub struct FrameBufferThing {
    video_frame: Vec<u8>,
}

impl View for FrameBufferThing {
    type V = Seq<u8>;

    closed spec fn view(&self) -> Seq<u8> {
        self.video_frame@
    }
}

impl FrameBufferThing {
    /// The bytes of the frame: four per pixel, rows from top to bottom.
    pub fn data(&self) -> (bytes: &[u8])
        ensures
            bytes@ == self@,
    {
        self.video_frame.as_slice()
    }

    /// Width of the frame in pixels.
    pub fn width(&self) -> (pixels: u16)
        ensures
            pixels == FRAME_WIDTH,
    {
        128
    }

    /// Height of the frame in pixels.
    pub fn height(&self) -> (pixels: u16)
        ensures
            pixels == FRAME_HEIGHT,
    {
        128
    }
}

/// What a game session keeps from frame to frame: the input map and the key
/// states it feeds, the reading end of the audio queue, the last frame, and
/// the two handles `R` (rendering mode) and `F` (pixel format) that the host
/// lends for as long as a game is loaded.
pub struct Session<R, F> {
    bindings: InputBindings,
    input_state: InputStates,
    audio_consumer: rtrb::Consumer<u8>,
    rendering_mode: Option<R>,
    pixel_format: Option<F>,
    framebuffer: FrameBufferThing,
}

impl<R, F> Session<R, F> {
    /// The entries of the session's input map.
    pub closed spec fn binding_entries(&self) -> Seq<InputBinding> {
        self.bindings.entries()
    }

    /// The capacity of the session's audio queue.
    pub closed spec fn audio_capacity(&self) -> nat {
        ring_capacity(self.audio_consumer)
    }

    /// The key state of every command observed so far.
    pub closed spec fn input_state(&self) -> Map<InputCommand, KeyState> {
        self.input_state@
    }

    /// The sample bytes that the session's end of the audio queue has found
    /// and not popped yet, oldest first. What the engine pushes is not among
    /// them before the session looks at the queue again.
    pub closed spec fn seen_audio(&self) -> Seq<u8> {
        seen(self.audio_consumer)
    }

    /// The rendering-mode handle, while the session holds it.
    pub closed spec fn rendering_mode(&self) -> Option<R> {
        self.rendering_mode
    }

    /// The pixel-format handle, while the session holds it.
    pub closed spec fn pixel_format(&self) -> Option<F> {
        self.pixel_format
    }

    /// The bytes of the last frame.
    pub closed spec fn video_frame(&self) -> Seq<u8> {
        self.framebuffer@
    }

    /// The session uses the standard input map and a queue of the documented
    /// capacity, and its frame is either still empty or one whole frame.
    pub open spec fn wf(&self) -> bool {
        &&& self.binding_entries() == standard_entries()
        &&& self.audio_capacity() == AUDIO_QUEUE_CAPACITY
        &&& self.video_frame().len() == 0 || self.video_frame().len() == FRAME_BYTES
    }

    /// The session holds both of the host's handles.
    pub open spec fn loaded(&self) -> bool {
        self.rendering_mode() is Some && self.pixel_format() is Some
    }

    /// A session without a game, and the writing end of its audio queue for
    /// the engine.
    pub fn new() -> (made: (Session<R, F>, rtrb::Producer<u8>))
        ensures
            made.0.wf(),
            made.0.input_state() == Map::<InputCommand, KeyState>::empty(),
            made.0.seen_audio() == Seq::<u8>::empty(),
            made.0.rendering_mode() is None,
            made.0.pixel_format() is None,
            made.0.video_frame() == Seq::<u8>::empty(),
    {
        let (producer, consumer) = audio_channel();
        let session = Session {
            bindings: InputBindings::standard(),
            input_state: InputStates::new(),
            audio_consumer: consumer,
            rendering_mode: None,
            pixel_format: None,
            framebuffer: FrameBufferThing { video_frame: Vec::new() },
        };
        (session, producer)
    }

    /// Starts a session for a game. `pixel_format` is what the host answered
    /// when asked for the pixel format of the frames: its handle, or nothing
    /// if it refused. Without the format the load fails before anything is
    /// built; with it the result is a fresh session that holds both handles,
    /// and the writing end of its audio queue for the engine.
    pub fn load_game(rendering_mode: R, pixel_format: Option<F>) -> (outcome: Result<
        (Session<R, F>, rtrb::Producer<u8>),
        LoadError,
    >)
        ensures
            match pixel_format {
                Some(format) => {
                    &&& outcome matches Ok(made)
                    &&& made.0.wf()
                    &&& made.0.input_state() == Map::<InputCommand, KeyState>::empty()
                    &&& made.0.seen_audio() == Seq::<u8>::empty()
                    &&& made.0.rendering_mode() == Some(rendering_mode)
                    &&& made.0.pixel_format() == Some(format)
                    &&& made.0.video_frame() == Seq::<u8>::empty()
                },
                None => outcome matches Err(error) && error == LoadError::UnsupportedPixelFormat,
            },
    {
        match pixel_format {
            Some(format) => {
                let (mut session, producer) = Session::new();
                session.rendering_mode = Some(rendering_mode);
                session.pixel_format = Some(format);
                Ok((session, producer))
            },
            None => Err(LoadError::UnsupportedPixelFormat),
        }
    }

    /// The session's input map.
    pub fn bindings(&self) -> (bindings: &InputBindings)
        requires
            self.wf(),
        ensures
            bindings.entries() == self.binding_entries(),
            bindings.wf(),
            bindings@ == standard_table(),
    {
        proof {
            lemma_standard_entries();
        }
        &self.bindings
    }

    /// Whether the session holds both of the host's handles.
    pub fn is_loaded(&self) -> (loaded: bool)
        ensures
            loaded == self.loaded(),
    {
        self.rendering_mode.is_some() && self.pixel_format.is_some()
    }

    /// The state of a command, if it was observed.
    pub fn key_state(&self, command: InputCommand) -> (state: Option<KeyState>)
        ensures
            state == self.input_state().get(command),
    {
        self.input_state.get(command)
    }

    /// The last frame.
    pub fn framebuffer(&self) -> (frame: &FrameBufferThing)
        ensures
            frame@ == self.video_frame(),
    {
        &self.framebuffer
    }

    /// The part of a frame that comes before the engine runs. Brings every
    /// command's key state up to date from the host buttons that are held,
    /// lists the commands with their new states for the engine, and throws
    /// away the samples that it finds in the audio queue, so that the
    /// session's end of the queue has nothing found left.
    pub fn begin_frame(&mut self, held: &InputSnapshot) -> (updates: Vec<(InputCommand, KeyState)>)
        requires
            old(self).wf(),
        ensures
            final(self).wf(),
            final(self).input_state() == frame_states(old(self).input_state(), held@),
            updates@ == frame_updates(old(self).input_state(), held@),
            final(self).seen_audio().len() == 0,
            final(self).rendering_mode() == old(self).rendering_mode(),
            final(self).pixel_format() == old(self).pixel_format(),
            final(self).video_frame() == old(self).video_frame(),
    {
        let updates = reconcile_inputs(&self.bindings, &mut self.input_state, held);
        let _stale = drain_audio(&mut self.audio_consumer);
        proof {
            let before = old(self).input_state();
            lemma_standard_reconciled(before, held@);
            assert forall|i: int| 0 <= i < 16 implies updates@[i] == frame_updates(
                before,
                held@,
            )[i] by {
                assert(updates@[i] == update_at(before, standard_entries(), held@, i));
            }
            assert(updates@ =~= frame_updates(before, held@));
        }
        updates
    }

    /// The part of a frame that comes after the engine has run. Expands the
    /// engine's framebuffer `raw` through the palette `color_map` into the
    /// session's frame, and takes both handles out of the session so that they
    /// can be passed to the host together with the frame.
    pub fn finish_frame(
        &mut self,
        raw: &[u8; 16384],
        color_map: &[(u8, u8, u8, u8); 256],
    ) -> (handles: (R, F))
        requires
            old(self).wf(),
            old(self).loaded(),
        ensures
            final(self).wf(),
            final(self).video_frame() == color_image(raw@, color_map@),
            final(self).video_frame().len() == FRAME_BYTES,
            old(self).rendering_mode() == Some(handles.0),
            old(self).pixel_format() == Some(handles.1),
            final(self).rendering_mode() is None,
            final(self).pixel_format() is None,
            final(self).input_state() == old(self).input_state(),
            final(self).seen_audio() == old(self).seen_audio(),
    {
        self.framebuffer.video_frame = buffer_to_color_image(raw, color_map);
        let rendering_mode = self.rendering_mode.take().unwrap();
        let pixel_format = self.pixel_format.take().unwrap();
        (rendering_mode, pixel_format)
    }

    /// Puts both handles back once the host has seen the frame.
    pub fn restore_handles(&mut self, rendering_mode: R, pixel_format: F)
        requires
            old(self).wf(),
        ensures
            final(self).wf(),
            final(self).rendering_mode() == Some(rendering_mode),
            final(self).pixel_format() == Some(pixel_format),
            final(self).input_state() == old(self).input_state(),
            final(self).seen_audio() == old(self).seen_audio(),
            final(self).video_frame() == old(self).video_frame(),
    {
        self.rendering_mode = Some(rendering_mode);
        self.pixel_format = Some(pixel_format);
    }
}

} // verus!
