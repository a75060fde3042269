//! The integer side of the fighting game: the controller input, the poller that turns
//! engine key events into it, and the character's state machine (idle, walking, dashing,
//! falling, jumping). Positions and speeds are not handled here.

use vstd::prelude::*;
use crate::input::{Input as EngineInput, Key, PressState};

verus! {

/// The game's controller input for one frame.
#[derive(Copy, Clone, Debug, PartialEq, Eq, Structural)]
pub struct Input {
    pub move_x_axis: i8,
    pub move_y_axis: i8,
    pub jump_pressed: bool,
    pub short_hop_pressed: bool,
    pub light_atk_pressed: bool,
    pub heavy_atk_pressed: bool,
    pub shield_pressed: bool,
    pub grab_pressed: bool,
}

impl Input {
    /// The neutral input: axes centred, nothing pressed.
    pub open spec fn neutral() -> Input {
        Input {
            move_x_axis: 0,
            move_y_axis: 0,
            jump_pressed: false,
            short_hop_pressed: false,
            light_atk_pressed: false,
            heavy_atk_pressed: false,
            shield_pressed: false,
            grab_pressed: false,
        }
    }
}

impl Default for Input {
    fn default() -> (input: Self)
        ensures
            input == Input::neutral(),
    {
        Input {
            move_x_axis: 0,
            move_y_axis: 0,
            jump_pressed: false,
            short_hop_pressed: false,
            light_atk_pressed: false,
            heavy_atk_pressed: false,
            shield_pressed: false,
            grab_pressed: false,
        }
    }
}

/// Whether `key` is held after the key events in `inputs`, starting from `initial`: the
/// last event for that key decides.
pub open spec fn key_held(initial: bool, inputs: Seq<EngineInput>, key: Key) -> bool
    decreases inputs.len(),
{
    if inputs.len() == 0 {
        initial
    } else {
        match inputs.last() {
            EngineInput::Key { key: k, state } if k == key => state == PressState::Pressed,
            _ => key_held(initial, inputs.drop_last(), key),
        }
    }
}

/// The axis value for a pair of opposite directions: full positive, full negative, or
/// centred; the positive direction wins when both are held.
pub open spec fn axis(positive: bool, negative: bool) -> int {
    if positive {
        127
    } else if negative {
        -128
    } else {
        0
    }
}

/// Turns the engine's key events into the game's controller input.
pub struct InputPoller {
    input: Input,
    up_held: bool,
    down_held: bool,
    right_held: bool,
    left_held: bool,
    jump_held: bool,
    frame: usize,
}

impl InputPoller {
    /// The last input produced (the neutral input before the first poll).
    pub closed spec fn last_input(&self) -> Input {
        self.input
    }

    /// Whether `key` is held, as far as the poller has seen.
    pub closed spec fn held(&self, key: Key) -> bool {
        match key {
            Key::Up => self.up_held,
            Key::Down => self.down_held,
            Key::Left => self.left_held,
            Key::Right => self.right_held,
            Key::Space => self.jump_held,
        }
    }

    /// The number of polls so far, wrapping around.
    pub closed spec fn frame(&self) -> usize {
        self.frame
    }

    /// A poller that has seen no key and has produced the neutral input.
    pub fn new() -> (poller: Self)
        ensures
            poller.last_input() == Input::neutral(),
            poller.frame() == 0,
            forall|k: Key| !poller.held(k),
    {
        Self {
            up_held: false,
            down_held: false,
            right_held: false,
            left_held: false,
            jump_held: false,
            input: Input::default(),
            frame: 0,
        }
    }

    /// Reads the key events of a frame and returns the controller input: up/down and
    /// right/left set the axes; space presses jump. Jump stays pressed once pressed.
    pub fn poll(&mut self, inputs: &Vec<EngineInput>) -> (input: Input)
        ensures
            final(self).frame() == (if old(self).frame() == usize::MAX {
                0
            } else {
                old(self).frame() + 1
            }),
            forall|k: Key| #[trigger] final(self).held(k) == key_held(old(self).held(k), inputs@, k),
            input.move_y_axis == axis(final(self).held(Key::Up), final(self).held(Key::Down)),
            input.move_x_axis == axis(final(self).held(Key::Right), final(self).held(Key::Left)),
            input.jump_pressed == (old(self).last_input().jump_pressed || final(self).held(
                Key::Space,
            )),
            input.short_hop_pressed == old(self).last_input().short_hop_pressed,
            input.light_atk_pressed == old(self).last_input().light_atk_pressed,
            input.heavy_atk_pressed == old(self).last_input().heavy_atk_pressed,
            input.shield_pressed == old(self).last_input().shield_pressed,
            input.grab_pressed == old(self).last_input().grab_pressed,
            final(self).last_input() == input,
    {
        self.frame = self.frame.wrapping_add(1);
        let ghost start = *self;
        let mut i: usize = 0;
        while i < inputs.len()
            invariant
                i <= inputs@.len(),
                self.input == start.input,
                self.frame == start.frame,
                forall|k: Key|
                    #[trigger] self.held(k) == key_held(start.held(k), inputs@.take(i as int), k),
            decreases inputs@.len() - i,
        {
            proof {
                assert(inputs@.take(i + 1).drop_last() =~= inputs@.take(i as int));
            }
            let ghost before = *self;
            match &inputs[i] {
                EngineInput::Key { key, state } => match key {
                    Key::Up => match state {
                        PressState::Released => {
                            self.up_held = false;
                        },
                        PressState::Pressed => {
                            self.up_held = true;
                        },
                    },
                    Key::Down => match state {
                        PressState::Released => {
                            self.down_held = false;
                        },
                        PressState::Pressed => {
                            self.down_held = true;
                        },
                    },
                    Key::Left => match state {
                        PressState::Released => {
                            self.left_held = false;
                        },
                        PressState::Pressed => {
                            self.left_held = true;
                        },
                    },
                    Key::Right => match state {
                        PressState::Released => {
                            self.right_held = false;
                        },
                        PressState::Pressed => {
                            self.right_held = true;
                        },
                    },
                    Key::Space => match state {
                        PressState::Released => {
                            self.jump_held = false;
                        },
                        PressState::Pressed => {
                            self.jump_held = true;
                        },
                    },
                },
                _ => {},
            }
            proof {
                let prefix = inputs@.take(i + 1);
                assert(prefix.last() == inputs@[i as int]);
                assert forall|k: Key| #[trigger]
                    self.held(k) == key_held(start.held(k), prefix, k) by {
                    assert(key_held(start.held(k), prefix.drop_last(), k) == before.held(k));
                }
            }
            i = i + 1;
        }
        proof {
            assert(inputs@.take(inputs@.len() as int) =~= inputs@);
            assert forall|k: Key| #[trigger] self.held(k) == key_held(old(self).held(k), inputs@, k) by {
                assert(start.held(k) == old(self).held(k));
            }
        }
        let ghost polled = *self;
        let axis_max = i8::MAX;
        let axis_min = i8::MIN;

        if self.up_held {
            self.input.move_y_axis = axis_max;
        } else if self.down_held {
            self.input.move_y_axis = axis_min;
        } else {
            self.input.move_y_axis = 0;
        }

        if self.right_held {
            self.input.move_x_axis = axis_max;
        } else if self.left_held {
            self.input.move_x_axis = axis_min;
        } else {
            self.input.move_x_axis = 0;
        }

        if self.jump_held {
            self.input.jump_pressed = true;
        }
        assert forall|k: Key| #[trigger] self.held(k) == key_held(old(self).held(k), inputs@, k) by {
            assert(polled.held(k) == key_held(old(self).held(k), inputs@, k));
        }
        self.input
    }
}

/// Frames of controller input a character remembers.
pub const INPUT_BUFFER_SIZE: usize = 30;
/// A dash needs more than this many frames without horizontal input before the tap.
pub const MIN_DASH_INPUT_BUFFER: usize = 3;
/// How many of the most recent frames a dash is looked for in.
pub const MAX_DASH_INPUT_BUFFER: usize = 10;

#[derive(Copy, Clone, PartialEq, Eq, Debug, Structural)]
pub enum CharacterState {
    Idle,
    Walking,
    Dashing,
    Falling,
}

/// The directions an input holds.
#[derive(Copy, Clone, PartialEq, Eq, Debug, Structural)]
pub struct LogicalInput {
    pub up_held: bool,
    pub down_held: bool,
    pub left_held: bool,
    pub right_held: bool,
}

impl LogicalInput {
    /// Whether any direction is held.
    pub fn is_moving(&self) -> (moving: bool)
        ensures
            moving == (self.up_held || self.down_held || self.left_held || self.right_held),
    {
        self.up_held || self.down_held || self.left_held || self.right_held
    }
}

/// The directions held by a controller input: up and right for positive axes, down and
/// left for negative ones.
pub open spec fn spec_logical_input(input: Input) -> LogicalInput {
    LogicalInput {
        up_held: input.move_y_axis > 0,
        down_held: input.move_y_axis < 0,
        right_held: input.move_x_axis > 0,
        left_held: input.move_x_axis < 0,
    }
}

pub fn map_input_to_logical_input(input: Input) -> (logical: LogicalInput)
    ensures
        logical == spec_logical_input(input),
{
    let up_held = input.move_y_axis > 0;
    let down_held = input.move_y_axis < 0;
    let right_held = input.move_x_axis > 0;
    let left_held = input.move_x_axis < 0;
    LogicalInput { up_held, down_held, right_held, left_held }
}

/// Whether an input moves in some direction.
pub open spec fn moving(input: Input) -> bool {
    input.move_x_axis != 0 || input.move_y_axis != 0
}

/// Among the `j` most recent remembered inputs, how many hold no horizontal direction.
pub open spec fn empty_frames(prev: Seq<Input>, j: nat) -> nat
    decreases j,
{
    if j == 0 {
        0
    } else {
        empty_frames(prev, (j - 1) as nat) + if prev[INPUT_BUFFER_SIZE - j].move_x_axis == 0 {
            1nat
        } else {
            0nat
        }
    }
}

/// Whether the remembered inputs show a dash: within the most recent frames, a horizontal
/// input preceded (more recently) by more than the minimum of frames without one.
pub open spec fn dash_input(prev: Seq<Input>) -> bool {
    exists|j: nat|
        j < MAX_DASH_INPUT_BUFFER && prev[INPUT_BUFFER_SIZE - 1 - j].move_x_axis != 0
            && #[trigger] empty_frames(prev, j) > MIN_DASH_INPUT_BUFFER
}

/// The part of a fighting game character that its state machine reads and writes.
#[derive(Copy, Clone, Debug)]
pub struct CharacterControl {
    pub input: Input,
    pub prev_inputs: [Input; INPUT_BUFFER_SIZE],
    pub jumps: u8,
    pub max_jumps: u8,
    pub jump_frames: u8,
    pub max_jump_frames: u8,
    pub state: CharacterState,
}

/// What a character's state transition does in a frame.
pub open spec fn transitioned(old: CharacterControl, new: CharacterControl) -> bool {
    let mv = moving(old.input);
    let jump = mv && old.jumps < old.max_jumps && old.input.jump_pressed
        && !old.prev_inputs@[INPUT_BUFFER_SIZE - 2].jump_pressed;
    &&& new.input == old.input
    &&& new.prev_inputs == old.prev_inputs
    &&& new.max_jumps == old.max_jumps
    &&& new.max_jump_frames == old.max_jump_frames
    &&& new.jumps == if jump { old.jumps + 1 } else { old.jumps as int }
    &&& new.jump_frames == if jump { old.max_jump_frames } else { old.jump_frames }
    &&& new.state == if !mv {
        CharacterState::Idle
    } else {
        match old.state {
            CharacterState::Idle => CharacterState::Walking,
            CharacterState::Walking => if dash_input(old.prev_inputs@) {
                CharacterState::Dashing
            } else {
                CharacterState::Walking
            },
            CharacterState::Dashing => CharacterState::Dashing,
            CharacterState::Falling => CharacterState::Falling,
        }
    }
}

impl CharacterControl {
    /// A character at rest: idle, no jump used, no input remembered.
    pub fn new(max_jumps: u8, max_jump_frames: u8) -> (c: Self)
        ensures
            c.input == Input::neutral(),
            forall|i: int| 0 <= i < INPUT_BUFFER_SIZE ==> #[trigger] c.prev_inputs@[i] == Input::neutral(),
            c.jumps == 0,
            c.max_jumps == max_jumps,
            c.jump_frames == 0,
            c.max_jump_frames == max_jump_frames,
            c.state == CharacterState::Idle,
    {
        let neutral = Input::default();
        CharacterControl {
            input: neutral,
            prev_inputs: [neutral; INPUT_BUFFER_SIZE],
            jumps: 0,
            max_jumps,
            jump_frames: 0,
            max_jump_frames,
            state: CharacterState::Idle,
        }
    }

    /// Takes the frame's input: it becomes the current input and the newest remembered
    /// one; the oldest remembered input is forgotten.
    pub fn add_input(&mut self, input: Input)
        ensures
            final(self).input == input,
            final(self).prev_inputs@ == old(self).prev_inputs@.drop_first().push(input),
            final(self).jumps == old(self).jumps,
            final(self).max_jumps == old(self).max_jumps,
            final(self).jump_frames == old(self).jump_frames,
            final(self).max_jump_frames == old(self).max_jump_frames,
            final(self).state == old(self).state,
    {
        self.input = input;
        // Shift over previous inputs
        let mut i: usize = 1;
        while i < INPUT_BUFFER_SIZE
            invariant
                1 <= i <= INPUT_BUFFER_SIZE,
                self.input == input,
                self.jumps == old(self).jumps,
                self.max_jumps == old(self).max_jumps,
                self.jump_frames == old(self).jump_frames,
                self.max_jump_frames == old(self).max_jump_frames,
                self.state == old(self).state,
                forall|k: int| 0 <= k < i - 1 ==> #[trigger] self.prev_inputs@[k] == old(self).prev_inputs@[k + 1],
                forall|k: int| i - 1 <= k < INPUT_BUFFER_SIZE ==> #[trigger] self.prev_inputs@[k] == old(self).prev_inputs@[k],
            decreases INPUT_BUFFER_SIZE - i,
        {
            self.prev_inputs[i - 1] = self.prev_inputs[i];
            i = i + 1;
        }
        // Copy over last input
        self.prev_inputs[INPUT_BUFFER_SIZE - 1] = self.input;
        assert(self.prev_inputs@ =~= old(self).prev_inputs@.drop_first().push(input));
    }

    /// Whether the character may jump: it has jumps left.
    pub fn is_jumpable(&self) -> (jumpable: bool)
        ensures
            jumpable == (self.jumps < self.max_jumps),
    {
        let can_jump = self.jumps < self.max_jumps;
        let valid_jump_state = self.state == CharacterState::Falling || self.state
            == CharacterState::Idle || self.state == CharacterState::Walking || self.state
            == CharacterState::Dashing;
        can_jump && valid_jump_state
    }

    /// Whether the remembered inputs show a dash (see `dash_input`).
    pub fn should_dash(&self) -> (dash: bool)
        ensures
            dash == dash_input(self.prev_inputs@),
    {
        let mut empty: usize = 0;
        let mut k: usize = 0;
        while k < MAX_DASH_INPUT_BUFFER
            invariant
                k <= MAX_DASH_INPUT_BUFFER,
                empty == empty_frames(self.prev_inputs@, k as nat),
                empty <= k,
                forall|j: nat|
                    j < k ==> !(self.prev_inputs@[INPUT_BUFFER_SIZE - 1 - j].move_x_axis != 0
                        && #[trigger] empty_frames(self.prev_inputs@, j) > MIN_DASH_INPUT_BUFFER),
            decreases MAX_DASH_INPUT_BUFFER - k,
        {
            let logical_input = map_input_to_logical_input(self.prev_inputs[INPUT_BUFFER_SIZE - 1 - k]);
            if !logical_input.left_held && !logical_input.right_held {
                empty = empty + 1;
            } else {
                if empty > MIN_DASH_INPUT_BUFFER {
                    return true;
                }
            }
            k = k + 1;
        }
        false
    }

    /// The state transition of a frame: a character with no directional input goes idle;
    /// otherwise it may start a jump (jump newly pressed, jumps left) and moves from idle
    /// to walking, and from walking to dashing on a dash input. Returns the directions
    /// held, which the character then moves in.
    pub fn transition(&mut self) -> (logical: LogicalInput)
        ensures
            transitioned(*old(self), *final(self)),
            logical == spec_logical_input(old(self).input),
    {
        let input = map_input_to_logical_input(self.input);
        let moving = input.is_moving();
        if !moving {
            self.state = CharacterState::Idle;
        } else {
            if self.is_jumpable() {
                // If last input was pressed and second to last input was not pressed, jump.
                if self.input.jump_pressed && !self.prev_inputs[INPUT_BUFFER_SIZE - 2].jump_pressed {
                    self.jumps = self.jumps + 1;
                    self.jump_frames = self.max_jump_frames;
                }
            }
            self.state = match self.state {
                CharacterState::Idle => CharacterState::Walking,
                CharacterState::Walking => {
                    if self.should_dash() {
                        CharacterState::Dashing
                    } else {
                        CharacterState::Walking
                    }
                },
                CharacterState::Dashing => CharacterState::Dashing,
                CharacterState::Falling => CharacterState::Falling,
            };
        }
        input
    }

    /// Spends a frame of an ongoing jump. Returns whether one was ongoing; the character
    /// then rises by its jump speed.
    pub fn advance_jump(&mut self) -> (jumping: bool)
        ensures
            jumping == (old(self).jump_frames > 0),
            advanced(*old(self), *final(self)),
    {
        if self.jump_frames > 0 {
            self.jump_frames = self.jump_frames - 1;
            true
        } else {
            false
        }
    }
}

/// What spending a frame of a jump does: one jump frame less, if any is left; nothing
/// else changes.
pub open spec fn advanced(old: CharacterControl, new: CharacterControl) -> bool {
    &&& new.jump_frames == if old.jump_frames > 0 { old.jump_frames - 1 } else { 0 }
    &&& new.input == old.input
    &&& new.prev_inputs == old.prev_inputs
    &&& new.jumps == old.jumps
    &&& new.max_jumps == old.max_jumps
    &&& new.max_jump_frames == old.max_jump_frames
    &&& new.state == old.state
}

/// A game frame (each character's state transition, then a frame of its jump) keeps
/// every character within its jumps, uses at most one more jump per character, and
/// leaves a character without directional input idle.
pub proof fn lemma_frame_keeps_characters_in_bounds(
    before: Seq<CharacterControl>,
    transitioned_to: Seq<CharacterControl>,
    after: Seq<CharacterControl>,
)
    requires
        transitioned_to.len() == before.len(),
        after.len() == before.len(),
        forall|i: int| 0 <= i < before.len() ==> (#[trigger] before[i]).jumps <= before[i].max_jumps,
        forall|i: int|
            0 <= i < before.len() ==> transitioned(#[trigger] before[i], transitioned_to[i]),
        forall|i: int|
            0 <= i < before.len() ==> advanced(#[trigger] transitioned_to[i], after[i]),
    ensures
        forall|i: int|
            0 <= i < after.len() ==> {
                &&& (#[trigger] after[i]).jumps <= after[i].max_jumps
                &&& after[i].jumps == before[i].jumps || after[i].jumps == before[i].jumps + 1
                &&& !moving(before[i].input) ==> after[i].state == CharacterState::Idle
            },
{
    assert forall|i: int| 0 <= i < after.len() implies {
        &&& (#[trigger] after[i]).jumps <= after[i].max_jumps
        &&& after[i].jumps == before[i].jumps || after[i].jumps == before[i].jumps + 1
        &&& !moving(before[i].input) ==> after[i].state == CharacterState::Idle
    } by {
        assert(before[i].jumps <= before[i].max_jumps);
        assert(transitioned(before[i], transitioned_to[i]));
        assert(advanced(transitioned_to[i], after[i]));
        lemma_jumps_bounded(before[i], transitioned_to[i]);
    }
}

/// A jump starts only on a new press: when the previous remembered input already had
/// jump pressed, or the current input does not, the transition uses no jump and leaves
/// the jump frames as they were.
pub proof fn lemma_jump_needs_a_new_press(old: CharacterControl, new: CharacterControl)
    requires
        transitioned(old, new),
        old.prev_inputs@[INPUT_BUFFER_SIZE - 2].jump_pressed || !old.input.jump_pressed,
    ensures
        new.jumps == old.jumps,
        new.jump_frames == old.jump_frames,
{
}

/// A new press of jump, while moving and with a jump left, starts a jump: one more jump
/// is used and the full jump frames are ahead.
pub proof fn lemma_new_press_jumps(old: CharacterControl, new: CharacterControl)
    requires
        transitioned(old, new),
        old.input.move_x_axis != 0 || old.input.move_y_axis != 0,
        old.jumps < old.max_jumps,
        old.input.jump_pressed,
        !old.prev_inputs@[INPUT_BUFFER_SIZE - 2].jump_pressed,
    ensures
        new.jumps == old.jumps + 1,
        new.jump_frames == old.max_jump_frames,
{
}

/// Holding jump uses one jump only: after a frame whose input had jump pressed, taking
/// the next input (`add_input`) and running the transition uses no further jump and keeps
/// the jump frames.
pub proof fn lemma_held_jump_jumps_once(
    before: CharacterControl,
    added: CharacterControl,
    input: Input,
    after: CharacterControl,
)
    requires
        before.prev_inputs@[INPUT_BUFFER_SIZE - 1].jump_pressed,
        added.input == input,
        added.prev_inputs@ == before.prev_inputs@.drop_first().push(input),
        transitioned(added, after),
    ensures
        after.jumps == added.jumps,
        after.jump_frames == added.jump_frames,
{
    assert(added.prev_inputs@[INPUT_BUFFER_SIZE - 2] == before.prev_inputs@[INPUT_BUFFER_SIZE - 1]);
}

/// Without directional input the character goes idle; with it, an idle character starts
/// walking, and a dashing or falling one stays so.
pub proof fn lemma_state_follows_input(old: CharacterControl, new: CharacterControl)
    requires
        transitioned(old, new),
    ensures
        old.input.move_x_axis == 0 && old.input.move_y_axis == 0 ==> new.state == CharacterState::Idle,
        (old.input.move_x_axis != 0 || old.input.move_y_axis != 0) && old.state == CharacterState::Idle
            ==> new.state == CharacterState::Walking,
        (old.input.move_x_axis != 0 || old.input.move_y_axis != 0) && old.state == CharacterState::Dashing
            ==> new.state == CharacterState::Dashing,
        (old.input.move_x_axis != 0 || old.input.move_y_axis != 0) && old.state == CharacterState::Falling
            ==> new.state == CharacterState::Falling,
        new.input == old.input,
        new.prev_inputs == old.prev_inputs,
{
}

/// The last event for a key decides whether it is held: a press holds it, a release
/// frees it, and events for other keys or of other kinds leave it as it was.
pub proof fn lemma_last_key_event_wins(initial: bool, inputs: Seq<EngineInput>, key: Key, event: EngineInput)
    ensures
        event matches EngineInput::Key { key: k, state } ==> (k == key ==> key_held(
            initial,
            inputs.push(event),
            key,
        ) == (state == PressState::Pressed)),
        (event matches EngineInput::Key { key: k, .. } ==> k != key) ==> key_held(
            initial,
            inputs.push(event),
            key,
        ) == key_held(initial, inputs, key),
        key_held(initial, Seq::empty(), key) == initial,
{
    assert(inputs.push(event).drop_last() =~= inputs);
}

/// An axis is full positive while its positive direction is held, full negative while
/// only its negative one is, and centred otherwise.
pub proof fn lemma_axis_directions(positive: bool, negative: bool)
    ensures
        positive ==> axis(positive, negative) == i8::MAX,
        !positive && negative ==> axis(positive, negative) == i8::MIN,
        !positive && !negative ==> axis(positive, negative) == 0,
{
}

/// The directions of a controller input follow the signs of its axes: up and right for
/// positive values, down and left for negative ones; a centred axis holds neither.
pub proof fn lemma_directions_follow_signs(input: Input)
    ensures
        spec_logical_input(input).up_held == (input.move_y_axis > 0),
        spec_logical_input(input).down_held == (input.move_y_axis < 0),
        spec_logical_input(input).right_held == (input.move_x_axis > 0),
        spec_logical_input(input).left_held == (input.move_x_axis < 0),
        input.move_x_axis == 0 ==> !spec_logical_input(input).right_held && !spec_logical_input(input).left_held,
{
}

/// No dash without horizontal input: when none of the most recent frames moved sideways,
/// the remembered inputs show no dash; and of `j` frames at most `j` are empty.
pub proof fn lemma_no_dash_without_sideways_input(prev: Seq<Input>)
    requires
        prev.len() == INPUT_BUFFER_SIZE,
        forall|j: int| INPUT_BUFFER_SIZE - MAX_DASH_INPUT_BUFFER <= j < INPUT_BUFFER_SIZE ==> (#[trigger] prev[j]).move_x_axis == 0,
    ensures
        !dash_input(prev),
{
    if dash_input(prev) {
        let j = choose|j: nat|
            j < MAX_DASH_INPUT_BUFFER && prev[INPUT_BUFFER_SIZE - 1 - j].move_x_axis != 0
                && #[trigger] empty_frames(prev, j) > MIN_DASH_INPUT_BUFFER;
        assert(prev[INPUT_BUFFER_SIZE - 1 - j].move_x_axis == 0);
    }
}

/// A character never has used more jumps than it has: the state transition keeps the
/// jump count within the maximum.
pub proof fn lemma_jumps_bounded(old: CharacterControl, new: CharacterControl)
    requires
        old.jumps <= old.max_jumps,
        transitioned(old, new),
    ensures
        new.jumps <= new.max_jumps,
{
}

/// A character dashes only after walking or dashing: the transition never goes from idle
/// or falling to dashing.
pub proof fn lemma_dash_follows_walk(old: CharacterControl, new: CharacterControl)
    requires
        transitioned(old, new),
        new.state == CharacterState::Dashing,
    ensures
        old.state == CharacterState::Walking || old.state == CharacterState::Dashing,
{
}

} // verus!
