use vstd::prelude::*;

use std::collections::HashSet;

verus! {

broadcast use vstd::std_specs::hash::group_hash_axioms;

/// What a family of buttons looks like at one moment: the buttons held
/// down, those that went down during the current frame, and those that came
/// up during it.
#[verifier::ext_equal]
pub struct ButtonState {
    pub held: Set<u32>,
    pub pressed: Set<u32>,
    pub released: Set<u32>,
}

impl ButtonState {
    /// Nothing held, pressed or released.
    pub open spec fn idle() -> ButtonState {
        ButtonState { held: Set::empty(), pressed: Set::empty(), released: Set::empty() }
    }

    /// A button went down: a held button stays as it is (a repeat is no new
    /// press); any other becomes held and pressed during this frame.
    pub open spec fn press(self, button: u32) -> ButtonState {
        if self.held.contains(button) {
            self
        } else {
            ButtonState {
                held: self.held.insert(button),
                pressed: self.pressed.insert(button),
                released: self.released,
            }
        }
    }

    /// A button came up: a held button stops being held and counts as
    /// released during this frame; any other changes nothing.
    pub open spec fn release(self, button: u32) -> ButtonState {
        if self.held.contains(button) {
            ButtonState {
                held: self.held.remove(button),
                pressed: self.pressed,
                released: self.released.insert(button),
            }
        } else {
            self
        }
    }

    /// The frame ends: what went down or came up is forgotten, what is held
    /// stays held.
    pub open spec fn end_frame(self) -> ButtonState {
        ButtonState { held: self.held, pressed: Set::empty(), released: Set::empty() }
    }
}

/// The state of a family of buttons (the keys of a keyboard, or the buttons
/// of a mouse), each named by a number.
#[derive(Debug)]
pub struct ButtonInput {
    held: HashSet<u32>,
    just_pressed: HashSet<u32>,
    just_released: HashSet<u32>,
}

impl View for ButtonInput {
    type V = ButtonState;

    closed spec fn view(&self) -> ButtonState {
        ButtonState { held: self.held@, pressed: self.just_pressed@, released: self.just_released@ }
    }
}

impl ButtonInput {
    /// No button held, pressed or released.
    pub fn new() -> (input: Self)
        ensures
            input@ == ButtonState::idle(),
    {
        let input = Self {
            held: HashSet::new(),
            just_pressed: HashSet::new(),
            just_released: HashSet::new(),
        };
        assert(input@ =~= ButtonState::idle());
        input
    }

    /// A button went down.
    pub fn press(&mut self, button: u32)
        ensures
            final(self)@ == old(self)@.press(button),
    {
        if !self.held.contains(&button) {
            self.held.insert(button);
            self.just_pressed.insert(button);
        }
    }

    /// A button came up.
    pub fn release(&mut self, button: u32)
        ensures
            final(self)@ == old(self)@.release(button),
    {
        let ghost pre = self@;
        if self.held.remove(&button) {
            self.just_released.insert(button);
        } else {
            assert(self.held@ =~= pre.held);
        }
    }

    /// Ends the frame.
    pub fn end_frame(&mut self)
        ensures
            final(self)@ == old(self)@.end_frame(),
    {
        self.just_pressed.clear();
        self.just_released.clear();
    }

    /// Whether `button` is held down.
    pub fn held(&self, button: u32) -> (r: bool)
        ensures
            r == self@.held.contains(button),
    {
        self.held.contains(&button)
    }

    /// Whether `button` went down during this frame.
    pub fn just_pressed(&self, button: u32) -> (r: bool)
        ensures
            r == self@.pressed.contains(button),
    {
        self.just_pressed.contains(&button)
    }

    /// Whether `button` came up during this frame.
    pub fn just_released(&self, button: u32) -> (r: bool)
        ensures
            r == self@.released.contains(button),
    {
        self.just_released.contains(&button)
    }
}

/// Pressing a button twice is pressing it once.
pub proof fn press_is_idempotent(state: ButtonState, button: u32)
    ensures
        state.press(button).press(button) == state.press(button),
{
}

/// Releasing a button twice is releasing it once.
pub proof fn release_is_idempotent(state: ButtonState, button: u32)
    ensures
        state.release(button).release(button) == state.release(button),
{
}

/// A button that goes down and comes up within one frame ends up not held,
/// and is reported both as pressed and as released in that frame.
pub proof fn tap_within_frame(state: ButtonState, button: u32)
    requires
        !state.held.contains(button),
    ensures
        state.press(button).release(button).held == state.held,
        state.press(button).release(button).pressed.contains(button),
        state.press(button).release(button).released.contains(button),
{
    assert(state.press(button).release(button).held =~= state.held);
}

/// Across the end of a frame a held button stays held and nothing is
/// reported as pressed or released; a second end of frame changes nothing.
pub proof fn end_frame_keeps_held(state: ButtonState)
    ensures
        state.end_frame().held == state.held,
        state.end_frame().pressed.is_empty(),
        state.end_frame().released.is_empty(),
        state.end_frame().end_frame() == state.end_frame(),
{
}

/// Pressing and releasing different buttons do not affect each other.
pub proof fn buttons_are_independent(state: ButtonState, a: u32, b: u32)
    requires
        a != b,
    ensures
        state.press(a).held.contains(b) == state.held.contains(b),
        state.release(a).held.contains(b) == state.held.contains(b),
        state.press(a).press(b) == state.press(b).press(a),
        state.release(a).release(b) == state.release(b).release(a),
{
    assert(state.press(a).press(b) =~= state.press(b).press(a));
    assert(state.release(a).release(b) =~= state.release(b).release(a));
}

/// A new button state has nothing held, pressed or released.
pub proof fn idle_is_empty()
    ensures
        ButtonState::idle().held.is_empty(),
        ButtonState::idle().pressed.is_empty(),
        ButtonState::idle().released.is_empty(),
{
}

/// Pressing a button that is not held makes it held and pressed in this
/// frame, and touches nothing else; pressing a button that is already held
/// (a repeat) changes nothing at all, whatever was pressed or released in
/// this frame.
pub proof fn press_law(state: ButtonState, button: u32)
    ensures
        state.press(button).held.contains(button),
        !state.held.contains(button) ==> {
            &&& state.press(button).held == state.held.insert(button)
            &&& state.press(button).pressed == state.pressed.insert(button)
            &&& state.press(button).released == state.released
        },
        state.held.contains(button) ==> {
            &&& state.press(button).held == state.held
            &&& state.press(button).pressed == state.pressed
            &&& state.press(button).released == state.released
        },
{
}

/// Releasing a held button makes it no longer held and reports it as
/// released in this frame, however long it was held and whatever was pressed
/// in this frame; the pressed buttons stay as they were. Releasing a button
/// that is not held changes nothing.
pub proof fn release_law(state: ButtonState, button: u32)
    ensures
        !state.release(button).held.contains(button),
        state.held.contains(button) ==> {
            &&& state.release(button).held == state.held.remove(button)
            &&& state.release(button).pressed == state.pressed
            &&& state.release(button).released == state.released.insert(button)
        },
        !state.held.contains(button) ==> {
            &&& state.release(button).held == state.held
            &&& state.release(button).pressed == state.pressed
            &&& state.release(button).released == state.released
        },
{
    if !state.held.contains(button) {
        assert(state.held.remove(button) =~= state.held);
    }
}

/// A button held across the end of a frame and then let go is no longer
/// held and is reported as released in the new frame, not as pressed.
pub proof fn release_after_frame_end(state: ButtonState, button: u32)
    requires
        state.held.contains(button),
    ensures
        !state.end_frame().release(button).held.contains(button),
        state.end_frame().release(button).released == set![button],
        state.end_frame().release(button).pressed.is_empty(),
{
    assert(Set::<u32>::empty().insert(button) =~= set![button]);
}

/// A button held across the end of a frame and pressed again (an
/// auto-repeat) stays held and is reported neither as pressed nor as
/// released.
pub proof fn repeat_after_frame_end(state: ButtonState, button: u32)
    requires
        state.held.contains(button),
    ensures
        state.end_frame().press(button).held == state.held,
        state.end_frame().press(button).pressed.is_empty(),
        state.end_frame().press(button).released.is_empty(),
{
}

} // verus!
