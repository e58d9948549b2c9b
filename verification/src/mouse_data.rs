use vstd::prelude::*;

verus! {

#[derive(Debug, Clone, Copy, PartialEq, Eq, Structural)]
/// The current state of a mouse button and if it has just been pressed or released
pub struct ButtonState {
    /// The button is held down this frame
    pub down: bool,
    /// The button went down this frame
    pub clicked: bool,
    /// The button went up this frame
    pub released: bool,
}

impl ButtonState {
    /// Create a new button state from this frame's and last frame's "is down" flags;
    /// pressed, clicked and released are derived from them.
    pub fn new(current: bool, last: bool) -> (r: Self)
        ensures
            r.down == current,
            r.clicked == (current && !last),
            r.released == (!current && last),
    {
        ButtonState { down: current, clicked: current && !last, released: !current && last }
    }
}

/// A button that was clicked this frame is held down, a released one is not,
/// and no button is clicked and released in the same frame.
pub proof fn lemma_button_state_consistent(current: bool, last: bool)
    ensures
        ({
            let s = ButtonState { down: current, clicked: current && !last, released: !current && last };
            &&& s.clicked ==> s.down
            &&& s.released ==> !s.down
            &&& !(s.clicked && s.released)
        }),
{
}

#[derive(Debug, Clone, Copy, PartialEq, Eq, Structural)]
/// The current state of the mouse buttons and if they have just been pressed
pub struct MouseState {
    /// The left mouse button
    pub left: ButtonState,
    /// The middle mouse button
    pub middle: ButtonState,
    /// The right mouse button
    pub right: ButtonState,
}

} // verus!
