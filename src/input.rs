use vstd::prelude::*;

verus! {

/// Pointer and run state gathered from window events.
#[derive(Clone, Copy, Debug, PartialEq, Eq, Structural)]
pub struct GlutinInput {
    pub mouse_down: bool,
    pub mouse_x: usize,
    pub mouse_y: usize,
    pub running: bool,
}

impl GlutinInput {
    /// No button held, pointer at the origin, running.
    pub fn new() -> (i: Self)
        ensures
            i == (GlutinInput { mouse_down: false, mouse_x: 0, mouse_y: 0, running: true }),
    {
        GlutinInput { mouse_down: false, mouse_x: 0, mouse_y: 0, running: true }
    }

    /// A button was pressed or released.
    pub fn mouse_input(&mut self, pressed: bool)
        ensures
            *final(self) == (GlutinInput { mouse_down: pressed, ..*old(self) }),
    {
        self.mouse_down = pressed;
    }

    /// The pointer moved to window coordinates `(x, y)`; coordinates left of
    /// or above the window wrap around as `as usize` does.
    pub fn cursor_moved(&mut self, x: i32, y: i32)
        ensures
            *final(self) == (GlutinInput { mouse_x: x as usize, mouse_y: y as usize, ..*old(self) }),
    {
        self.mouse_x = (#[verifier::truncate] (x as usize));
        self.mouse_y = (#[verifier::truncate] (y as usize));
    }

    /// The window was asked to close.
    pub fn close_requested(&mut self)
        ensures
            *final(self) == (GlutinInput { running: false, ..*old(self) }),
    {
        self.running = false;
    }

    /// Whether the pointer button is held.
    pub fn is_mouse_down(&self) -> (r: bool)
        ensures
            r == self.mouse_down,
    {
        self.mouse_down
    }

    /// The pointer position.
    pub fn get_mouse_pos(&self) -> (r: (usize, usize))
        ensures
            r == (self.mouse_x, self.mouse_y),
    {
        (self.mouse_x, self.mouse_y)
    }

    /// Whether the display should keep running.
    pub fn do_continue(&self) -> (r: bool)
        ensures
            r == self.running,
    {
        self.running
    }
}

} // verus!
