//! Controller buttons, as the dispatcher and the submenus see them.

use vstd::prelude::*;

verus! {

/// D-pad down.
pub const DPAD_DOWN: u32 = 0x0004;

/// D-pad up.
pub const DPAD_UP: u32 = 0x0008;

/// The B button: "back".
pub const B: u32 = 0x0400;

/// The A button: "confirm".
pub const A: u32 = 0x0800;

/// The Z button of the extension controller.
pub const Z: u32 = 0x2000;

/// The C button of the extension controller.
pub const C: u32 = 0x4000;

/// One frame's controller state: a bit per button.
///
/// `down` has the bit of every button that is currently held, `pressed` the
/// bit of every button that went down in this frame. Clearing a bit of
/// `pressed` hides that press from whoever reads the pad afterwards.
#[derive(Clone, Copy, Debug, PartialEq, Eq, Structural)]
pub struct Pad {
    pub down: u32,
    pub pressed: u32,
}

impl Pad {
    /// Whether every button of `buttons` is held.
    pub open spec fn holds(self, buttons: u32) -> bool {
        self.down & buttons == buttons
    }

    /// Whether every button of `buttons` went down in this frame.
    pub open spec fn pressing(self, buttons: u32) -> bool {
        self.pressed & buttons == buttons
    }

    /// The pad with the presses of `buttons` taken away.
    pub open spec fn released(self, buttons: u32) -> Pad {
        Pad { down: self.down, pressed: self.pressed & !buttons }
    }

    pub fn new(down: u32, pressed: u32) -> (pad: Pad)
        ensures
            pad == (Pad { down, pressed }),
    {
        Pad { down, pressed }
    }

    pub fn is_down(&self, buttons: u32) -> (held: bool)
        ensures
            held == self.holds(buttons),
    {
        self.down & buttons == buttons
    }

    pub fn is_pressed(&self, buttons: u32) -> (hit: bool)
        ensures
            hit == self.pressing(buttons),
    {
        self.pressed & buttons == buttons
    }

    /// Marks every button of `buttons` as not pressed; what is held stays.
    pub fn set_buttons_not_pressed(&mut self, buttons: u32)
        ensures
            *final(self) == old(self).released(buttons),
    {
        self.pressed = self.pressed & !buttons;
    }

    /// A released button no longer reads as pressed, alone or together with
    /// others.
    pub proof fn lemma_released_not_pressing(self, buttons: u32, asked: u32)
        requires
            buttons & asked != 0,
        ensures
            !self.released(buttons).pressing(asked),
    {
        let p = self.pressed;
        assert(buttons & asked != 0 ==> (p & !buttons) & asked != asked) by (bit_vector);
    }

    /// Releasing some buttons changes nothing for the others.
    pub proof fn lemma_released_keeps_others(self, buttons: u32, asked: u32)
        requires
            buttons & asked == 0,
        ensures
            self.released(buttons).pressing(asked) == self.pressing(asked),
            self.released(buttons).holds(asked) == self.holds(asked),
    {
        let p = self.pressed;
        assert(buttons & asked == 0 ==> (p & !buttons) & asked == p & asked) by (bit_vector);
    }
}

} // verus!
