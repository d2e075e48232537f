use vstd::prelude::*;

verus! {

/// Which keys the host reports as held.
#[derive(Clone, Copy, Debug, PartialEq, Eq, Structural)]
pub struct JoypadState {
    pub up: bool,
    pub down: bool,
    pub left: bool,
    pub right: bool,
    pub a: bool,
    pub b: bool,
    pub start: bool,
    pub select: bool,
}

/// The joypad register at 0xFF00: two select lines and four output lines (0 = pressed).
#[derive(Clone, Copy, Debug, PartialEq, Eq, Structural)]
pub struct Joypad {
    pub state: JoypadState,
    pub down_start: u8,
    pub up_select: u8,
    pub left_b: u8,
    pub right_a: u8,
    pub interrupt: bool,
    pub direction_selected: bool,
    pub action_selected: bool,
}

pub open spec fn line(pressed: bool) -> u8 {
    if pressed { 0 } else { 1 }
}

impl Joypad {
    pub open spec fn wf(self) -> bool {
        self.down_start <= 1 && self.up_select <= 1 && self.left_b <= 1 && self.right_a <= 1
    }

    /// Whether the key wired to each output line reads as pressed, given the selection.
    pub open spec fn pressed_down_start(self) -> bool {
        (self.direction_selected && self.state.down) || (self.action_selected && self.state.start)
    }

    pub open spec fn pressed_up_select(self) -> bool {
        (self.direction_selected && self.state.up) || (self.action_selected && self.state.select)
    }

    pub open spec fn pressed_left_b(self) -> bool {
        (self.direction_selected && self.state.left) || (self.action_selected && self.state.b)
    }

    pub open spec fn pressed_right_a(self) -> bool {
        (self.direction_selected && self.state.right) || (self.action_selected && self.state.a)
    }

    /// The output lines recomputed; a line falling from 1 to 0 raises the interrupt latch.
    pub open spec fn compute_spec(self) -> Joypad {
        Joypad {
            down_start: line(self.pressed_down_start()),
            up_select: line(self.pressed_up_select()),
            left_b: line(self.pressed_left_b()),
            right_a: line(self.pressed_right_a()),
            interrupt: self.interrupt || (self.pressed_down_start() && self.down_start == 1) || (self.pressed_up_select()
                && self.up_select == 1) || (self.pressed_left_b() && self.left_b == 1) || (self.pressed_right_a()
                && self.right_a == 1),
            ..self
        }
    }

    pub open spec fn write_spec(self, byte: u8) -> Joypad {
        Joypad {
            action_selected: byte & 0x20 == 0,
            direction_selected: byte & 0x10 == 0,
            ..self
        }.compute_spec()
    }

    pub open spec fn read_spec(self) -> u8 {
        (0xC0 + 32 * line(self.action_selected) + 16 * line(self.direction_selected) + 8 * self.down_start
            + 4 * self.up_select + 2 * self.left_b + self.right_a) as u8
    }

    /// No key held, nothing selected.
    pub fn new() -> (r: Joypad)
        ensures
            r.wf(),
            !r.interrupt && !r.direction_selected && !r.action_selected,
            r.down_start == 1 && r.up_select == 1 && r.left_b == 1 && r.right_a == 1,
            r.state == (JoypadState {
                up: false,
                down: false,
                left: false,
                right: false,
                a: false,
                b: false,
                start: false,
                select: false,
            }),
    {
        Joypad {
            state: JoypadState {
                up: false,
                down: false,
                left: false,
                right: false,
                a: false,
                b: false,
                start: false,
                select: false,
            },
            down_start: 1,
            up_select: 1,
            left_b: 1,
            right_a: 1,
            interrupt: false,
            direction_selected: false,
            action_selected: false,
        }
    }

    /// Takes the host's key state.
    pub fn set_state(&mut self, joypad_state: JoypadState)
        requires
            old(self).wf(),
        ensures
            final(self).wf(),
            *final(self) == (Joypad { state: joypad_state, ..*old(self) }).compute_spec(),
    {
        self.state = joypad_state;
        self.compute_value();
    }

    /// Returns and clears the interrupt latch.
    pub fn purge_interrupt(&mut self) -> (r: bool)
        ensures
            r == old(self).interrupt,
            *final(self) == (Joypad { interrupt: false, ..*old(self) }),
    {
        let res: bool = self.interrupt;
        self.interrupt = false;
        res
    }

    fn compute_value(&mut self)
        ensures
            *final(self) == old(self).compute_spec(),
    {
        let d: bool = self.direction_selected;
        let a: bool = self.action_selected;
        if (d && self.state.down) || (a && self.state.start) {
            if self.down_start == 1 {
                self.interrupt = true;
            }
            self.down_start = 0;
        } else {
            self.down_start = 1;
        }
        if (d && self.state.up) || (a && self.state.select) {
            if self.up_select == 1 {
                self.interrupt = true;
            }
            self.up_select = 0;
        } else {
            self.up_select = 1;
        }
        if (d && self.state.left) || (a && self.state.b) {
            if self.left_b == 1 {
                self.interrupt = true;
            }
            self.left_b = 0;
        } else {
            self.left_b = 1;
        }
        if (d && self.state.right) || (a && self.state.a) {
            if self.right_a == 1 {
                self.interrupt = true;
            }
            self.right_a = 0;
        } else {
            self.right_a = 1;
        }
    }

    /// Bits 5 and 4 select the action and direction keys (0 = selected).
    pub fn write(&mut self, byte: u8)
        requires
            old(self).wf(),
        ensures
            final(self).wf(),
            *final(self) == old(self).write_spec(byte),
    {
        self.action_selected = byte & 0x20 == 0;
        self.direction_selected = byte & 0x10 == 0;
        self.compute_value();
    }

    pub fn read(&self) -> (r: u8)
        requires
            self.wf(),
        ensures
            r == self.read_spec(),
    {
        let action_line: u8 = if self.action_selected { 0 } else { 1 };
        let direction_line: u8 = if self.direction_selected { 0 } else { 1 };
        0xC0 + 32 * action_line + 16 * direction_line + 8 * self.down_start + 4 * self.up_select + 2 * self.left_b + self.right_a
    }
}

} // verus!
