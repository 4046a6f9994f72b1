//! Joypad matrix: two 4-bit active-low key groups behind a 2-bit
//! column-select latch.

use vstd::prelude::*;

verus! {

/// Column-select value for the first key group (action keys).
pub const COLUMN_ACTION: u8 = 0x10;
/// Column-select value for the second key group (directional keys).
pub const COLUMN_DIRECTION: u8 = 0x20;

/// The joypad matrix. Key bits are active low: a 1 bit means "not pressed".
pub struct Input {
    /// The column-select latch; only bits 4 and 5 are kept.
    pub column: u8,
    /// The two key groups, 4 bits each.
    pub keys: [u8; 2],
}

impl Input {
    /// What a read of the joypad register yields for a given state:
    /// the selected group's bits, or the neutral all-released value when
    /// no single column is selected.
    pub open spec fn read_spec(self) -> u8 {
        if self.column == COLUMN_ACTION {
            self.keys[0]
        } else if self.column == COLUMN_DIRECTION {
            self.keys[1]
        } else {
            0x0F
        }
    }

    /// Fresh matrix: no column selected, no key pressed.
    pub fn new() -> (inp: Input)
        ensures
            inp.column == 0,
            inp.keys[0] == 0x0F,
            inp.keys[1] == 0x0F,
    {
        Input { column: 0, keys: [0x0F, 0x0F] }
    }

    /// Read the currently selected key group.
    pub fn read(&self) -> (r: u8)
        ensures
            r == self.read_spec(),
    {
        if self.column == COLUMN_ACTION {
            self.keys[0]
        } else if self.column == COLUMN_DIRECTION {
            self.keys[1]
        } else {
            0x0F
        }
    }

    /// Latch a new column selection; only bits 4 and 5 are significant.
    pub fn write(&mut self, value: u8)
        ensures
            final(self).column == value & 0x30,
            final(self).keys == old(self).keys,
    {
        self.column = value & 0x30;
    }
}

} // verus!
