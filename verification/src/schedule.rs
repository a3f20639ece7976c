//! The fixed contract schedule: nine contract rows, three dealer columns.
//!
//! The cursor `(game_type_idx, main_player_idx)` selects the active contract
//! symbol and the dealer for the round. Advancing moves along the row and
//! wraps to the next row after the third column; after the last row it wraps
//! back to the first, so the whole schedule is periodic with period 27.

use vstd::prelude::*;

verus! {

/// Contract symbol of a schedule row: Kings, LastTwo, Plus, Queens, Jacks,
/// Plus, Vziatka, Hearts, Plus. Every column of a row carries the same symbol.
pub open spec fn game_symbol(row: int) -> char {
    if row == 0 {
        'K'
    } else if row == 1 {
        '2'
    } else if row == 2 {
        '+'
    } else if row == 3 {
        'Q'
    } else if row == 4 {
        'J'
    } else if row == 5 {
        '+'
    } else if row == 6 {
        'V'
    } else if row == 7 {
        'H'
    } else {
        '+'
    }
}

/// One advance of the cursor: next column, wrapping to the next row after
/// column 2, and back to row 0 after row 8.
pub open spec fn step_cursor(row: int, col: int) -> (int, int) {
    if col == 2 {
        (if row == 8 { 0int } else { row + 1 }, 0int)
    } else {
        (row, col + 1)
    }
}

/// `n` advances of the cursor in sequence.
pub open spec fn step_cursor_n(n: nat, row: int, col: int) -> (int, int)
    decreases n,
{
    if n == 0 {
        (row, col)
    } else {
        let next = step_cursor(row, col);
        step_cursor_n((n - 1) as nat, next.0, next.1)
    }
}

pub struct Schedule {
    pub main_player_idx: usize,
    pub game_type_idx: usize,
}

impl Schedule {
    /// The cursor always stays inside the 9-by-3 table.
    pub open spec fn wf(self) -> bool {
        self.main_player_idx < 3 && self.game_type_idx < 9
    }

    pub fn new() -> (s: Schedule)
        ensures
            s.wf(),
            s.game_type_idx == 0,
            s.main_player_idx == 0,
    {
        Schedule { main_player_idx: 0, game_type_idx: 0 }
    }

    /// The contract symbol at the cursor.
    pub fn get_game(&mut self) -> (g: char)
        requires
            old(self).wf(),
        ensures
            *final(self) == *old(self),
            g == game_symbol(old(self).game_type_idx as int),
    {
        match self.game_type_idx {
            0 => 'K',
            1 => '2',
            2 => '+',
            3 => 'Q',
            4 => 'J',
            5 => '+',
            6 => 'V',
            7 => 'H',
            _ => '+',
        }
    }

    /// Advances the cursor one step and returns the symbol it lands on.
    pub fn next_game(&mut self) -> (g: char)
        requires
            old(self).wf(),
        ensures
            final(self).wf(),
            (final(self).game_type_idx as int, final(self).main_player_idx as int)
                == step_cursor(old(self).game_type_idx as int, old(self).main_player_idx as int),
            g == game_symbol(final(self).game_type_idx as int),
    {
        if self.main_player_idx == 2 {
            self.main_player_idx = 0;
            if self.game_type_idx == 8 {
                self.game_type_idx = 0;
            } else {
                self.game_type_idx = self.game_type_idx + 1;
            }
        } else {
            self.main_player_idx = self.main_player_idx + 1;
        }
        self.get_game()
    }
}

/// Schedule periodicity: starting from the cursor (0, 0), twenty-seven
/// advances return the cursor to (0, 0).
pub proof fn lemma_schedule_period()
    ensures
        step_cursor_n(27, 0, 0) == (0int, 0int),
{
    reveal_with_fuel(step_cursor_n, 28);
    assert(step_cursor_n(27, 0, 0) == (0int, 0int));
}

} // verus!
