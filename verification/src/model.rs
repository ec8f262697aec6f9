//! The editor as a state machine over mathematical values: its states, the
//! transition that each key makes, and what each key asks of the event loop.

use crate::grid::{addressable, cell_of, grown, row_len_of, width_of, with_cell};
use crate::input::{KeyCode, KeyEvent};
use vstd::prelude::*;

verus! {

/// An edit session: the cell being edited and the text typed so far.
pub struct SessionModel {
    pub row: nat,
    pub col: nat,
    pub buffer: Seq<char>,
}

/// The two modes of the editor.
pub enum ModeModel {
    Navigating,
    Editing(SessionModel),
}

/// A state of the editor.
pub struct Model {
    /// The file that the grid came from and is saved to.
    pub file_path: Seq<char>,
    pub grid: Seq<Seq<Seq<char>>>,
    /// The cursor's row, counted from 0.
    pub row: nat,
    /// The cursor's column, counted from 0.
    pub col: nat,
    pub mode: ModeModel,
    /// Whether the grid holds a committed edit that was not saved yet.
    pub dirty: bool,
}

/// What a key asks of the event loop, beyond the change of state.
#[derive(Clone, Copy, Debug, PartialEq, Eq)]
pub enum Intent {
    /// Nothing: wait for the next key.
    Continue,
    /// Save the grid; then terminate if `quit`.
    Save { quit: bool },
    /// Terminate.
    Quit,
}

/// The column that a cursor in column `c` takes when it moves onto row `r`:
/// `c` if the row reaches that far, else the row's last column, and 0 on a row
/// without cells.
pub open spec fn clamped_col(g: Seq<Seq<Seq<char>>>, r: int, c: nat) -> nat {
    let n = row_len_of(g, r);
    if n == 0 {
        0
    } else if c < n {
        c
    } else {
        (n - 1) as nat
    }
}

impl Model {
    /// The state in which the editor starts: navigating, with the cursor at
    /// the top left and nothing to save.
    pub open spec fn initial(file_path: Seq<char>, grid: Seq<Seq<Seq<char>>>) -> Model {
        Model { file_path, grid, row: 0, col: 0, mode: ModeModel::Navigating, dirty: false }
    }

    /// The cursor stays within the rows and within the grid's width (a grid
    /// without rows, or without cells, keeps it at 0), and an edit session
    /// targets the cursor's cell, which the grid holds.
    pub open spec fn wf(self) -> bool {
        &&& self.grid.len() == 0 ==> self.row == 0
        &&& self.grid.len() > 0 ==> self.row < self.grid.len()
        &&& width_of(self.grid) == 0 ==> self.col == 0
        &&& width_of(self.grid) > 0 ==> self.col < width_of(self.grid)
        &&& match self.mode {
            ModeModel::Navigating => true,
            ModeModel::Editing(e) => {
                &&& e.row == self.row
                &&& e.col == self.col
                &&& addressable(self.grid, e.row as int, e.col as int)
            },
        }
    }

    pub open spec fn is_editing(self) -> bool {
        self.mode is Editing
    }

    /// The text of the edit buffer; empty while navigating.
    pub open spec fn buffer(self) -> Seq<char> {
        match self.mode {
            ModeModel::Navigating => Seq::empty(),
            ModeModel::Editing(e) => e.buffer,
        }
    }

    /// The state after the cursor moved to row `r`, its column clamped into
    /// that row.
    pub open spec fn moved_to_row(self, r: nat) -> Model {
        Model { row: r, col: clamped_col(self.grid, r as int, self.col), ..self }
    }

    /// The state after the edit key: the grid grown to hold the cursor's cell,
    /// and a session on that cell that starts from the cell's text.
    pub open spec fn editing_entered(self) -> Model {
        Model {
            grid: grown(self.grid, self.row as int, self.col as int),
            mode: ModeModel::Editing(
                SessionModel {
                    row: self.row,
                    col: self.col,
                    buffer: cell_of(self.grid, self.row as int, self.col as int),
                },
            ),
            ..self
        }
    }

    /// The state after a session `e` was committed: its buffer stands in its
    /// cell, the grid counts as changed, and the editor navigates again.
    pub open spec fn committed(self, e: SessionModel) -> Model {
        Model {
            grid: with_cell(
                grown(self.grid, e.row as int, e.col as int),
                e.row as int,
                e.col as int,
                e.buffer,
            ),
            mode: ModeModel::Navigating,
            dirty: true,
            ..self
        }
    }

    /// The state with the edit buffer replaced, while editing.
    pub open spec fn with_buffer(self, e: SessionModel, buffer: Seq<char>) -> Model {
        Model { mode: ModeModel::Editing(SessionModel { buffer, ..e }), ..self }
    }

    /// The state after `key` while navigating.
    pub open spec fn next_navigating(self, key: KeyEvent) -> Model {
        match key.code {
            KeyCode::Left => if self.col > 0 {
                Model { col: (self.col - 1) as nat, ..self }
            } else {
                self
            },
            KeyCode::Right => if self.col + 1 < width_of(self.grid) {
                Model { col: self.col + 1, ..self }
            } else {
                self
            },
            KeyCode::Up => if self.row > 0 {
                self.moved_to_row((self.row - 1) as nat)
            } else {
                self
            },
            KeyCode::Down => if self.row + 1 < self.grid.len() {
                self.moved_to_row(self.row + 1)
            } else {
                self
            },
            KeyCode::Char(c) => if c == 'e' {
                self.editing_entered()
            } else {
                self
            },
            _ => self,
        }
    }

    /// The state after `key` while editing with session `e`.
    pub open spec fn next_editing(self, e: SessionModel, key: KeyEvent) -> Model {
        match key.code {
            KeyCode::Enter => self.committed(e),
            KeyCode::Esc => Model { mode: ModeModel::Navigating, ..self },
            KeyCode::Backspace => if e.buffer.len() > 0 {
                self.with_buffer(e, e.buffer.drop_last())
            } else {
                self
            },
            KeyCode::Char(c) => if key.modifiers.types_text() {
                self.with_buffer(e, e.buffer.push(c))
            } else {
                self
            },
            _ => self,
        }
    }

    /// The state after `key`. Saving is left to the event loop, so the keys
    /// that save change nothing here: see `intent` and `saved`.
    pub open spec fn next(self, key: KeyEvent) -> Model {
        match self.mode {
            ModeModel::Navigating => self.next_navigating(key),
            ModeModel::Editing(e) => self.next_editing(e, key),
        }
    }

    /// What `key` asks of the event loop: while navigating, `w` asks for a
    /// save, and `q` for a save and the end if there is something to save,
    /// else for the end alone. Every other key, and every key while editing,
    /// asks for nothing.
    pub open spec fn intent(self, key: KeyEvent) -> Intent {
        match self.mode {
            ModeModel::Editing(_) => Intent::Continue,
            ModeModel::Navigating => match key.code {
                KeyCode::Char(c) => if c == 'w' {
                    Intent::Save { quit: false }
                } else if c == 'q' {
                    if self.dirty {
                        Intent::Save { quit: true }
                    } else {
                        Intent::Quit
                    }
                } else {
                    Intent::Continue
                },
                _ => Intent::Continue,
            },
        }
    }

    /// The state after a save went through: nothing is left to save.
    pub open spec fn saved(self) -> Model {
        Model { dirty: false, ..self }
    }
}

} // verus!
