//! The editor's state and the keys that drive it.

use crate::grid::{
    addressable, grown, lemma_width_grown, lemma_width_is_max, lemma_width_with_cell, width_of,
    Grid,
};
use crate::input::{KeyCode, KeyEvent};
use crate::model::{SessionModel, Intent, ModeModel, Model};
use crate::persist::{csv_text, save_csv, SaveError};
use vstd::prelude::*;

verus! {

/// How long the event loop waits for a key before it draws the next frame, in
/// milliseconds.
pub const POLL_TIMEOUT_MS: u64 = 250;

/// An edit session: the cell being edited and the text typed so far.
#[derive(Clone, Debug, PartialEq, Eq)]
pub struct EditSession {
    pub row: usize,
    pub col: usize,
    pub buffer: String,
}

impl View for EditSession {
    type V = SessionModel;

    open spec fn view(&self) -> SessionModel {
        SessionModel { row: self.row as nat, col: self.col as nat, buffer: self.buffer@ }
    }
}

/// The two modes of the editor. The edit buffer exists only while editing.
#[derive(Clone, Debug, PartialEq, Eq)]
pub enum Mode {
    Navigating,
    Editing(EditSession),
}

impl View for Mode {
    type V = ModeModel;

    open spec fn view(&self) -> ModeModel {
        match self {
            Mode::Navigating => ModeModel::Navigating,
            Mode::Editing(e) => ModeModel::Editing(e@),
        }
    }
}

/// The editor: a grid, a cursor on it, the mode, and whether there is
/// something to save.
#[derive(Clone, Debug, PartialEq, Eq)]
pub struct App {
    file_path: String,
    grid: Grid,
    row: usize,
    col: usize,
    mode: Mode,
    dirty: bool,
}

impl View for App {
    type V = Model;

    closed spec fn view(&self) -> Model {
        Model {
            file_path: self.file_path@,
            grid: self.grid@,
            row: self.row as nat,
            col: self.col as nat,
            mode: self.mode@,
            dirty: self.dirty,
        }
    }
}

impl App {
    /// An editor on `grid`, which came from `file_path`: navigating, with the
    /// cursor at the top left and nothing to save.
    pub fn new(file_path: String, grid: Grid) -> (app: App)
        ensures
            app@ == Model::initial(file_path@, grid@),
            app@.wf(),
    {
        App { file_path, grid, row: 0, col: 0, mode: Mode::Navigating, dirty: false }
    }

    /// Whether the editor is in a well-formed state. Every editor that `new`
    /// made is, whatever keys it has handled since.
    pub fn is_well_formed(&self) -> (b: bool)
        ensures
            b == self@.wf(),
    {
        let height = self.grid.height();
        let width = self.grid.width();
        let row_ok = if height == 0 {
            self.row == 0
        } else {
            self.row < height
        };
        let col_ok = if width == 0 {
            self.col == 0
        } else {
            self.col < width
        };
        let session_ok = match &self.mode {
            Mode::Navigating => true,
            Mode::Editing(e) => e.row == self.row && e.col == self.col && e.row < height && e.col
                < self.grid.row_len(e.row),
        };
        row_ok && col_ok && session_ok
    }

    /// The file that the grid came from and is saved to.
    pub fn file_path(&self) -> (p: &str)
        ensures
            p@ == self@.file_path,
    {
        self.file_path.as_str()
    }

    pub fn grid(&self) -> (g: &Grid)
        ensures
            g@ == self@.grid,
    {
        &self.grid
    }

    /// The cursor's row, counted from 0.
    pub fn row(&self) -> (r: usize)
        ensures
            r == self@.row,
    {
        self.row
    }

    /// The cursor's column, counted from 0.
    pub fn col(&self) -> (c: usize)
        ensures
            c == self@.col,
    {
        self.col
    }

    /// The mode, with the edit session while editing.
    pub fn mode(&self) -> (m: &Mode)
        ensures
            m@ == self@.mode,
    {
        &self.mode
    }

    pub fn is_editing(&self) -> (b: bool)
        ensures
            b == self@.is_editing(),
    {
        match &self.mode {
            Mode::Navigating => false,
            Mode::Editing(_) => true,
        }
    }

    /// The text of the edit buffer; empty while navigating.
    pub fn editor_buf(&self) -> (text: &str)
        ensures
            text@ == self@.buffer(),
    {
        match &self.mode {
            Mode::Navigating => {
                proof {
                    reveal_strlit("");
                    assert(""@ =~= Seq::<char>::empty());
                }
                ""
            },
            Mode::Editing(e) => e.buffer.as_str(),
        }
    }

    /// Whether the grid holds a committed edit that was not saved yet.
    pub fn is_dirty(&self) -> (b: bool)
        ensures
            b == self@.dirty,
    {
        self.dirty
    }

    /// The length of the longest row; 0 for a grid without rows.
    pub fn max_cols(&self) -> (w: usize)
        ensures
            w == width_of(self@.grid),
    {
        self.grid.width()
    }

    /// Grows the grid until it holds a cell at `(r, c)`. Nothing else changes.
    pub fn ensure_cell_exists(&mut self, r: usize, c: usize)
        requires
            r < usize::MAX,
            c < usize::MAX,
        ensures
            final(self)@ == (Model { grid: grown(old(self)@.grid, r as int, c as int), ..old(self)@ }),
            old(self)@.wf() ==> final(self)@.wf(),
            addressable(final(self)@.grid, r as int, c as int),
    {
        proof {
            lemma_width_grown(self@.grid, r as int, c as int);
        }
        self.grid.ensure(r, c);
    }

    /// Makes the transition of `key` and says what the key asks of the event
    /// loop. The grid is not saved here: after a save that went through, the
    /// event loop calls `save_finished`.
    pub fn apply_key(&mut self, key: KeyEvent) -> (intent: Intent)
        requires
            old(self)@.wf(),
        ensures
            final(self)@ == old(self)@.next(key),
            intent == old(self)@.intent(key),
            final(self)@.wf(),
    {
        proof {
            self.grid.lemma_bounded();
        }
        match &mut self.mode {
            Mode::Editing(session) => {
                match key.code {
                    KeyCode::Enter => {
                        let row = session.row;
                        let col = session.col;
                        let text = session.buffer.clone();
                        proof {
                            lemma_width_grown(self.grid@, row as int, col as int);
                            lemma_width_with_cell(
                                grown(self.grid@, row as int, col as int),
                                row as int,
                                col as int,
                                text@,
                            );
                        }
                        self.grid.ensure(row, col);
                        self.grid.set(row, col, text);
                        self.mode = Mode::Navigating;
                        self.dirty = true;
                    },
                    KeyCode::Esc => {
                        self.mode = Mode::Navigating;
                    },
                    KeyCode::Backspace => {
                        session.buffer.pop();
                    },
                    KeyCode::Char(c) => {
                        if key.modifiers.is_text() {
                            session.buffer.push(c);
                        }
                    },
                    _ => {},
                }
                Intent::Continue
            },
            Mode::Navigating => {
                match key.code {
                    KeyCode::Char(c) => {
                        if c == 'q' {
                            if self.dirty {
                                Intent::Save { quit: true }
                            } else {
                                Intent::Quit
                            }
                        } else if c == 'w' {
                            Intent::Save { quit: false }
                        } else if c == 'e' {
                            proof {
                                lemma_width_grown(self.grid@, self.row as int, self.col as int);
                            }
                            self.grid.ensure(self.row, self.col);
                            let buffer = self.grid.get(self.row, self.col).to_owned();
                            self.mode = Mode::Editing(
                                EditSession { row: self.row, col: self.col, buffer },
                            );
                            Intent::Continue
                        } else {
                            Intent::Continue
                        }
                    },
                    KeyCode::Left => {
                        if self.col > 0 {
                            self.col -= 1;
                        }
                        Intent::Continue
                    },
                    KeyCode::Right => {
                        let cols = self.max_cols();
                        if self.col + 1 < cols {
                            self.col += 1;
                        }
                        Intent::Continue
                    },
                    KeyCode::Up => {
                        if self.row > 0 {
                            self.move_to_row(self.row - 1);
                        }
                        Intent::Continue
                    },
                    KeyCode::Down => {
                        if self.row + 1 < self.grid.height() {
                            self.move_to_row(self.row + 1);
                        }
                        Intent::Continue
                    },
                    _ => Intent::Continue,
                }
            },
        }
    }

    /// Moves the cursor to `row`, which the grid holds, and clamps its column
    /// into that row.
    fn move_to_row(&mut self, row: usize)
        requires
            old(self)@.wf(),
            old(self)@.mode is Navigating,
            row < old(self)@.grid.len(),
        ensures
            final(self)@ == old(self)@.moved_to_row(row as nat),
            final(self)@.wf(),
    {
        let len = self.grid.row_len(row);
        self.row = row;
        if len == 0 {
            self.col = 0;
        } else if self.col >= len {
            self.col = len - 1;
        }
        proof {
            lemma_width_is_max(self.grid@);
        }
    }

    /// Records that the grid was saved: nothing is left to save.
    pub fn save_finished(&mut self)
        ensures
            final(self)@ == old(self)@.saved(),
            old(self)@.wf() ==> final(self)@.wf(),
    {
        self.dirty = false;
    }
}

/// What the event loop does after a key.
#[derive(Clone, Debug, PartialEq, Eq)]
pub enum Action {
    /// Nothing: it waits for the next key.
    Continue,
    /// It writes `bytes` to the editor's file and, if that went through, calls
    /// `App::save_finished`; then it terminates if `quit`.
    Write { bytes: Vec<u8>, quit: bool },
    /// It terminates.
    Quit,
}

impl Action {
    /// The action that follows the attempt to write the grid as delimited
    /// text, for a key that asked to save: the bytes are handed on to be
    /// written, and a failure is handed on as it is.
    pub fn after_encoding(encoded: Result<Vec<u8>, SaveError>, quit: bool) -> (r: Result<
        Action,
        SaveError,
    >)
        ensures
            match encoded {
                Ok(bytes) => r == Ok::<Action, SaveError>(Action::Write { bytes, quit }),
                Err(e) => r == Err::<Action, SaveError>(e),
            },
    {
        match encoded {
            Ok(bytes) => Ok(Action::Write { bytes, quit }),
            Err(e) => Err(e),
        }
    }
}

/// Handles one key: makes its transition and, where the key asks for a save,
/// hands the grid's delimited text to the event loop to store. A key that
/// asks for a save changes nothing by itself, so a write that fails leaves
/// the editor as it was, with its edits still unsaved.
pub fn handle_key(app: &mut App, key: KeyEvent) -> (r: Result<Action, SaveError>)
    requires
        old(app)@.wf(),
    ensures
        final(app)@ == old(app)@.next(key),
        final(app)@.wf(),
        match old(app)@.intent(key) {
            Intent::Continue => r matches Ok(Action::Continue),
            Intent::Quit => r matches Ok(Action::Quit),
            Intent::Save { quit } => {
                &&& r matches Ok(Action::Write { bytes, quit: q }) && bytes@ == csv_text(
                    old(app)@.grid,
                ) && q == quit
                &&& final(app)@ == old(app)@
            },
        },
{
    match app.apply_key(key) {
        Intent::Continue => Ok(Action::Continue),
        Intent::Quit => Ok(Action::Quit),
        Intent::Save { quit } => Action::after_encoding(save_csv(app.grid()), quit),
    }
}

} // verus!
