//! Laws of the editor, proved of every state and every key.

use crate::grid::{
    addressable, cell_of, grown, lemma_width_grown, lemma_width_is_max, lemma_width_with_cell,
    row_len_of, width_of,
};
use crate::input::{KeyCode, KeyEvent};
use crate::model::{Intent, ModeModel, Model};
use crate::persist::csv_text;
use vstd::prelude::*;

verus! {

/// The state after the keys of `keys`, pressed in their order.
pub open spec fn run(s: Model, keys: Seq<KeyEvent>) -> Model
    decreases keys.len(),
{
    if keys.len() == 0 {
        s
    } else {
        run(s, keys.drop_last()).next(keys.last())
    }
}

/// Whether `keys` types `text`: a character key for each character, in their
/// order, each pressed with no modifier or with shift alone.
pub open spec fn types(keys: Seq<KeyEvent>, text: Seq<char>) -> bool {
    &&& keys.len() == text.len()
    &&& forall|i: int|
        0 <= i < keys.len() ==> (#[trigger] keys[i]).code == KeyCode::Char(text[i])
            && keys[i].modifiers.types_text()
}

/// Whether none of `keys` ends an edit session: none is Enter or Escape.
pub open spec fn stays_in_session(keys: Seq<KeyEvent>) -> bool {
    forall|i: int|
        0 <= i < keys.len() ==> (#[trigger] keys[i]).code != KeyCode::Enter && keys[i].code
            != KeyCode::Esc
}

/// Growing a grid towards `(r, c)` makes that cell addressable, adds rows only
/// up to row `r` and cells only in row `r` up to column `c`, leaves every new
/// cell empty, and alters no cell that was there.
pub proof fn law_grown(g: Seq<Seq<Seq<char>>>, r: int, c: int)
    requires
        0 <= r,
        0 <= c,
    ensures
        addressable(grown(g, r, c), r, c),
        grown(g, r, c).len() == if r < g.len() {
            g.len()
        } else {
            (r + 1) as nat
        },
        forall|i: int| 0 <= i < g.len() && i != r ==> #[trigger] grown(g, r, c)[i] == g[i],
        forall|i: int| g.len() <= i < grown(g, r, c).len() && i != r ==> (#[trigger] grown(
            g,
            r,
            c,
        )[i]).len() == 0,
        grown(g, r, c)[r].len() == if c < row_len_of(g, r) {
            row_len_of(g, r)
        } else {
            (c + 1) as nat
        },
        forall|i: int, j: int| #[trigger]
            addressable(g, i, j) ==> addressable(grown(g, r, c), i, j) && grown(g, r, c)[i][j]
                == g[i][j],
        forall|i: int, j: int|
            addressable(grown(g, r, c), i, j) && !addressable(g, i, j) ==> #[trigger] grown(
                g,
                r,
                c,
            )[i][j] == Seq::<char>::empty() && i == r && j <= c,
        forall|i: int, j: int| #[trigger] cell_of(grown(g, r, c), i, j) == cell_of(g, i, j),
        addressable(g, r, c) ==> grown(g, r, c) == g,
{
    if addressable(g, r, c) {
        assert(grown(g, r, c) =~~= g);
    }
}

/// Every key takes a well-formed state to a well-formed state: the cursor
/// never leaves the grid.
pub proof fn law_next_wf(s: Model, key: KeyEvent)
    requires
        s.wf(),
    ensures
        s.next(key).wf(),
        s.saved().wf(),
{
    lemma_width_is_max(s.grid);
    match s.mode {
        ModeModel::Navigating => {
            lemma_width_grown(s.grid, s.row as int, s.col as int);
        },
        ModeModel::Editing(e) => {
            lemma_width_grown(s.grid, e.row as int, e.col as int);
            lemma_width_with_cell(
                grown(s.grid, e.row as int, e.col as int),
                e.row as int,
                e.col as int,
                e.buffer,
            );
        },
    }
}

/// Every run of keys takes a well-formed state to a well-formed state.
pub proof fn law_run_wf(s: Model, keys: Seq<KeyEvent>)
    requires
        s.wf(),
    ensures
        run(s, keys).wf(),
    decreases keys.len(),
{
    if keys.len() > 0 {
        law_run_wf(s, keys.drop_last());
        law_next_wf(run(s, keys.drop_last()), keys.last());
    }
}

/// While a session lasts, the keys change the buffer and nothing else.
pub proof fn lemma_session_keeps_rest(s: Model, keys: Seq<KeyEvent>)
    requires
        s.mode is Editing,
        stays_in_session(keys),
    ensures
        run(s, keys).mode is Editing,
        run(s, keys) == s.with_buffer(s.mode->Editing_0, run(s, keys).buffer()),
    decreases keys.len(),
{
    if keys.len() > 0 {
        lemma_session_keeps_rest(s, keys.drop_last());
        assert(keys.last() == keys[keys.len() - 1]);
    }
}

/// Typing a text appends it to the buffer.
pub proof fn lemma_typing_appends(s: Model, keys: Seq<KeyEvent>, text: Seq<char>)
    requires
        s.mode is Editing,
        types(keys, text),
    ensures
        run(s, keys) == s.with_buffer(s.mode->Editing_0, s.buffer() + text),
    decreases keys.len(),
{
    if keys.len() == 0 {
        assert(s.buffer() + text =~= s.buffer());
    } else {
        let n = keys.len() - 1;
        assert(types(keys.drop_last(), text.drop_last())) by {
            assert forall|i: int| 0 <= i < n implies (#[trigger] keys.drop_last()[i]).code
                == KeyCode::Char(text.drop_last()[i]) && keys.drop_last()[i].modifiers.types_text() by {
                assert(keys.drop_last()[i] == keys[i]);
            }
        }
        lemma_typing_appends(s, keys.drop_last(), text.drop_last());
        assert(keys.last() == keys[n]);
        assert((s.buffer() + text.drop_last()).push(text[n]) =~= s.buffer() + text);
    }
}

/// The texts of the grid change by a commit and by nothing else: after any
/// key but Enter in an edit session, every cell reads as before. The flag is
/// set by a commit and cleared by a save that went through, and by nothing
/// else.
pub proof fn law_only_commit_changes_texts(s: Model, key: KeyEvent)
    requires
        s.wf(),
        !(s.mode is Editing && key.code == KeyCode::Enter),
    ensures
        forall|r: int, c: int| #[trigger]
            cell_of(s.next(key).grid, r, c) == cell_of(s.grid, r, c),
        s.next(key).dirty == s.dirty,
        s.next(key).file_path == s.file_path,
        s.saved().grid == s.grid,
{
    law_grown(s.grid, s.row as int, s.col as int);
}

/// Edit and commit. The edit key opens a session whose buffer is the text of
/// the cursor's cell. Typing a text and pressing Enter then puts that text,
/// with what was typed after it, into that cell; marks the grid as changed;
/// returns to navigating with the cursor where it was; and leaves the text of
/// every other cell as it was.
pub proof fn law_edit_commit(s: Model, keys: Seq<KeyEvent>, text: Seq<char>)
    requires
        s.wf(),
        s.mode is Navigating,
        types(keys, text),
    ensures
        ({
            let entered = s.next(KeyEvent::plain(KeyCode::Char('e')));
            let before = cell_of(s.grid, s.row as int, s.col as int);
            let done = run(entered, keys).next(KeyEvent::plain(KeyCode::Enter));
            &&& entered.is_editing()
            &&& entered.buffer() == before
            &&& run(entered, keys).buffer() == before + text
            &&& addressable(done.grid, s.row as int, s.col as int)
            &&& cell_of(done.grid, s.row as int, s.col as int) == before + text
            &&& forall|r: int, c: int|
                r != s.row || c != s.col ==> #[trigger] cell_of(done.grid, r, c) == cell_of(
                    s.grid,
                    r,
                    c,
                )
            &&& done.dirty
            &&& done.mode is Navigating
            &&& done.row == s.row
            &&& done.col == s.col
            &&& done.file_path == s.file_path
        }),
{
    let entered = s.next(KeyEvent::plain(KeyCode::Char('e')));
    let r = s.row as int;
    let c = s.col as int;
    lemma_typing_appends(entered, keys, text);
    law_grown(s.grid, r, c);
    law_grown(entered.grid, r, c);
    let done = run(entered, keys).next(KeyEvent::plain(KeyCode::Enter));
    assert forall|i: int, j: int| i != s.row || j != s.col implies #[trigger] cell_of(
        done.grid,
        i,
        j,
    ) == cell_of(s.grid, i, j) by {
        assert(cell_of(entered.grid, i, j) == cell_of(s.grid, i, j));
    }
}

/// Edit and cancel, on a cell that the grid holds. The edit key, any keys that
/// stay in the session, and Escape lead back to the state before the edit key:
/// the same grid, the same flag, the same cursor.
pub proof fn law_edit_cancel(s: Model, keys: Seq<KeyEvent>)
    requires
        s.wf(),
        s.mode is Navigating,
        addressable(s.grid, s.row as int, s.col as int),
        stays_in_session(keys),
    ensures
        run(s.next(KeyEvent::plain(KeyCode::Char('e'))), keys).next(
            KeyEvent::plain(KeyCode::Esc),
        ) == s,
{
    let entered = s.next(KeyEvent::plain(KeyCode::Char('e')));
    law_grown(s.grid, s.row as int, s.col as int);
    lemma_session_keeps_rest(entered, keys);
}

/// Edit and cancel, on any cell. The edit key, any keys that stay in the
/// session, and Escape change nothing but the extent of the grid, which has
/// grown to hold the cursor's cell: every cell reads as before, the flag and
/// the cursor are as before, and the editor navigates again.
pub proof fn law_edit_cancel_keeps_texts(s: Model, keys: Seq<KeyEvent>)
    requires
        s.wf(),
        s.mode is Navigating,
        stays_in_session(keys),
    ensures
        run(s.next(KeyEvent::plain(KeyCode::Char('e'))), keys).next(
            KeyEvent::plain(KeyCode::Esc),
        ) == (Model { grid: grown(s.grid, s.row as int, s.col as int), ..s }),
        forall|r: int, c: int| #[trigger]
            cell_of(grown(s.grid, s.row as int, s.col as int), r, c) == cell_of(s.grid, r, c),
{
    let entered = s.next(KeyEvent::plain(KeyCode::Char('e')));
    law_grown(s.grid, s.row as int, s.col as int);
    lemma_session_keeps_rest(entered, keys);
}

/// Bounds. While navigating, left in column 0, up in row 0, right in the last
/// column of the grid and down in its last row change nothing. A move up or
/// down that does change the row leaves the cursor in a column of the new row:
/// the old column where the row reaches that far, else the row's last column,
/// and column 0 on a row without cells.
pub proof fn law_bounds_clamp(s: Model)
    requires
        s.wf(),
        s.mode is Navigating,
    ensures
        s.col == 0 ==> s.next(KeyEvent::plain(KeyCode::Left)) == s,
        s.row == 0 ==> s.next(KeyEvent::plain(KeyCode::Up)) == s,
        s.col + 1 >= width_of(s.grid) ==> s.next(KeyEvent::plain(KeyCode::Right)) == s,
        s.row + 1 >= s.grid.len() ==> s.next(KeyEvent::plain(KeyCode::Down)) == s,
        s.col > 0 ==> s.next(KeyEvent::plain(KeyCode::Left)) == (Model {
            col: (s.col - 1) as nat,
            ..s
        }),
        s.col + 1 < width_of(s.grid) ==> s.next(KeyEvent::plain(KeyCode::Right)) == (Model {
            col: s.col + 1,
            ..s
        }),
        s.row > 0 ==> vertical_move(s, s.next(KeyEvent::plain(KeyCode::Up)), s.row - 1),
        s.row + 1 < s.grid.len() ==> vertical_move(
            s,
            s.next(KeyEvent::plain(KeyCode::Down)),
            s.row as int + 1,
        ),
{
}

/// Whether `t` is `s` after the cursor moved to row `row`, its column clamped
/// into that row's range.
pub open spec fn vertical_move(s: Model, t: Model, row: int) -> bool {
    let len = row_len_of(s.grid, row);
    &&& t == (Model { row: t.row, col: t.col, ..s })
    &&& t.row == row
    &&& t.col <= s.col
    &&& s.col < len ==> t.col == s.col
    &&& 0 < len <= s.col ==> t.col == len - 1
    &&& len == 0 ==> t.col == 0
}

/// Auto-grow. The edit key grows the grid just far enough to hold the
/// cursor's cell: what `law_grown` says of growing holds of it, and the cursor
/// stays where it was.
pub proof fn law_auto_grow(s: Model)
    requires
        s.wf(),
        s.mode is Navigating,
    ensures
        ({
            let t = s.next(KeyEvent::plain(KeyCode::Char('e')));
            &&& t.grid == grown(s.grid, s.row as int, s.col as int)
            &&& addressable(t.grid, s.row as int, s.col as int)
            &&& forall|i: int, j: int| #[trigger]
                addressable(s.grid, i, j) ==> addressable(t.grid, i, j) && t.grid[i][j]
                    == s.grid[i][j]
            &&& forall|i: int, j: int|
                addressable(t.grid, i, j) && !addressable(s.grid, i, j) ==> #[trigger] t.grid[i][j]
                    == Seq::<char>::empty() && i == s.row && j <= s.col
            &&& t.row == s.row
            &&& t.col == s.col
            &&& t.dirty == s.dirty
        }),
{
    law_grown(s.grid, s.row as int, s.col as int);
}

/// Quit saves what is unsaved. While navigating with something to save, `q`
/// asks for a save and the end, and changes nothing by itself; once the save
/// went through, nothing is left to save. With nothing to save, `q` asks for
/// the end alone.
pub proof fn law_quit_saves_when_dirty(s: Model)
    requires
        s.mode is Navigating,
    ensures
        s.next(KeyEvent::plain(KeyCode::Char('q'))) == s,
        s.dirty ==> s.intent(KeyEvent::plain(KeyCode::Char('q'))) == (Intent::Save { quit: true }),
        !s.dirty ==> s.intent(KeyEvent::plain(KeyCode::Char('q'))) == Intent::Quit,
        !s.saved().dirty,
        s.saved().grid == s.grid,
{
}

/// Saving twice. While navigating, `w` asks for a save in every state, and a
/// second `w` after a save that went through asks for the same bytes to be
/// written as the first.
pub proof fn law_save_twice_same_text(s: Model)
    requires
        s.mode is Navigating,
    ensures
        ({
            let w = KeyEvent::plain(KeyCode::Char('w'));
            let again = s.next(w).saved();
            &&& s.intent(w) == (Intent::Save { quit: false })
            &&& again.intent(w) == (Intent::Save { quit: false })
            &&& csv_text(again.next(w).grid) == csv_text(s.grid)
            &&& again.next(w).saved() == again
        }),
{
}

} // verus!
