//! The render projector: what a frame shows of an editor, as plain values.
//! Nothing here changes the editor, so a frame can be made at every tick.

use crate::editor::{App, Mode};
use crate::grid::{cell_of, width_of};
use crate::model::{ModeModel, Model};
use crate::text::{decimal, push_position};
use vstd::prelude::*;

verus! {

/// Least height of the table region, in lines.
pub const TABLE_MIN_HEIGHT: u16 = 3;

/// Height of the status region, in lines.
pub const STATUS_HEIGHT: u16 = 3;

/// Height of the editor region, in lines.
pub const EDITOR_HEIGHT: u16 = 3;

/// Least width of a table column, in characters.
pub const COLUMN_MIN_WIDTH: u16 = 5;

/// Space between two table columns, in characters.
pub const COLUMN_SPACING: u16 = 1;

/// One cell of the table region.
#[derive(Clone, Debug, PartialEq, Eq)]
pub struct CellView {
    pub text: String,
    /// Whether the cursor is on this cell: it is shown highlighted.
    pub selected: bool,
}

/// A cell of the table region, as mathematical values.
pub struct CellModel {
    pub text: Seq<char>,
    pub selected: bool,
}

impl View for CellView {
    type V = CellModel;

    open spec fn view(&self) -> CellModel {
        CellModel { text: self.text@, selected: self.selected }
    }
}

/// The table region: one row for each row of the grid, each with `columns`
/// cells.
#[derive(Clone, Debug, PartialEq, Eq)]
pub struct TableView {
    pub title: String,
    pub columns: usize,
    pub rows: Vec<Vec<CellView>>,
}

/// The status region: where the editor stands, and the key bindings.
#[derive(Clone, Debug, PartialEq, Eq)]
pub struct StatusView {
    pub title: String,
    pub status: String,
    pub help: String,
}

/// The editor region: the edit in progress, or how to begin one.
#[derive(Clone, Debug, PartialEq, Eq)]
pub struct EditorView {
    pub title: String,
    pub content: String,
}

/// A frame: the three regions, from top to bottom.
#[derive(Clone, Debug, PartialEq, Eq)]
pub struct FrameView {
    pub table: TableView,
    pub status: StatusView,
    pub editor: EditorView,
}

/// The table region, as mathematical values.
pub struct TableModel {
    pub title: Seq<char>,
    pub columns: nat,
    pub rows: Seq<Seq<CellModel>>,
}

/// The status region, as mathematical values.
pub struct StatusModel {
    pub title: Seq<char>,
    pub status: Seq<char>,
    pub help: Seq<char>,
}

/// The editor region, as mathematical values.
pub struct EditorModel {
    pub title: Seq<char>,
    pub content: Seq<char>,
}

/// A frame, as mathematical values.
pub struct FrameModel {
    pub table: TableModel,
    pub status: StatusModel,
    pub editor: EditorModel,
}

/// The cells of one row of the table region.
pub open spec fn cells_view(cells: Seq<CellView>) -> Seq<CellModel> {
    Seq::new(cells.len(), |c: int| cells[c]@)
}

impl View for TableView {
    type V = TableModel;

    open spec fn view(&self) -> TableModel {
        TableModel {
            title: self.title@,
            columns: self.columns as nat,
            rows: Seq::new(self.rows@.len(), |r: int| cells_view(self.rows@[r]@)),
        }
    }
}

impl View for StatusView {
    type V = StatusModel;

    open spec fn view(&self) -> StatusModel {
        StatusModel { title: self.title@, status: self.status@, help: self.help@ }
    }
}

impl View for EditorView {
    type V = EditorModel;

    open spec fn view(&self) -> EditorModel {
        EditorModel { title: self.title@, content: self.content@ }
    }
}

impl View for FrameView {
    type V = FrameModel;

    open spec fn view(&self) -> FrameModel {
        FrameModel { table: self.table@, status: self.status@, editor: self.editor@ }
    }
}

/// The number of columns that the table shows: the grid's width, and 1 for a
/// grid without cells.
pub open spec fn columns_of(g: Seq<Seq<Seq<char>>>) -> nat {
    if width_of(g) == 0 {
        1
    } else {
        width_of(g)
    }
}

/// The table of a state: a row for each row of the grid; in each row a cell
/// for each column, with the text that the grid holds there, or none; and the
/// cell under the cursor selected, no other.
pub open spec fn table_of(m: Model) -> TableModel {
    TableModel {
        title: "CSV Viewer"@,
        columns: columns_of(m.grid),
        rows: Seq::new(
            m.grid.len(),
            |r: int|
                Seq::new(
                    columns_of(m.grid),
                    |c: int|
                        CellModel {
                            text: cell_of(m.grid, r, c),
                            selected: r == m.row && c == m.col,
                        },
                ),
        ),
    }
}

/// The status line of a state: the file, the cursor's position counted from
/// 1, and whether there is something to save.
pub open spec fn status_line_of(m: Model) -> Seq<char> {
    "File: "@ + m.file_path + " | Pos: (row "@ + decimal(m.row + 1) + ", col "@ + decimal(
        m.col + 1,
    ) + ") | Dirty: "@ + if m.dirty {
        "yes"@
    } else {
        "no"@
    }
}

/// The status region of a state: its status line, and the line that names
/// the key bindings.
pub open spec fn status_of(m: Model) -> StatusModel {
    StatusModel {
        title: "Status"@,
        status: status_line_of(m),
        help: "Arrows: move  e: edit  Enter: save cell  Esc: cancel  w: write  q: quit"@,
    }
}

/// The editor region of a state: while editing, the target cell counted from
/// 1 and the buffer as it stands; else how to begin an edit.
pub open spec fn editor_of(m: Model) -> EditorModel {
    match m.mode {
        ModeModel::Editing(e) => EditorModel {
            title: "Editor"@,
            content: "Editing (r"@ + decimal(e.row + 1) + ", c"@ + decimal(e.col + 1) + "): "@
                + e.buffer,
        },
        ModeModel::Navigating => EditorModel {
            title: "Info"@,
            content: "Press 'e' to edit selected cell"@,
        },
    }
}

/// The frame of a state.
pub open spec fn frame_of(m: Model) -> FrameModel {
    FrameModel { table: table_of(m), status: status_of(m), editor: editor_of(m) }
}

/// The table region of a frame.
pub fn draw_table(app: &App) -> (t: TableView)
    ensures
        t@ == table_of(app@),
{
    let grid = app.grid();
    let rows_len = grid.height();
    let cols_len = app.max_cols();
    let cols = if cols_len == 0 {
        1
    } else {
        cols_len
    };
    let mut rows: Vec<Vec<CellView>> = Vec::with_capacity(if rows_len == 0 { 1 } else { rows_len });
    let mut r: usize = 0;
    while r < rows_len
        invariant
            r <= rows_len,
            rows_len == app@.grid.len(),
            grid@ == app@.grid,
            cols == columns_of(app@.grid),
            rows.len() == r,
            forall|i: int| 0 <= i < r ==> cells_view(#[trigger] rows@[i]@) == table_of(app@).rows[i],
        decreases rows_len - r,
    {
        let mut cells: Vec<CellView> = Vec::with_capacity(cols);
        let mut c: usize = 0;
        while c < cols
            invariant
                c <= cols,
                r < rows_len,
                rows_len == app@.grid.len(),
                grid@ == app@.grid,
                cols == columns_of(app@.grid),
                cells.len() == c,
                forall|j: int|
                    0 <= j < c ==> (#[trigger] cells@[j])@ == table_of(app@).rows[r as int][j],
            decreases cols - c,
        {
            let text = grid.get(r, c).to_owned();
            cells.push(CellView { text, selected: r == app.row() && c == app.col() });
            c += 1;
        }
        assert(cells_view(cells@) =~= table_of(app@).rows[r as int]);
        rows.push(cells);
        r += 1;
    }
    let t = TableView { title: "CSV Viewer".to_owned(), columns: cols, rows };
    assert(t@.rows =~= table_of(app@).rows);
    t
}

/// The status region of a frame.
pub fn draw_status(app: &App) -> (s: StatusView)
    ensures
        s@ == status_of(app@),
{
    let mut status = "File: ".to_owned();
    status.append(app.file_path());
    status.append(" | Pos: (row ");
    push_position(&mut status, app.row());
    status.append(", col ");
    push_position(&mut status, app.col());
    status.append(") | Dirty: ");
    status.append(
        if app.is_dirty() {
            "yes"
        } else {
            "no"
        },
    );
    let help = "Arrows: move  e: edit  Enter: save cell  Esc: cancel  w: write  q: quit".to_owned();
    StatusView { title: "Status".to_owned(), status, help }
}

/// The editor region of a frame.
pub fn draw_editor(app: &App) -> (e: EditorView)
    ensures
        e@ == editor_of(app@),
{
    match app.mode() {
        Mode::Editing(session) => {
            let mut content = "Editing (r".to_owned();
            push_position(&mut content, session.row);
            content.append(", c");
            push_position(&mut content, session.col);
            content.append("): ");
            content.append(session.buffer.as_str());
            EditorView { title: "Editor".to_owned(), content }
        },
        Mode::Navigating => EditorView {
            title: "Info".to_owned(),
            content: "Press 'e' to edit selected cell".to_owned(),
        },
    }
}

/// The frame of an editor: its table, status and editor regions.
pub fn draw_ui(app: &App) -> (f: FrameView)
    ensures
        f@ == frame_of(app@),
{
    FrameView { table: draw_table(app), status: draw_status(app), editor: draw_editor(app) }
}

} // verus!
