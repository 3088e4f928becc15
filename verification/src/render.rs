//! The render pipeline: the table that shows a state, as plain values. It
//! reads the state and the selection and changes neither.

use crate::event::{AppState, AppStateView};
use crate::index::BranchCommitIndex;
use crate::input::Selection;
use crate::models::PullRequest;
use crate::status::{status_of, sync_status, SyncStatus};
use crate::text::{decimal, push_decimal, texts};
use vstd::prelude::*;

verus! {

/// The colour of a cell.
#[derive(Debug, Clone, Copy, PartialEq, Eq, Structural)]
pub enum Tone {
    Plain,
    Green,
    Yellow,
    Red,
    Cyan,
    /// Toned down, for what matters less.
    Dim,
    /// Neither good nor bad.
    Neutral,
}

/// One cell of the table.
#[derive(Debug, Clone, PartialEq, Eq)]
pub struct TableCell {
    pub text: String,
    pub tone: Tone,
    pub bold: bool,
}

/// One cell as plain values.
pub struct TableCellView {
    pub text: Seq<char>,
    pub tone: Tone,
    pub bold: bool,
}

impl View for TableCell {
    type V = TableCellView;

    open spec fn view(&self) -> TableCellView {
        TableCellView { text: self.text@, tone: self.tone, bold: self.bold }
    }
}

/// The row of one pull request.
#[derive(Debug, Clone, PartialEq, Eq)]
pub struct TableRow {
    pub number: TableCell,
    pub title: TableCell,
    pub branch: TableCell,
    pub status: TableCell,
}

/// One row as plain values.
pub struct TableRowView {
    pub number: TableCellView,
    pub title: TableCellView,
    pub branch: TableCellView,
    pub status: TableCellView,
}

impl View for TableRow {
    type V = TableRowView;

    open spec fn view(&self) -> TableRowView {
        TableRowView {
            number: self.number@,
            title: self.title@,
            branch: self.branch@,
            status: self.status@,
        }
    }
}

/// The whole table.
#[derive(Debug, Clone, PartialEq, Eq)]
pub struct TableContent {
    pub header: Vec<String>,
    /// One row per pull request, in the order of the list.
    pub rows: Vec<TableRow>,
    /// The row to highlight, always a row of the table.
    pub selected: Option<usize>,
    /// The latest failure, if any.
    pub footer: Option<String>,
}

/// The table as plain values.
#[verifier::ext_equal]
pub struct TableContentView {
    pub header: Seq<Seq<char>>,
    pub rows: Seq<TableRowView>,
    pub selected: Option<usize>,
    pub footer: Option<Seq<char>>,
}

impl View for TableContent {
    type V = TableContentView;

    open spec fn view(&self) -> TableContentView {
        TableContentView {
            header: texts(self.header@),
            rows: self.rows@.map_values(|row: TableRow| row@),
            selected: self.selected,
            footer: match self.footer {
                Some(text) => Some(text@),
                None => None,
            },
        }
    }
}

/// Green for up to date, yellow for behind or unsynced, red for a conflict,
/// neutral for unknown.
pub open spec fn status_tone(status: SyncStatus) -> Tone {
    match status {
        SyncStatus::UpToDate => Tone::Green,
        SyncStatus::Behind => Tone::Yellow,
        SyncStatus::Unsynced => Tone::Yellow,
        SyncStatus::Conflict => Tone::Red,
        SyncStatus::Unknown => Tone::Neutral,
    }
}

/// The status cell: the status's words in its colour, bold unless unknown.
pub open spec fn status_cell_view(status: SyncStatus) -> TableCellView {
    TableCellView {
        text: status.label_text(),
        tone: status_tone(status),
        bold: status != SyncStatus::Unknown,
    }
}

/// The identity cell: a hash sign and the number, dimmed for a draft and
/// green otherwise.
pub open spec fn number_cell_view(number: int, draft: bool) -> TableCellView {
    TableCellView {
        text: "#"@ + decimal(number),
        tone: if draft {
            Tone::Dim
        } else {
            Tone::Green
        },
        bold: false,
    }
}

/// The row that shows `pr` against the index `index`.
pub open spec fn row_view(index: Map<Seq<char>, Seq<char>>, pr: PullRequest) -> TableRowView {
    TableRowView {
        number: number_cell_view(pr.number as int, pr.draft),
        title: TableCellView { text: pr.title@, tone: Tone::Plain, bold: false },
        branch: TableCellView { text: pr.branch@, tone: Tone::Cyan, bold: false },
        status: status_cell_view(status_of(index, pr)),
    }
}

/// The column titles.
pub open spec fn header_view() -> Seq<Seq<char>> {
    seq!["ID"@, "NAME"@, "BRANCH"@, "STATUS"@]
}

/// The table that shows `state` with `selection`: one row per pull request,
/// the selection clamped to the list, the latest failure as the footer.
pub open spec fn table_view(state: AppStateView, selection: Selection) -> TableContentView {
    TableContentView {
        header: header_view(),
        rows: Seq::new(state.prs.len(), |i: int| row_view(state.branches, state.prs[i])),
        selected: selection.clamped(state.prs.len()).index,
        footer: state.error_message,
    }
}

pub fn status_cell(status: SyncStatus) -> (cell: TableCell)
    ensures
        cell@ == status_cell_view(status),
{
    let tone = match status {
        SyncStatus::UpToDate => Tone::Green,
        SyncStatus::Behind => Tone::Yellow,
        SyncStatus::Unsynced => Tone::Yellow,
        SyncStatus::Conflict => Tone::Red,
        SyncStatus::Unknown => Tone::Neutral,
    };
    let bold = match status {
        SyncStatus::Unknown => false,
        _ => true,
    };
    TableCell { text: status.label().to_owned(), tone, bold }
}

pub fn number_cell(number: i32, draft: bool) -> (cell: TableCell)
    ensures
        cell@ == number_cell_view(number as int, draft),
{
    let mut text = "#".to_owned();
    push_decimal(&mut text, number);
    TableCell {
        text,
        tone: if draft {
            Tone::Dim
        } else {
            Tone::Green
        },
        bold: false,
    }
}

/// The row of one pull request.
pub fn row(branches: &BranchCommitIndex, pr: &PullRequest) -> (cells: TableRow)
    ensures
        cells@ == row_view(branches@, *pr),
{
    TableRow {
        number: number_cell(pr.number, pr.draft),
        title: TableCell { text: pr.title.clone(), tone: Tone::Plain, bold: false },
        branch: TableCell { text: pr.branch.clone(), tone: Tone::Cyan, bold: false },
        status: status_cell(sync_status(branches, pr)),
    }
}

pub fn header() -> (titles: Vec<String>)
    ensures
        texts(titles@) == header_view(),
{
    let mut titles: Vec<String> = Vec::new();
    titles.push("ID".to_owned());
    titles.push("NAME".to_owned());
    titles.push("BRANCH".to_owned());
    titles.push("STATUS".to_owned());
    proof {
        assert(texts(titles@) =~= header_view());
    }
    titles
}

/// The table that shows `state` with `selection`.
pub fn render(state: &AppState, selection: Selection) -> (table: TableContent)
    ensures
        table@ == table_view(state@, selection),
        table.rows@.len() == state.prs@.len(),
        (Selection { index: table.selected }).valid_for(table.rows@.len()),
        state.prs@.len() == 0 ==> table.selected is None,
{
    let mut rows: Vec<TableRow> = Vec::new();
    let mut i: usize = 0;
    while i < state.prs.len()
        invariant
            i <= state.prs.len(),
            rows@.len() == i,
            forall|j: int| 0 <= j < i ==> (#[trigger] rows@[j])@ == row_view(
                state.branches@,
                state.prs@[j],
            ),
        decreases state.prs.len() - i,
    {
        rows.push(row(&state.branches, &state.prs[i]));
        i += 1;
    }
    let footer = match &state.error_message {
        Some(text) => Some(text.clone()),
        None => None,
    };
    let table = TableContent {
        header: header(),
        rows,
        selected: selection.clamp(state.prs.len()).index,
        footer,
    };
    proof {
        assert(table@.rows =~= table_view(state@, selection).rows);
        assert(table@ =~= table_view(state@, selection));
    }
    table
}

/// Whatever the selection was, the table highlights a row of the list, or
/// nothing when the list is empty; a selection that was valid is kept.
pub proof fn lemma_table_selection_is_valid(state: AppStateView, selection: Selection)
    ensures
        table_view(state, selection).rows.len() == state.prs.len(),
        (Selection { index: table_view(state, selection).selected }).valid_for(state.prs.len()),
        state.prs.len() == 0 ==> table_view(state, selection).selected is None,
        selection.valid_for(state.prs.len()) && state.prs.len() > 0 ==> table_view(
            state,
            selection,
        ).selected == selection.index,
{
}

} // verus!
