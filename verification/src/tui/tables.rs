//! The rows of the song, playlist and queue tables: each row is the id it
//! stands for and the text of its cells.
use vstd::prelude::*;
use crate::dlib::playlist::PlaylistInfo;
use crate::dlib::song::SongInfo;
use crate::text::{decimal, push_decimal};
use crate::util::print_util::{truncate_string_and_add_suffix, truncated_text, default_suffix};
use crate::util::time_util::{seconds_to_base60_string, base60_text};

verus! {

/// The widest a song name is shown in the song table, in bytes.
pub const MAX_ALLOWED_SONG_LEN: usize = 50;

/// One line of the queue table: the song's place in the queue (from 1), its
/// id, name and length.
#[derive(Debug)]
pub struct QueueEntry {
    pub position: usize,
    pub song_id: u32,
    pub song_name: String,
    pub duration: u32,
}

/// The texts of a row's cells as plain values.
pub open spec fn cells_view(cells: Seq<String>) -> Seq<Seq<char>> {
    cells.map_values(|c: String| c@)
}

/// Something that can be shown as a row of a table.
pub trait IntoTableRow {
    /// The id the row stands for; rows without one are not shown.
    spec fn row_id_of(&self) -> Option<u32>;

    /// The texts of the row's cells.
    spec fn row_cells_of(&self) -> Seq<Seq<char>>;

    /// The id the row stands for.
    fn row_id(&self) -> (r: Option<u32>)
        ensures
            r == self.row_id_of(),
    ;

    /// The texts of the row's cells.
    fn into_row(&self) -> (cells: Vec<String>)
        ensures
            cells_view(cells@) == self.row_cells_of(),
    ;
}

impl IntoTableRow for SongInfo {
    open spec fn row_id_of(&self) -> Option<u32> {
        self.id
    }

    /// Length, name (shortened to the column), album, artist.
    open spec fn row_cells_of(&self) -> Seq<Seq<char>> {
        seq![
            base60_text(self.duration as nat),
            truncated_text(self.name@, MAX_ALLOWED_SONG_LEN as int, default_suffix()),
            self.album@,
            self.artist@,
        ]
    }

    fn row_id(&self) -> (r: Option<u32>) {
        self.id
    }

    fn into_row(&self) -> (cells: Vec<String>) {
        let mut cells: Vec<String> = Vec::new();
        cells.push(seconds_to_base60_string(self.duration));
        cells.push(truncate_string_and_add_suffix(self.name.as_str(), MAX_ALLOWED_SONG_LEN, None));
        cells.push(self.album.clone());
        cells.push(self.artist.clone());
        assert(cells_view(cells@) =~= self.row_cells_of());
        cells
    }
}

impl IntoTableRow for PlaylistInfo {
    open spec fn row_id_of(&self) -> Option<u32> {
        self.id
    }

    /// Name, and `"<count> Songs"`.
    open spec fn row_cells_of(&self) -> Seq<Seq<char>> {
        seq![self.name@, decimal(self.songs@.len()) + " Songs"@]
    }

    fn row_id(&self) -> (r: Option<u32>) {
        self.id
    }

    fn into_row(&self) -> (cells: Vec<String>) {
        let mut cells: Vec<String> = Vec::new();
        cells.push(self.name.clone());
        let mut count = String::new();
        push_decimal(&mut count, self.songs.len() as u64);
        count.push_str(" Songs");
        cells.push(count);
        assert(cells_view(cells@) =~= self.row_cells_of());
        cells
    }
}

impl IntoTableRow for QueueEntry {
    open spec fn row_id_of(&self) -> Option<u32> {
        Some(self.song_id)
    }

    /// `"<position>."`, length, name.
    open spec fn row_cells_of(&self) -> Seq<Seq<char>> {
        seq![decimal(self.position as nat) + "."@, base60_text(self.duration as nat), self.song_name@]
    }

    fn row_id(&self) -> (r: Option<u32>) {
        Some(self.song_id)
    }

    fn into_row(&self) -> (cells: Vec<String>) {
        let mut cells: Vec<String> = Vec::new();
        let mut pos = String::new();
        push_decimal(&mut pos, self.position as u64);
        pos.push_str(".");
        cells.push(pos);
        cells.push(seconds_to_base60_string(self.duration));
        cells.push(self.song_name.clone());
        assert(cells_view(cells@) =~= self.row_cells_of());
        cells
    }
}

/// A row as plain values: its id and the texts of its cells.
pub open spec fn row_view(row: (u32, Vec<String>)) -> (u32, Seq<Seq<char>>) {
    (row.0, cells_view(row.1@))
}

/// The rows shown for `items`: one for each item that has an id, in order.
pub open spec fn rows_of<T: IntoTableRow>(items: Seq<T>) -> Seq<(u32, Seq<Seq<char>>)>
    decreases items.len(),
{
    if items.len() == 0 {
        Seq::empty()
    } else {
        let prev = rows_of(items.drop_last());
        match items.last().row_id_of() {
            Some(id) => prev.push((id, items.last().row_cells_of())),
            None => prev,
        }
    }
}

/// The rows of a table and the position of its selected row.
#[derive(Debug)]
pub struct TableData {
    pub rows: Vec<(u32, Vec<String>)>,
    /// The selected position; it may lie past the last row until the table
    /// is drawn, which moves it back onto the last row.
    pub selected: Option<usize>,
}

/// A table as plain values.
pub struct TableDataView {
    pub rows: Seq<(u32, Seq<Seq<char>>)>,
    pub selected: Option<usize>,
}

impl View for TableData {
    type V = TableDataView;

    open spec fn view(&self) -> TableDataView {
        TableDataView { rows: self.rows_view(), selected: self.selected }
    }
}

/// The id of the selected row, if the selection lies on a row.
pub open spec fn selected_row_id(t: TableDataView) -> Option<u32> {
    match t.selected {
        Some(i) => if i < t.rows.len() {
            Some(t.rows[i as int].0)
        } else {
            None
        },
        None => None,
    }
}

/// The selection after moving down: one row further (stopping at the
/// largest position), or the first row when none is selected.
pub open spec fn next_row(sel: Option<usize>) -> Option<usize> {
    match sel {
        Some(i) => Some(if i < usize::MAX { (i + 1) as usize } else { i }),
        None => Some(0),
    }
}

/// The selection after moving up: one row back (stopping at the first), or
/// the last position when none is selected.
pub open spec fn previous_row(sel: Option<usize>) -> Option<usize> {
    match sel {
        Some(i) => Some(if i > 0 { (i - 1) as usize } else { 0 }),
        None => Some(usize::MAX),
    }
}

impl TableData {
    /// The rows as plain values.
    pub open spec fn rows_view(&self) -> Seq<(u32, Seq<Seq<char>>)> {
        self.rows@.map_values(|r: (u32, Vec<String>)| row_view(r))
    }

    /// A table with no rows, whose first row is selected.
    pub fn new() -> (t: Self)
        ensures
            t@.rows == Seq::<(u32, Seq<Seq<char>>)>::empty(),
            t@.selected == Some(0usize),
    {
        let t = TableData { rows: Vec::new(), selected: Some(0) };
        assert(t.rows_view() =~= Seq::<(u32, Seq<Seq<char>>)>::empty());
        t
    }

    /// Replaces the rows with those of `items` that have an id; the
    /// selection stays where it was.
    pub fn rebuild<T: IntoTableRow>(&mut self, items: &[T])
        ensures
            final(self)@.rows == rows_of(items@),
            final(self)@.selected == old(self)@.selected,
    {
        let mut rows: Vec<(u32, Vec<String>)> = Vec::new();
        let n = items.len();
        for i in 0..n
            invariant
                n == items@.len(),
                rows@.map_values(|r: (u32, Vec<String>)| row_view(r)) == rows_of(items@.take(i as int)),
        {
            proof {
                assert(items@.take(i + 1).drop_last() =~= items@.take(i as int));
            }
            let ghost before = rows@;
            match items[i].row_id() {
                Some(id) => {
                    let cells = items[i].into_row();
                    rows.push((id, cells));
                    assert(rows@.map_values(|r: (u32, Vec<String>)| row_view(r)) =~= before.map_values(
                        |r: (u32, Vec<String>)| row_view(r),
                    ).push(row_view((id, cells))));
                },
                None => {},
            }
        }
        assert(items@.take(n as int) =~= items@);
        self.rows = rows;
    }

    /// The id of the selected row, if the selection lies on a row.
    pub fn selected_id(&self) -> (r: Option<u32>)
        ensures
            r == selected_row_id(self@),
    {
        match self.selected {
            Some(i) => {
                if i < self.rows.len() {
                    Some(self.rows[i].0)
                } else {
                    None
                }
            },
            None => None,
        }
    }

    /// The selected position.
    pub fn selected_index(&self) -> (r: Option<usize>)
        ensures
            r == self@.selected,
    {
        self.selected
    }

    /// Selects the first row.
    pub fn select_first(&mut self)
        ensures
            final(self)@ == (TableDataView { selected: Some(0usize), ..old(self)@ }),
    {
        self.selected = Some(0);
    }

    /// Moves the selection down one row.
    pub fn select_next(&mut self)
        ensures
            final(self)@ == (TableDataView { selected: next_row(old(self)@.selected), ..old(self)@ }),
    {
        self.selected = match self.selected {
            Some(i) => Some(i.saturating_add(1)),
            None => Some(0),
        };
    }

    /// Moves the selection up one row.
    pub fn select_previous(&mut self)
        ensures
            final(self)@ == (TableDataView { selected: previous_row(old(self)@.selected), ..old(self)@ }),
    {
        self.selected = match self.selected {
            Some(i) => Some(i.saturating_sub(1)),
            None => Some(usize::MAX),
        };
    }
}

} // verus!
