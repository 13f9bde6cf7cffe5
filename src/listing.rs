//! Torrent records as the daemon reports them, the active/all filter, and
//! their rendering as a table.

use vstd::prelude::*;
use crate::format::{bytes_human, percent, percent_text, rate_text};
use crate::text::{prefix, prefix_text, truncate, truncated};

verus! {

/// Width, in characters, beyond which a name is shortened.
pub const NAME_WIDTH: usize = 40;

/// Number of leading hash characters that identify a torrent in a listing.
pub const SHORT_ID_LEN: usize = 8;

/// Completion as the daemon reports it.
pub struct Progress {
    /// The completed fraction in thousandths, rounded to the nearest.
    pub permille: u64,
    /// Whether the reported fraction is at least one.
    pub complete: bool,
}

/// One torrent as reported by the daemon.
pub struct TorrentRecord {
    pub name: String,
    pub hash: String,
    pub state: String,
    pub progress: Option<Progress>,
    pub download_rate: Option<u64>,
    pub upload_rate: Option<u64>,
}

/// The text cells shown for one torrent.
pub struct DisplayRow {
    pub short_id: String,
    pub name: String,
    pub status: String,
    pub progress: String,
    pub download: String,
    pub upload: String,
}

/// An absent rate counts as zero.
pub open spec fn rate_or_zero(v: Option<u64>) -> nat {
    match v {
        Some(b) => b as nat,
        None => 0,
    }
}

/// Active: not reported complete (an absent progress counts as zero), or
/// transferring in either direction.
pub open spec fn is_active(r: TorrentRecord) -> bool {
    !(r.progress is Some && r.progress->0.complete)
        || rate_or_zero(r.download_rate) > 0
        || rate_or_zero(r.upload_rate) > 0
}

/// Whether a listing keeps `r`: always in the all-view, only when active otherwise.
pub open spec fn is_shown(r: TorrentRecord, show_all: bool) -> bool {
    show_all || is_active(r)
}

/// The records that a listing keeps, in the daemon's order.
pub open spec fn shown(s: Seq<TorrentRecord>, show_all: bool) -> Seq<TorrentRecord> {
    s.filter(|r: TorrentRecord| is_shown(r, show_all))
}

/// The progress cell: a percentage with one decimal place, or `-` when absent.
pub open spec fn progress_cell(p: Option<Progress>) -> Seq<char> {
    match p {
        Some(p) => percent_text(p.permille as nat),
        None => seq!['-'],
    }
}

/// The cells of the row shown for `r`, in column order.
pub open spec fn row_cells(r: TorrentRecord) -> Seq<Seq<char>> {
    seq![
        prefix(r.hash@, SHORT_ID_LEN as nat),
        truncated(r.name@, NAME_WIDTH as nat),
        r.state@,
        progress_cell(r.progress),
        rate_text(rate_or_zero(r.download_rate)),
        rate_text(rate_or_zero(r.upload_rate)),
    ]
}

/// The column titles of a listing.
pub open spec fn header_cells() -> Seq<Seq<char>> {
    seq!["id"@, "name"@, "status"@, "progress"@, "dl"@, "up"@]
}

/// The views of a row of strings.
pub open spec fn cells_view(v: Seq<String>) -> Seq<Seq<char>> {
    v.map_values(|c: String| c@)
}

/// The views of a grid of strings.
pub open spec fn grid_view(g: Seq<Vec<String>>) -> Seq<Seq<Seq<char>>> {
    g.map_values(|row: Vec<String>| cells_view(row@))
}

/// The text of the `psql`-style table whose first row is the column header
/// and whose other rows are the records.
pub uninterp spec fn psql_table(cells: Seq<Seq<Seq<char>>>) -> Seq<char>;

/// The whole listing of `s` as table text.
pub open spec fn listing_text(s: Seq<TorrentRecord>, show_all: bool) -> Seq<char> {
    psql_table(seq![header_cells()] + shown(s, show_all).map_values(|r: TorrentRecord| row_cells(r)))
}

impl DisplayRow {
    /// The row's cells in column order.
    pub open spec fn cells(&self) -> Seq<Seq<char>> {
        seq![self.short_id@, self.name@, self.status@, self.progress@, self.download@, self.upload@]
    }

    /// The row's cells as strings, in column order.
    pub fn cell_texts(&self) -> (r: Vec<String>)
        ensures
            cells_view(r@) == self.cells(),
    {
        let r = vec![
            self.short_id.clone(),
            self.name.clone(),
            self.status.clone(),
            self.progress.clone(),
            self.download.clone(),
            self.upload.clone(),
        ];
        assert(cells_view(r@) =~= self.cells());
        r
    }
}

/// Renders a header and rows through tabled's `Builder` (the header set as
/// the column titles), styled with `Style::psql`. Relies on tabled's
/// rendering being a function of the cell texts alone.
#[verifier::external_body]
fn psql_text(header: Vec<String>, rows: Vec<Vec<String>>) -> (r: String)
    ensures
        r@ == psql_table(seq![cells_view(header@)] + grid_view(rows@)),
{
    let mut builder: tabled::builder::Builder = rows.into_iter().collect();
    builder.set_columns(header);
    builder.build().with(tabled::Style::psql()).to_string()
}

fn header() -> (r: Vec<String>)
    ensures
        cells_view(r@) == header_cells(),
{
    let r = vec![
        String::from_str("id"),
        String::from_str("name"),
        String::from_str("status"),
        String::from_str("progress"),
        String::from_str("dl"),
        String::from_str("up"),
    ];
    assert(cells_view(r@) =~= header_cells());
    r
}

/// Whether a listing keeps `r`: in the all-view always, in the active view
/// when it is incomplete or transferring.
pub fn keeps(r: &TorrentRecord, show_all: bool) -> (b: bool)
    ensures
        b == is_shown(*r, show_all),
{
    if show_all {
        return true;
    }
    let complete = match &r.progress {
        Some(p) => p.complete,
        None => false,
    };
    let dl = match r.download_rate {
        Some(v) => v,
        None => 0,
    };
    let up = match r.upload_rate {
        Some(v) => v,
        None => 0,
    };
    !complete || dl > 0 || up > 0
}

/// The text of the progress cell.
pub fn progress_text(p: &Option<Progress>) -> (r: String)
    ensures
        r@ == progress_cell(*p),
{
    match p {
        Some(p) => percent(p.permille),
        None => {
            let r = String::from_str("-");
            proof {
                reveal_strlit("-");
            }
            r
        },
    }
}

/// The row shown for one record: short id, shortened name, state,
/// progress and the two rates.
pub fn display_row(r: &TorrentRecord) -> (d: DisplayRow)
    ensures
        d.cells() == row_cells(*r),
{
    let d = DisplayRow {
        short_id: prefix_text(r.hash.as_str(), SHORT_ID_LEN),
        name: truncate(r.name.as_str(), NAME_WIDTH),
        status: r.state.clone(),
        progress: progress_text(&r.progress),
        download: bytes_human(
            match r.download_rate {
                Some(v) => v,
                None => 0,
            },
        ),
        upload: bytes_human(
            match r.upload_rate {
                Some(v) => v,
                None => 0,
            },
        ),
    };
    assert(d.cells() =~= row_cells(*r));
    d
}

/// The rows of a listing, in the daemon's order: every record in the
/// all-view, the active ones otherwise.
pub fn display_rows(records: &Vec<TorrentRecord>, show_all: bool) -> (rows: Vec<DisplayRow>)
    ensures
        rows@.len() == shown(records@, show_all).len(),
        forall|i: int|
            0 <= i < rows@.len() ==> #[trigger] rows@[i].cells() == row_cells(
                shown(records@, show_all)[i],
            ),
{
    let mut rows: Vec<DisplayRow> = Vec::new();
    let mut i: usize = 0;
    while i < records.len()
        invariant
            i <= records@.len(),
            rows@.len() == shown(records@.subrange(0, i as int), show_all).len(),
            forall|j: int|
                0 <= j < rows@.len() ==> #[trigger] rows@[j].cells() == row_cells(
                    shown(records@.subrange(0, i as int), show_all)[j],
                ),
        decreases records@.len() - i,
    {
        let ghost before = records@.subrange(0, i as int);
        let ghost after = records@.subrange(0, i + 1);
        proof {
            assert(after.drop_last() =~= before);
            reveal(Seq::filter);
        }
        if keeps(&records[i], show_all) {
            rows.push(display_row(&records[i]));
        }
        i = i + 1;
    }
    assert(records@.subrange(0, records@.len() as int) =~= records@);
    rows
}

/// The listing as table text: a header row, then one row per kept record.
pub fn render_listing(records: &Vec<TorrentRecord>, show_all: bool) -> (r: String)
    ensures
        r@ == listing_text(records@, show_all),
{
    let rows = display_rows(records, show_all);
    let ghost kept = shown(records@, show_all);
    let mut grid: Vec<Vec<String>> = Vec::new();
    let mut i: usize = 0;
    while i < rows.len()
        invariant
            rows@.len() == kept.len(),
            forall|j: int| 0 <= j < rows@.len() ==> #[trigger] rows@[j].cells() == row_cells(kept[j]),
            i <= rows@.len(),
            grid@.len() == i,
            forall|j: int| 0 <= j < i ==> #[trigger] cells_view(grid@[j]@) == row_cells(kept[j]),
        decreases rows@.len() - i,
    {
        grid.push(rows[i].cell_texts());
        i = i + 1;
    }
    let head = header();
    assert(seq![cells_view(head@)] + grid_view(grid@) =~= seq![header_cells()] + kept.map_values(
        |r: TorrentRecord| row_cells(r),
    ));
    psql_text(head, grid)
}

} // verus!
