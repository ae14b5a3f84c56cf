//! Tables, statistics and the small display vocabularies shared by the
//! dashboards: rows as keyed cells, what a table renders, stat cards, and
//! the badge and button variants.

use vstd::prelude::*;
use crate::text::same_text;

verus! {

/// A table column: the cell key it shows and its header.
pub struct TableColumn {
    pub key: String,
    pub label: String,
}

impl TableColumn {
    pub fn new(key: String, label: String) -> (res: Self)
        ensures
            res.key@ == key@ && res.label@ == label@,
    {
        TableColumn { key, label }
    }
}

/// The value under `key` in a list of cells: the first cell with that key.
pub open spec fn lookup(cells: Seq<(Seq<char>, Seq<char>)>, key: Seq<char>) -> Option<Seq<char>>
    decreases cells.len(),
{
    if cells.len() == 0 {
        None
    } else if cells[0].0 == key {
        Some(cells[0].1)
    } else {
        lookup(cells.drop_first(), key)
    }
}

/// The cells after writing `value` under `key`: the key's cell replaced
/// where it exists, else appended.
pub open spec fn set_cell(cells: Seq<(Seq<char>, Seq<char>)>, key: Seq<char>, value: Seq<char>) -> Seq<(Seq<char>, Seq<char>)>
    decreases cells.len(),
{
    if cells.len() == 0 {
        seq![(key, value)]
    } else if cells[0].0 == key {
        seq![(key, value)] + cells.drop_first()
    } else {
        seq![cells[0]] + set_cell(cells.drop_first(), key, value)
    }
}

pub open spec fn cells_view(cells: Seq<(String, String)>) -> Seq<(Seq<char>, Seq<char>)> {
    cells.map_values(|c: (String, String)| (c.0@, c.1@))
}

/// A table row: its cells by key.
pub struct TableRow {
    pub cells: Vec<(String, String)>,
}

impl View for TableRow {
    type V = Seq<(Seq<char>, Seq<char>)>;

    open spec fn view(&self) -> Seq<(Seq<char>, Seq<char>)> {
        cells_view(self.cells@)
    }
}

/// Writing into the first `i` cells that do not hold the key leaves them
/// and rewrites the key's cell, or appends when no cell holds it.
proof fn lemma_set_cell_at(cells: Seq<(Seq<char>, Seq<char>)>, key: Seq<char>, value: Seq<char>, i: int)
    requires
        0 <= i <= cells.len(),
        forall|j: int| 0 <= j < i ==> cells[j].0 != key,
        i < cells.len() ==> cells[i].0 == key,
    ensures
        set_cell(cells, key, value) == if i < cells.len() {
            cells.update(i, (key, value))
        } else {
            cells.push((key, value))
        },
    decreases cells.len(),
{
    if cells.len() == 0 {
        assert(seq![(key, value)] =~= cells.push((key, value)));
    } else if i == 0 {
        assert(seq![(key, value)] + cells.drop_first() =~= cells.update(0, (key, value)));
    } else {
        lemma_set_cell_at(cells.drop_first(), key, value, i - 1);
        if i < cells.len() {
            assert(seq![cells[0]] + cells.drop_first().update(i - 1, (key, value)) =~= cells.update(i, (key, value)));
        } else {
            assert(seq![cells[0]] + cells.drop_first().push((key, value)) =~= cells.push((key, value)));
        }
    }
}

impl TableRow {
    /// A row without cells.
    pub fn new() -> (res: Self)
        ensures
            res@.len() == 0,
    {
        TableRow { cells: Vec::new() }
    }

    /// The row with `value` under `key`.
    pub fn with_cell(self, key: String, value: String) -> (res: Self)
        ensures
            res@ == set_cell(self@, key@, value@),
    {
        let mut cells = self.cells;
        let ghost before = cells_view(cells@);
        let mut i: usize = 0;
        while i < cells.len()
            invariant
                before == cells_view(cells@),
                before == self@,
                i <= cells.len(),
                forall|j: int| 0 <= j < i ==> before[j].0 != key@,
            decreases cells.len() - i,
        {
            if same_text(cells[i].0.as_str(), key.as_str()) {
                assert(before[i as int].0 == key@);
                proof {
                    lemma_set_cell_at(before, key@, value@, i as int);
                }
                let ghost kv = key@;
                let ghost vv = value@;
                cells.set(i, (key, value));
                assert(cells_view(cells@) =~= before.update(i as int, (kv, vv)));
                let res = TableRow { cells };
                assert(res@ == set_cell(before, kv, vv));
                return res;
            }
            i = i + 1;
        }
        proof {
            lemma_set_cell_at(before, key@, value@, cells@.len() as int);
        }
        cells.push((key, value));
        assert(cells_view(cells@) =~= before.push((key@, value@)));
        TableRow { cells }
    }

    /// The value under `key`, `-` when the row has none.
    pub fn get_cell_value(&self, key: &str) -> (res: String)
        ensures
            res@ == match lookup(self@, key@) {
                Some(v) => v,
                None => "-"@,
            },
    {
        let ghost cs = self@;
        let mut i: usize = 0;
        assert(cs.skip(0) =~= cs);
        while i < self.cells.len()
            invariant
                cs == self@,
                i <= self.cells.len(),
                lookup(cs, key@) == lookup(cs.skip(i as int), key@),
            decreases self.cells.len() - i,
        {
            assert(cs.skip(i as int).drop_first() =~= cs.skip(i + 1));
            if same_text(self.cells[i].0.as_str(), key) {
                return self.cells[i].1.clone();
            }
            i = i + 1;
        }
        proof {
            reveal_strlit("-");
        }
        "-".to_owned()
    }
}

/// What a row holds is what was last written: reading a key after writing
/// it gives the written value, and writing one key leaves every other
/// key's value as it was.
pub proof fn lemma_read_after_write(
    cells: Seq<(Seq<char>, Seq<char>)>,
    key: Seq<char>,
    value: Seq<char>,
    other: Seq<char>,
)
    ensures
        lookup(set_cell(cells, key, value), key) == Some(value),
        other != key ==> lookup(set_cell(cells, key, value), other) == lookup(cells, other),
    decreases cells.len(),
{
    let s = set_cell(cells, key, value);
    if cells.len() > 0 {
        lemma_read_after_write(cells.drop_first(), key, value, other);
        if cells[0].0 == key {
            assert(s[0] == (key, value));
            assert(s.drop_first() =~= cells.drop_first());
            if other != key {
                assert(lookup(s, other) == lookup(s.drop_first(), other));
                assert(lookup(cells, other) == lookup(cells.drop_first(), other));
            }
        } else {
            assert(s[0] == cells[0]);
            assert(s.drop_first() =~= set_cell(cells.drop_first(), key, value));
            if other != key && cells[0].0 != other {
                assert(lookup(s, other) == lookup(s.drop_first(), other));
                assert(lookup(cells, other) == lookup(cells.drop_first(), other));
            }
        }
    } else {
        assert(s[0] == (key, value));
        assert(s.drop_first() =~= Seq::<(Seq<char>, Seq<char>)>::empty());
        if other != key {
            assert(lookup(s, other) == lookup(s.drop_first(), other));
        }
    }
}

/// The texts a table renders: per row, per column, the row's value under
/// the column's key (`-` for none).
pub fn table_cells(columns: &Vec<TableColumn>, rows: &Vec<TableRow>) -> (res: Vec<Vec<String>>)
    ensures
        res@.len() == rows@.len(),
        forall|r: int| 0 <= r < rows@.len() ==> (#[trigger] res@[r])@.len() == columns@.len(),
        forall|r: int, c: int|
            0 <= r < rows@.len() && 0 <= c < columns@.len() ==> (#[trigger] res@[r]@[c])@ == match lookup(
                rows@[r]@,
                columns@[c].key@,
            ) {
                Some(v) => v,
                None => "-"@,
            },
{
    let mut out: Vec<Vec<String>> = Vec::new();
    let mut r: usize = 0;
    while r < rows.len()
        invariant
            r <= rows.len(),
            out@.len() == r,
            forall|k: int| 0 <= k < r ==> (#[trigger] out@[k])@.len() == columns@.len(),
            forall|k: int, c: int|
                0 <= k < r && 0 <= c < columns@.len() ==> (#[trigger] out@[k]@[c])@ == match lookup(
                    rows@[k]@,
                    columns@[c].key@,
                ) {
                    Some(v) => v,
                    None => "-"@,
                },
        decreases rows.len() - r,
    {
        let mut line: Vec<String> = Vec::new();
        let mut c: usize = 0;
        while c < columns.len()
            invariant
                r < rows.len(),
                c <= columns.len(),
                line@.len() == c,
                forall|j: int| 0 <= j < c ==> (#[trigger] line@[j])@ == match lookup(rows@[r as int]@, columns@[j].key@) {
                    Some(v) => v,
                    None => "-"@,
                },
            decreases columns.len() - c,
        {
            line.push(rows[r].get_cell_value(columns[c].key.as_str()));
            c = c + 1;
        }
        out.push(line);
        r = r + 1;
    }
    out
}

/// The table's headers: each column's label.
pub fn table_headers(columns: &Vec<TableColumn>) -> (res: Vec<String>)
    ensures
        res@.len() == columns@.len(),
        forall|i: int| 0 <= i < res@.len() ==> (#[trigger] res@[i])@ == columns@[i].label@,
{
    let mut out: Vec<String> = Vec::new();
    let mut i: usize = 0;
    while i < columns.len()
        invariant
            i <= columns.len(),
            out@.len() == i,
            forall|k: int| 0 <= k < i ==> (#[trigger] out@[k])@ == columns@[k].label@,
        decreases columns.len() - i,
    {
        out.push(columns[i].label.clone());
        i = i + 1;
    }
    out
}

/// What a data table shows: an empty state, or a captioned table.
pub enum TableView {
    /// No rows: an empty state with a title and a description.
    Empty { title: String, description: String },
    /// The table: its caption, headers and cell texts.
    Table { caption: String, headers: Vec<String>, rows: Vec<Vec<String>> },
}

/// The text of an optional title, or `fallback`.
pub open spec fn title_or(title: Option<String>, fallback: Seq<char>) -> Seq<char> {
    match title {
        Some(t) => t@,
        None => fallback,
    }
}

fn title_or_text(title: &Option<String>, fallback: &str) -> (res: String)
    ensures
        res@ == title_or(*title, fallback@),
{
    match title {
        Some(t) => t.clone(),
        None => fallback.to_owned(),
    }
}

/// A data table. `no_data` and `data_text` are the translated "no data" and
/// "data" texts. With no rows it is an empty state titled `title` (else
/// "no data") and described as "no data"; otherwise a table captioned
/// `title` (else "data") with the columns' labels as headers and, per row
/// and column, the row's value under the column's key (`-` for none).
pub fn data_table(
    columns: &Vec<TableColumn>,
    data: &Vec<TableRow>,
    title: &Option<String>,
    no_data: &str,
    data_text: &str,
) -> (res: TableView)
    ensures
        data@.len() == 0 ==> (res matches TableView::Empty { title: t, description: d } && t@ == title_or(
            *title,
            no_data@,
        ) && d@ == no_data@),
        data@.len() > 0 ==> (res matches TableView::Table { caption, headers, rows } && {
            &&& caption@ == title_or(*title, data_text@)
            &&& headers@.len() == columns@.len()
            &&& forall|i: int| 0 <= i < headers@.len() ==> (#[trigger] headers@[i])@ == columns@[i].label@
            &&& rows@.len() == data@.len()
            &&& forall|r: int| 0 <= r < data@.len() ==> (#[trigger] rows@[r])@.len() == columns@.len()
            &&& forall|r: int, c: int|
                0 <= r < data@.len() && 0 <= c < columns@.len() ==> (#[trigger] rows@[r]@[c])@ == match lookup(
                    data@[r]@,
                    columns@[c].key@,
                ) {
                    Some(v) => v,
                    None => "-"@,
                }
        }),
{
    if data.len() == 0 {
        TableView::Empty { title: title_or_text(title, no_data), description: no_data.to_owned() }
    } else {
        TableView::Table {
            caption: title_or_text(title, data_text),
            headers: table_headers(columns),
            rows: table_cells(columns, data),
        }
    }
}

/// A statistic card.
pub struct StatItem {
    pub label: String,
    pub value: String,
    pub color: String,
    pub change: Option<String>,
    pub icon: Option<String>,
}

impl StatItem {
    pub fn new(label: String, value: String, color: String) -> (res: Self)
        ensures
            res.label@ == label@ && res.value@ == value@ && res.color@ == color@,
            res.change.is_none() && res.icon.is_none(),
    {
        StatItem { label, value, color, change: None, icon: None }
    }

    pub fn with_change(self, change: String) -> (res: Self)
        ensures
            res.change matches Some(c) && c@ == change@,
            res.label == self.label && res.value == self.value && res.color == self.color && res.icon == self.icon,
    {
        StatItem { change: Some(change), ..self }
    }

    pub fn with_icon(self, icon: String) -> (res: Self)
        ensures
            res.icon matches Some(i) && i@ == icon@,
            res.label == self.label && res.value == self.value && res.color == self.color && res.change == self.change,
    {
        StatItem { icon: Some(icon), ..self }
    }
}

/// The statistics grid's column count: four by default, held to 1..=4.
pub fn stats_grid_columns(columns: Option<i32>) -> (res: u8)
    ensures
        res as int == match columns {
            Some(c) => if c < 1 { 1 } else if c > 4 { 4 } else { c as int },
            None => 4,
        },
        1 <= res <= 4,
{
    let c = match columns {
        Some(c) => c,
        None => 4,
    };
    if c < 1 {
        1
    } else if c > 4 {
        4
    } else {
        c as u8
    }
}

/// A badge's colour variant.
#[derive(PartialEq, Eq, Structural, Clone, Copy, Debug)]
pub enum BadgeVariant {
    Success,
    Warning,
    Error,
    Info,
    Gray,
}

/// The tone of the design system's feedback primitives.
#[derive(PartialEq, Eq, Structural, Clone, Copy, Debug)]
pub enum FeedbackTone {
    Success,
    Warning,
    Danger,
    Info,
    Neutral,
}

/// The tone a badge variant renders with.
pub fn badge_tone(variant: BadgeVariant) -> (res: FeedbackTone)
    ensures
        res == match variant {
            BadgeVariant::Success => FeedbackTone::Success,
            BadgeVariant::Warning => FeedbackTone::Warning,
            BadgeVariant::Error => FeedbackTone::Danger,
            BadgeVariant::Info => FeedbackTone::Info,
            BadgeVariant::Gray => FeedbackTone::Neutral,
        },
{
    match variant {
        BadgeVariant::Success => FeedbackTone::Success,
        BadgeVariant::Warning => FeedbackTone::Warning,
        BadgeVariant::Error => FeedbackTone::Danger,
        BadgeVariant::Info => FeedbackTone::Info,
        BadgeVariant::Gray => FeedbackTone::Neutral,
    }
}

/// A button's variant (`Plain`: the borderless, transparent style).
#[derive(PartialEq, Eq, Structural, Clone, Copy, Debug)]
pub enum ButtonVariant {
    Primary,
    Secondary,
    Success,
    Warning,
    Danger,
    Plain,
}

/// A button's size.
#[derive(PartialEq, Eq, Structural, Clone, Copy, Debug)]
pub enum ButtonSize {
    Small,
    Medium,
    Large,
}

/// The design system's size codes: `sm`, `md`, `lg`.
pub fn button_size_code(size: ButtonSize) -> (res: &'static str)
    ensures
        res@ == match size {
            ButtonSize::Small => "sm"@,
            ButtonSize::Medium => "md"@,
            ButtonSize::Large => "lg"@,
        },
{
    proof {
        reveal_strlit("sm");
        reveal_strlit("md");
        reveal_strlit("lg");
    }
    match size {
        ButtonSize::Small => "sm",
        ButtonSize::Medium => "md",
        ButtonSize::Large => "lg",
    }
}

} // verus!
