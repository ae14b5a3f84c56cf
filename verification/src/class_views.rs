//! The student's and parent's class views: class cards, material entries,
//! dialog titles, and the parent's overview totals.

use vstd::prelude::*;
use crate::text::{push_str, same_text};

verus! {

/// The accent of a class card, chosen by the byte length of its name.
pub open spec fn card_accent_spec(len: nat) -> (Seq<char>, Seq<char>) {
    let k = len % 4;
    if k == 0 {
        ("from-blue-600"@, "to-blue-400"@)
    } else if k == 1 {
        ("from-indigo-600"@, "to-purple-500"@)
    } else if k == 2 {
        ("from-emerald-600"@, "to-teal-500"@)
    } else {
        ("from-amber-600"@, "to-orange-400"@)
    }
}

pub fn card_accent(name: &str) -> (res: (&'static str, &'static str))
    ensures
        (res.0@, res.1@) == card_accent_spec(name.len() as nat),
{
    proof {
        reveal_strlit("from-blue-600");
        reveal_strlit("to-blue-400");
        reveal_strlit("from-indigo-600");
        reveal_strlit("to-purple-500");
        reveal_strlit("from-emerald-600");
        reveal_strlit("to-teal-500");
        reveal_strlit("from-amber-600");
        reveal_strlit("to-orange-400");
    }
    let k = name.len() % 4;
    if k == 0 {
        ("from-blue-600", "to-blue-400")
    } else if k == 1 {
        ("from-indigo-600", "to-purple-500")
    } else if k == 2 {
        ("from-emerald-600", "to-teal-500")
    } else {
        ("from-amber-600", "to-orange-400")
    }
}

/// The icon and colour of a class material by its type.
pub open spec fn material_look_spec(kind: Seq<char>) -> (Seq<char>, Seq<char>) {
    if kind == "document"@ {
        ("description"@, "text-blue-500"@)
    } else if kind == "video"@ {
        ("play_circle"@, "text-red-500"@)
    } else if kind == "link"@ {
        ("link"@, "text-green-500"@)
    } else if kind == "image"@ {
        ("image"@, "text-purple-500"@)
    } else if kind == "audio"@ {
        ("audio_file"@, "text-orange-500"@)
    } else {
        ("folder"@, "text-gray-500"@)
    }
}

pub fn material_look(kind: &str) -> (res: (&'static str, &'static str))
    ensures
        (res.0@, res.1@) == material_look_spec(kind@),
{
    proof {
        reveal_strlit("description");
        reveal_strlit("text-blue-500");
        reveal_strlit("play_circle");
        reveal_strlit("text-red-500");
        reveal_strlit("link");
        reveal_strlit("text-green-500");
        reveal_strlit("image");
        reveal_strlit("text-purple-500");
        reveal_strlit("audio_file");
        reveal_strlit("text-orange-500");
        reveal_strlit("folder");
        reveal_strlit("text-gray-500");
    }
    if same_text(kind, "document") {
        ("description", "text-blue-500")
    } else if same_text(kind, "video") {
        ("play_circle", "text-red-500")
    } else if same_text(kind, "link") {
        ("link", "text-green-500")
    } else if same_text(kind, "image") {
        ("image", "text-purple-500")
    } else if same_text(kind, "audio") {
        ("audio_file", "text-orange-500")
    } else {
        ("folder", "text-gray-500")
    }
}

/// Where a material's "open" link leads: its file, else its external link;
/// no link without either.
pub fn material_link(file_url: &Option<String>, external_link: &Option<String>) -> (res: Option<String>)
    ensures
        match (file_url, external_link) {
            (Some(f), _) => res matches Some(r) && r@ == f@,
            (None, Some(e)) => res matches Some(r) && r@ == e@,
            (None, None) => res.is_none(),
        },
{
    match file_url {
        Some(f) => Some(f.clone()),
        None => match external_link {
            Some(e) => Some(e.clone()),
            None => None,
        },
    }
}

/// A class dialog's title: `name - section`.
pub fn dialog_title(name: &str, section: &str) -> (res: String)
    ensures
        res@ == name@ + " - "@ + section@,
{
    let mut s = name.to_owned();
    push_str(&mut s, " - ");
    push_str(&mut s, section);
    proof {
        reveal_strlit(" - ");
    }
    s
}

/// The total of the children's enrolled classes.
pub open spec fn total_classes_spec(counts: Seq<i64>) -> int
    decreases counts.len(),
{
    if counts.len() == 0 {
        0
    } else {
        total_classes_spec(counts.drop_last()) + counts.last()
    }
}

/// Every running total of the counts fits in an `i64`.
pub open spec fn running_totals_fit(counts: Seq<i64>) -> bool {
    forall|k: int| 0 <= k <= counts.len() ==> i64::MIN <= #[trigger] total_classes_spec(counts.take(k)) <= i64::MAX
}

/// The parent overview's total of enrolled classes.
pub fn total_classes(counts: &Vec<i64>) -> (res: i64)
    requires
        running_totals_fit(counts@),
    ensures
        res == total_classes_spec(counts@),
{
    let mut acc: i64 = 0;
    let mut i: usize = 0;
    while i < counts.len()
        invariant
            i <= counts.len(),
            running_totals_fit(counts@),
            acc == total_classes_spec(counts@.take(i as int)),
        decreases counts.len() - i,
    {
        assert(counts@.take(i + 1).drop_last() =~= counts@.take(i as int));
        assert(i64::MIN <= total_classes_spec(counts@.take(i + 1)) <= i64::MAX);
        acc = acc + counts[i];
        i = i + 1;
    }
    assert(counts@.take(counts.len() as int) =~= counts@);
    acc
}

/// A class as the student overview reads it.
pub struct OverviewClass {
    pub id: String,
    pub name: String,
    pub subject_name: String,
    pub teacher_name: String,
    pub term: String,
}

/// One row of the overview's classes panel.
pub struct ClassLine {
    pub id: String,
    pub title: String,
    /// `subject · teacher`.
    pub meta: String,
    pub aside: String,
}

/// The most classes the overview lists.
pub const OVERVIEW_CLASS_LIMIT: usize = 4;

/// The overview's classes panel: a state message (its translation key, and
/// whether it is an error) or the class rows.
pub enum ClassesPanel {
    State { key: String, error: bool },
    Rows(Vec<ClassLine>),
}

/// The row a class gets in the overview.
pub open spec fn class_line_matches(l: ClassLine, c: OverviewClass) -> bool {
    &&& l.id@ == c.id@
    &&& l.title@ == c.name@
    &&& l.meta@ == c.subject_name@ + " · "@ + c.teacher_name@
    &&& l.aside@ == c.term@
}

fn class_line(c: &OverviewClass) -> (res: ClassLine)
    ensures
        class_line_matches(res, *c),
{
    let mut meta = c.subject_name.clone();
    push_str(&mut meta, " · ");
    push_str(&mut meta, c.teacher_name.as_str());
    ClassLine { id: c.id.clone(), title: c.name.clone(), meta, aside: c.term.clone() }
}

/// The student overview's classes panel for the classes read so far:
/// `None` while loading, `Err` when they could not be read. Loading, a
/// failure and an empty list show their messages; otherwise the first four
/// classes are listed, in order.
pub fn overview_classes_panel(classes: &Option<Result<Vec<OverviewClass>, ()>>) -> (res: ClassesPanel)
    ensures
        match classes {
            None => res matches ClassesPanel::State { key, error } && key@ == "student.dashboard.loading_classes"@
                && !error,
            Some(Err(_)) => res matches ClassesPanel::State { key, error } && key@
                == "student.dashboard.classes_load_error"@ && error,
            Some(Ok(items)) => if items@.len() == 0 {
                res matches ClassesPanel::State { key, error } && key@ == "classes.no_classes"@ && !error
            } else {
                res matches ClassesPanel::Rows(rows) && rows@.len() == if items@.len() < 4 {
                    items@.len()
                } else {
                    4
                } && forall|i: int| 0 <= i < rows@.len() ==> class_line_matches(#[trigger] rows@[i], items@[i])
            },
        },
{
    match classes {
        None => ClassesPanel::State { key: "student.dashboard.loading_classes".to_owned(), error: false },
        Some(Err(_)) => ClassesPanel::State { key: "student.dashboard.classes_load_error".to_owned(), error: true },
        Some(Ok(items)) => {
            if items.len() == 0 {
                ClassesPanel::State { key: "classes.no_classes".to_owned(), error: false }
            } else {
                let n: usize = if items.len() < OVERVIEW_CLASS_LIMIT { items.len() } else { OVERVIEW_CLASS_LIMIT };
                let mut rows: Vec<ClassLine> = Vec::new();
                let mut i: usize = 0;
                while i < n
                    invariant
                        n <= items@.len(),
                        i <= n,
                        rows@.len() == i,
                        forall|k: int| 0 <= k < i ==> class_line_matches(#[trigger] rows@[k], items@[k]),
                    decreases n - i,
                {
                    rows.push(class_line(&items[i]));
                    i = i + 1;
                }
                ClassesPanel::Rows(rows)
            }
        },
    }
}

/// The enrolled-class count of the student overview, `—` until known.
pub fn enrolled_count_text(count: Option<usize>) -> (res: String)
    ensures
        res@ == match count {
            Some(n) => crate::text::decimal(n as nat),
            None => "—"@,
        },
{
    match count {
        Some(n) => crate::text::decimal_string(n as u64),
        None => "—".to_owned(),
    }
}

} // verus!
