//! Pagination windows, breadcrumbs derived from routes, and the small
//! navigation records (breadcrumbs, tabs, quick actions) the shell renders.

use vstd::prelude::*;
use crate::text::{
    chars_of, join_seq, push_char, push_str, same_text, split_chars, split_seq, strip_leading,
    uppercase_char, uppercase_of,
};

verus! {

/// Number of page buttons a pagination bar shows at once.
pub const VISIBLE_PAGES: i32 = 5;

/// Integer division rounding toward zero (Rust's `/` on signed integers).
pub open spec fn trunc_div(a: int, b: int) -> int
    recommends
        b > 0,
{
    if a >= 0 {
        a / b
    } else {
        -((-a) / b)
    }
}

/// First page of the block of five that holds `current`.
pub open spec fn window_start(current: int) -> int {
    trunc_div(current - 1, 5) * 5 + 1
}

/// Last page shown: the end of the block, or the last page if that is smaller.
pub open spec fn window_end(current: int, total: int) -> int {
    if window_start(current) + 4 <= total {
        window_start(current) + 4
    } else {
        total
    }
}

/// The page numbers the bar shows, in ascending order.
pub open spec fn page_window_spec(current: int, total: int) -> Seq<int> {
    let start = window_start(current);
    let end = window_end(current, total);
    Seq::new(if end >= start { (end - start + 1) as nat } else { 0 }, |i: int| start + i)
}

/// Whether `current` and `total` keep the window's arithmetic inside `i32`.
pub open spec fn page_window_fits(current: int) -> bool {
    i32::MIN < current && window_start(current) + 4 <= i32::MAX
}

/// The page numbers of the pagination bar for `current_page` of
/// `total_pages`: the block of five that holds the current page, cut at the
/// last page.
pub fn page_window(current_page: i32, total_pages: i32) -> (pages: Vec<i32>)
    requires
        page_window_fits(current_page as int),
    ensures
        pages@.len() == page_window_spec(current_page as int, total_pages as int).len(),
        forall|i: int|
            0 <= i < pages@.len() ==> pages@[i] as int == page_window_spec(
                current_page as int,
                total_pages as int,
            )[i],
{
    let start: i32 = ((current_page - 1) / VISIBLE_PAGES) * VISIBLE_PAGES + 1;
    assert(start as int == window_start(current_page as int));
    let block_end: i32 = start + VISIBLE_PAGES - 1;
    let end: i32 = if block_end <= total_pages { block_end } else { total_pages };
    let mut pages: Vec<i32> = Vec::new();
    if end < start {
        return pages;
    }
    let mut page: i32 = start;
    loop
        invariant
            start as int == window_start(current_page as int),
            end as int == window_end(current_page as int, total_pages as int),
            start <= page <= end,
            pages@.len() == page - start,
            forall|i: int| 0 <= i < pages@.len() ==> pages@[i] as int == start + i,
        decreases end - page,
    {
        pages.push(page);
        if page == end {
            return pages;
        }
        page = page + 1;
    }
}

/// The page the "previous" button leads to, if it is enabled.
pub fn previous_page(current_page: i32) -> (res: Option<i32>)
    ensures
        res == (if current_page > 1 { Some((current_page - 1) as i32) } else { None::<i32> }),
{
    if current_page > 1 {
        Some(current_page - 1)
    } else {
        None
    }
}

/// The page the "next" button leads to, if it is enabled.
pub fn next_page(current_page: i32, total_pages: i32) -> (res: Option<i32>)
    ensures
        res == (if current_page < total_pages { Some((current_page + 1) as i32) } else { None::<i32> }),
{
    if current_page < total_pages {
        Some(current_page + 1)
    } else {
        None
    }
}

/// A valid current page is always one of the buttons the bar shows; the
/// buttons never exceed five, stay within the existing pages, and rise by one.
pub proof fn lemma_current_page_is_visible(current: int, total: int)
    requires
        1 <= current <= total,
    ensures
        page_window_spec(current, total).contains(current),
        page_window_spec(current, total).len() <= 5,
        forall|i: int|
            0 <= i < page_window_spec(current, total).len() ==> 1 <= #[trigger] page_window_spec(
                current,
                total,
            )[i] <= total,
{
    let w = page_window_spec(current, total);
    let start = window_start(current);
    assert(start <= current <= start + 4) by {
        assert((current - 1) / 5 * 5 <= current - 1 < (current - 1) / 5 * 5 + 5);
    }
    assert(w[current - start] == current);
}

/// A breadcrumb: its label and whether it is the current location.
#[derive(Clone, Debug)]
pub struct BreadcrumbItem {
    pub label: String,
    pub is_current: bool,
}

impl BreadcrumbItem {
    /// A breadcrumb that is not (yet) marked current.
    pub fn new(label: String) -> (res: Self)
        ensures
            res.label@ == label@,
            !res.is_current,
    {
        BreadcrumbItem { label, is_current: false }
    }

    /// The same breadcrumb, marked current.
    pub fn current(self) -> (res: Self)
        ensures
            res.label@ == self.label@,
            res.is_current,
    {
        BreadcrumbItem { label: self.label, is_current: true }
    }
}

/// A kebab-case word with its first character upper-cased.
pub open spec fn capitalize(w: Seq<char>) -> Seq<char> {
    if w.len() == 0 {
        w
    } else {
        uppercase_of(w[0]) + w.drop_first()
    }
}

/// A kebab-case route segment as title-case words.
pub open spec fn title_case(part: Seq<char>) -> Seq<char> {
    join_seq(split_seq(part, '-').map_values(|w: Seq<char>| capitalize(w)), " "@)
}

/// The display label of one route segment: a fixed label for the portal's
/// own segments, title case for any other.
pub open spec fn route_label(part: Seq<char>) -> Seq<char> {
    if part == "school-manager"@ {
        "School Manager"@
    } else if part == "teacher"@ {
        "Teacher"@
    } else if part == "student"@ {
        "Student"@
    } else if part == "parent"@ {
        "Parent"@
    } else if part == "overview"@ {
        "Overview"@
    } else if part == "users"@ {
        "User Management"@
    } else if part == "classes"@ {
        "Class Management"@
    } else if part == "reports"@ {
        "Reports"@
    } else if part == "settings"@ {
        "Settings"@
    } else if part == "profile"@ {
        "Profile"@
    } else {
        title_case(part)
    }
}

/// Labels of the segments that get a crumb: every non-empty segment other
/// than `dashboard`, in order.
pub open spec fn segment_labels(parts: Seq<Seq<char>>) -> Seq<Seq<char>>
    decreases parts.len(),
{
    if parts.len() == 0 {
        Seq::<Seq<char>>::empty()
    } else {
        let prev = segment_labels(parts.drop_last());
        let p = parts.last();
        if p.len() > 0 && p != "dashboard"@ {
            prev.push(route_label(p))
        } else {
            prev
        }
    }
}

/// The breadcrumb labels of a route: `Dashboard`, then one per segment.
pub open spec fn breadcrumb_labels(route: Seq<char>) -> Seq<Seq<char>> {
    seq!["Dashboard"@] + segment_labels(split_seq(strip_leading(route, '/'), '/'))
}

/// Breadcrumb helpers for route paths.
pub struct NavigationUtils;

impl NavigationUtils {
    /// Breadcrumbs for a route path: `Dashboard` first, then each non-empty
    /// segment other than `dashboard`; every crumb is marked current.
    pub fn breadcrumbs_from_route(route: &str) -> (res: Vec<BreadcrumbItem>)
        ensures
            res@.len() == breadcrumb_labels(route@).len(),
            forall|i: int|
                0 <= i < res@.len() ==> #[trigger] res@[i].label@ == breadcrumb_labels(route@)[i]
                    && res@[i].is_current,
    {
        let cs = chars_of(route);
        let mut start: usize = 0;
        assert(route@.skip(0) =~= route@);
        while start < cs.len() && cs[start] == '/'
            invariant
                cs@ == route@,
                start <= cs.len(),
                strip_leading(route@, '/') == strip_leading(route@.skip(start as int), '/'),
            decreases cs.len() - start,
        {
            assert(route@.skip(start as int).drop_first() =~= route@.skip(start + 1));
            start = start + 1;
        }
        let mut rest: Vec<char> = Vec::new();
        let mut j: usize = start;
        while j < cs.len()
            invariant
                cs@ == route@,
                start <= j <= cs.len(),
                rest@ == route@.subrange(start as int, j as int),
            decreases cs.len() - j,
        {
            rest.push(cs[j]);
            j = j + 1;
        }
        assert(rest@ =~= route@.skip(start as int));
        assert(strip_leading(rest@, '/') == rest@);
        let parts = split_chars(&rest, '/');
        let ghost stripped = strip_leading(route@, '/');
        assert(rest@ == stripped);

        let mut crumbs: Vec<BreadcrumbItem> = Vec::new();
        crumbs.push(BreadcrumbItem::new("Dashboard".to_owned()).current());
        let mut k: usize = 0;
        while k < parts.len()
            invariant
                parts@.len() == split_seq(stripped, '/').len(),
                forall|i: int| 0 <= i < parts@.len() ==> #[trigger] parts@[i]@ == split_seq(stripped, '/')[i],
                k <= parts.len(),
                crumbs@.len() == 1 + segment_labels(split_seq(stripped, '/').take(k as int)).len(),
                crumbs@[0].label@ == "Dashboard"@,
                forall|i: int| 0 <= i < crumbs@.len() ==> #[trigger] crumbs@[i].is_current,
                forall|i: int|
                    1 <= i < crumbs@.len() ==> #[trigger] crumbs@[i].label@ == segment_labels(
                        split_seq(stripped, '/').take(k as int),
                    )[i - 1],
            decreases parts.len() - k,
        {
            let ghost all = split_seq(stripped, '/');
            assert(all.take(k + 1).drop_last() =~= all.take(k as int));
            assert(all.take(k + 1).last() == all[k as int]);
            let part = string_from_part(&parts[k]);
            let is_dashboard = same_text(part.as_str(), "dashboard");
            if parts[k].len() > 0 && !is_dashboard {
                let label = Self::format_route_part(part.as_str());
                crumbs.push(BreadcrumbItem::new(label).current());
            }
            k = k + 1;
        }
        assert(split_seq(stripped, '/').take(parts.len() as int) =~= split_seq(stripped, '/'));
        proof {
            let labels = breadcrumb_labels(route@);
            assert forall|i: int| 0 <= i < crumbs@.len() implies #[trigger] crumbs@[i].label@ == labels[i]
                && crumbs@[i].is_current by {
                if i > 0 {
                    assert(labels[i] == segment_labels(split_seq(stripped, '/'))[i - 1]);
                }
            }
        }
        crumbs
    }

    /// The display label of one route segment.
    fn format_route_part(part: &str) -> (res: String)
        ensures
            res@ == route_label(part@),
    {
        if same_text(part, "school-manager") {
            "School Manager".to_owned()
        } else if same_text(part, "teacher") {
            "Teacher".to_owned()
        } else if same_text(part, "student") {
            "Student".to_owned()
        } else if same_text(part, "parent") {
            "Parent".to_owned()
        } else if same_text(part, "overview") {
            "Overview".to_owned()
        } else if same_text(part, "users") {
            "User Management".to_owned()
        } else if same_text(part, "classes") {
            "Class Management".to_owned()
        } else if same_text(part, "reports") {
            "Reports".to_owned()
        } else if same_text(part, "settings") {
            "Settings".to_owned()
        } else if same_text(part, "profile") {
            "Profile".to_owned()
        } else {
            title_case_words(part)
        }
    }
}

fn string_from_part(cs: &Vec<char>) -> (res: String)
    ensures
        res@ == cs@,
{
    crate::text::string_from_chars(cs)
}

/// A kebab-case segment as title-case words.
fn title_case_words(part: &str) -> (res: String)
    ensures
        res@ == title_case(part@),
{
    let cs = chars_of(part);
    let words = split_chars(&cs, '-');
    let ghost caps = split_seq(part@, '-').map_values(|w: Seq<char>| capitalize(w));
    let mut out = String::new();
    let mut k: usize = 0;
    while k < words.len()
        invariant
            cs@ == part@,
            words@.len() == split_seq(part@, '-').len(),
            forall|i: int| 0 <= i < words@.len() ==> #[trigger] words@[i]@ == split_seq(part@, '-')[i],
            caps == split_seq(part@, '-').map_values(|w: Seq<char>| capitalize(w)),
            k <= words.len(),
            out@ == join_seq(caps.take(k as int), " "@),
        decreases words.len() - k,
    {
        assert(caps.take(k + 1).drop_last() =~= caps.take(k as int));
        assert(caps.take(k + 1).last() == capitalize(words@[k as int]@));
        if k > 0 {
            push_str(&mut out, " ");
        }
        let w = &words[k];
        if w.len() > 0 {
            let first = uppercase_char(w[0]);
            push_str(&mut out, first.as_str());
            let mut j: usize = 1;
            let ghost base = out@;
            while j < w.len()
                invariant
                    1 <= j <= w.len(),
                    out@ == base + w@.subrange(1, j as int),
                decreases w.len() - j,
            {
                push_char(&mut out, w[j]);
                j = j + 1;
            }
            assert(w@.subrange(1, w@.len() as int) =~= w@.drop_first());
        } else {
            assert(capitalize(w@) =~= Seq::<char>::empty());
        }
        assert(out@ =~= join_seq(caps.take(k + 1), " "@));
        k = k + 1;
    }
    assert(caps.take(words.len() as int) =~= caps);
    out
}


/// Whether the breadcrumb at `index` renders as plain text (the current
/// location, or the last crumb) rather than as a link.
pub fn breadcrumb_is_terminal(is_current: bool, index: usize, count: usize) -> (res: bool)
    requires
        index < count,
    ensures
        res == (is_current || index == count - 1),
{
    is_current || index == count - 1
}

/// A tab: its id, label, and optional icon and badge.
pub struct TabItem {
    pub id: String,
    pub label: String,
    pub icon: Option<String>,
    pub badge: Option<String>,
}

impl TabItem {
    pub fn new(id: String, label: String) -> (res: Self)
        ensures
            res.id@ == id@ && res.label@ == label@ && res.icon.is_none() && res.badge.is_none(),
    {
        TabItem { id, label, icon: None, badge: None }
    }

    pub fn with_icon(self, icon: String) -> (res: Self)
        ensures
            res.icon matches Some(i) && i@ == icon@,
            res.id == self.id && res.label == self.label && res.badge == self.badge,
    {
        TabItem { icon: Some(icon), ..self }
    }

    pub fn with_badge(self, badge: String) -> (res: Self)
        ensures
            res.badge matches Some(b) && b@ == badge@,
            res.id == self.id && res.label == self.label && res.icon == self.icon,
    {
        TabItem { badge: Some(badge), ..self }
    }

    /// Whether this tab is the active one.
    pub fn is_active(&self, active_tab: &str) -> (res: bool)
        ensures
            res == (self.id@ == active_tab@),
    {
        same_text(self.id.as_str(), active_tab)
    }
}

/// A quick action: its id, title, and optional description and icon.
pub struct QuickAction {
    pub id: String,
    pub title: String,
    pub description: Option<String>,
    pub icon: Option<String>,
}

impl QuickAction {
    pub fn new(id: String, title: String) -> (res: Self)
        ensures
            res.id@ == id@ && res.title@ == title@ && res.description.is_none() && res.icon.is_none(),
    {
        QuickAction { id, title, description: None, icon: None }
    }

    pub fn with_description(self, description: String) -> (res: Self)
        ensures
            res.description matches Some(d) && d@ == description@,
            res.id == self.id && res.title == self.title && res.icon == self.icon,
    {
        QuickAction { description: Some(description), ..self }
    }

    pub fn with_icon(self, icon: String) -> (res: Self)
        ensures
            res.icon matches Some(i) && i@ == icon@,
            res.id == self.id && res.title == self.title && res.description == self.description,
    {
        QuickAction { icon: Some(icon), ..self }
    }
}

/// The pagination bar's "previous" and "next" buttons are disabled at the
/// first and last page; a page button is active for the current page.
pub fn pagination_controls(current_page: i32, total_pages: i32) -> (res: (bool, bool))
    ensures
        res.0 == (current_page <= 1),
        res.1 == (current_page >= total_pages),
{
    (current_page <= 1, current_page >= total_pages)
}

} // verus!
