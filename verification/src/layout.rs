//! The dashboard shell: the page title from the navigation, and the
//! placeholders shown while content loads.

use vstd::prelude::*;
use crate::text::same_text;

verus! {

/// The label of the first navigation item with this id.
pub open spec fn first_label(items: Seq<(Seq<char>, Seq<char>)>, id: Seq<char>) -> Option<Seq<char>>
    decreases items.len(),
{
    if items.len() == 0 {
        None
    } else if items[0].0 == id {
        Some(items[0].1)
    } else {
        first_label(items.drop_first(), id)
    }
}

pub open spec fn pairs_view(v: Seq<(String, String)>) -> Seq<(Seq<char>, Seq<char>)> {
    v.map_values(|p: (String, String)| (p.0@, p.1@))
}

/// The page title: the label of the navigation item for the active
/// section, else the translated "Dashboard".
pub fn page_title(items: &Vec<(String, String)>, active_section: &str, dashboard_label: &str) -> (res: String)
    ensures
        res@ == match first_label(pairs_view(items@), active_section@) {
            Some(l) => l,
            None => dashboard_label@,
        },
{
    let ghost all = pairs_view(items@);
    let mut i: usize = 0;
    assert(all.skip(0) =~= all);
    while i < items.len()
        invariant
            all == pairs_view(items@),
            i <= items.len(),
            first_label(all, active_section@) == first_label(all.skip(i as int), active_section@),
        decreases items.len() - i,
    {
        assert(all.skip(i as int).drop_first() =~= all.skip(i + 1));
        if same_text(items[i].0.as_str(), active_section) {
            return items[i].1.clone();
        }
        i = i + 1;
    }
    dashboard_label.to_owned()
}

/// The corner radius of a skeleton placeholder by its variant.
pub fn skeleton_radius(variant: &Option<String>) -> (res: &'static str)
    ensures
        res@ == match variant {
            Some(v) => if v@ == "circle"@ { "50%"@ } else if v@ == "text"@ { "4px"@ } else { "8px"@ },
            None => "8px"@,
        },
{
    proof {
        reveal_strlit("50%");
        reveal_strlit("4px");
        reveal_strlit("8px");
    }
    match variant {
        Some(v) => if same_text(v.as_str(), "circle") {
            "50%"
        } else if same_text(v.as_str(), "text") {
            "4px"
        } else {
            "8px"
        },
        None => "8px",
    }
}

/// A table skeleton's size: five rows and four columns unless given.
pub fn table_skeleton_size(rows: Option<i32>, columns: Option<i32>) -> (res: (i32, i32))
    ensures
        res.0 == match rows {
            Some(r) => r,
            None => 5,
        },
        res.1 == match columns {
            Some(c) => c,
            None => 4,
        },
{
    (
        match rows {
            Some(r) => r,
            None => 5,
        },
        match columns {
            Some(c) => c,
            None => 4,
        },
    )
}

/// Skeleton rows are striped on even rows.
pub fn skeleton_row_striped(row: i32) -> (res: bool)
    ensures
        res == (row % 2 == 0),
{
    row % 2 == 0
}


/// A loading spinner's size and colour: 40 px and the brand blue unless
/// given (an inline spinner defaults to 16 px).
pub fn spinner_look(size: &Option<String>, color: &Option<String>, inline: bool) -> (res: (String, String))
    ensures
        res.0@ == match size {
            Some(s) => s@,
            None => if inline { "16px"@ } else { "40px"@ },
        },
        res.1@ == match color {
            Some(c) => c@,
            None => "#3b82f6"@,
        },
{
    proof {
        reveal_strlit("16px");
        reveal_strlit("40px");
        reveal_strlit("#3b82f6");
    }
    let s = match size {
        Some(s) => s.clone(),
        None => if inline { "16px".to_owned() } else { "40px".to_owned() },
    };
    let c = match color {
        Some(c) => c.clone(),
        None => "#3b82f6".to_owned(),
    };
    (s, c)
}

/// Which reports page says it is unavailable.
#[derive(PartialEq, Eq, Structural, Clone, Copy, Debug)]
pub enum ReportsAudience {
    SchoolManager,
    Parent,
}

/// The unavailable-reports notice: (title, text).
pub fn reports_unavailable(audience: ReportsAudience) -> (res: (&'static str, &'static str))
    ensures
        res.0@ == "Reports unavailable"@,
        res.1@ == match audience {
            ReportsAudience::SchoolManager => "Report generation and export are not enabled in this production release. Existing school data remains available through its authorized operational views."@,
            ReportsAudience::Parent => "Parent report generation and downloads are not enabled in this production release. No fictional report history or inactive download controls are shown."@,
        },
{
    proof {
        reveal_strlit("Reports unavailable");
        reveal_strlit("Report generation and export are not enabled in this production release. Existing school data remains available through its authorized operational views.");
        reveal_strlit("Parent report generation and downloads are not enabled in this production release. No fictional report history or inactive download controls are shown.");
    }
    match audience {
        ReportsAudience::SchoolManager => (
            "Reports unavailable",
            "Report generation and export are not enabled in this production release. Existing school data remains available through its authorized operational views.",
        ),
        ReportsAudience::Parent => (
            "Reports unavailable",
            "Parent report generation and downloads are not enabled in this production release. No fictional report history or inactive download controls are shown.",
        ),
    }
}

/// The school manager overview's fixed copy, in Persian or English:
/// introduction, actions heading, knowledge title and text, and the note
/// on what summaries are shown.
pub struct ManagerOverviewCopy {
    pub intro: &'static str,
    pub quick_actions: &'static str,
    pub knowledge_title: &'static str,
    pub knowledge_description: &'static str,
    pub truthfulness_note: &'static str,
}

pub fn manager_overview_copy(fa: bool) -> (res: ManagerOverviewCopy)
    ensures
        res.intro@ == if fa { "عملیات مدرسه را از مسیرهای واقعی و فعال سامانه مدیریت کنید. فقط قابلیت‌های در دسترس نمایش داده می‌شوند."@ } else { "Manage the school through production-backed workflows. Only available capabilities are shown."@ },
        res.quick_actions@ == if fa { "اقدام‌های اصلی"@ } else { "Primary actions"@ },
        res.knowledge_title@ == if fa { "ارسال منابع دانشی"@ } else { "Knowledge submissions"@ },
        res.knowledge_description@ == if fa { "منابع کنترل‌شده مدرسه را برای بررسی ثبت کنید."@ } else { "Register governed school sources for review."@ },
        res.truthfulness_note@ == if fa { "خلاصه‌های عملیاتی فقط زمانی نمایش داده می‌شوند که از داده واقعی مدرسه پشتیبانی شوند؛ شاخص‌های ساختگی فعالیت، پایداری، تأخیر یا روند نمایش داده نمی‌شوند."@ } else { "Operational summaries appear only when backed by real school data. Synthetic activity, uptime, latency, storage and trend metrics are intentionally omitted."@ },
{
    proof {
        reveal_strlit("عملیات مدرسه را از مسیرهای واقعی و فعال سامانه مدیریت کنید. فقط قابلیت‌های در دسترس نمایش داده می‌شوند.");
        reveal_strlit("اقدام‌های اصلی");
        reveal_strlit("ارسال منابع دانشی");
        reveal_strlit("منابع کنترل‌شده مدرسه را برای بررسی ثبت کنید.");
        reveal_strlit("خلاصه‌های عملیاتی فقط زمانی نمایش داده می‌شوند که از داده واقعی مدرسه پشتیبانی شوند؛ شاخص‌های ساختگی فعالیت، پایداری، تأخیر یا روند نمایش داده نمی‌شوند.");
        reveal_strlit("Manage the school through production-backed workflows. Only available capabilities are shown.");
        reveal_strlit("Primary actions");
        reveal_strlit("Knowledge submissions");
        reveal_strlit("Register governed school sources for review.");
        reveal_strlit("Operational summaries appear only when backed by real school data. Synthetic activity, uptime, latency, storage and trend metrics are intentionally omitted.");
    }
    if fa {
        ManagerOverviewCopy {
            intro: "عملیات مدرسه را از مسیرهای واقعی و فعال سامانه مدیریت کنید. فقط قابلیت‌های در دسترس نمایش داده می‌شوند.",
            quick_actions: "اقدام‌های اصلی",
            knowledge_title: "ارسال منابع دانشی",
            knowledge_description: "منابع کنترل‌شده مدرسه را برای بررسی ثبت کنید.",
            truthfulness_note: "خلاصه‌های عملیاتی فقط زمانی نمایش داده می‌شوند که از داده واقعی مدرسه پشتیبانی شوند؛ شاخص‌های ساختگی فعالیت، پایداری، تأخیر یا روند نمایش داده نمی‌شوند.",
        }
    } else {
        ManagerOverviewCopy {
            intro: "Manage the school through production-backed workflows. Only available capabilities are shown.",
            quick_actions: "Primary actions",
            knowledge_title: "Knowledge submissions",
            knowledge_description: "Register governed school sources for review.",
            truthfulness_note: "Operational summaries appear only when backed by real school data. Synthetic activity, uptime, latency, storage and trend metrics are intentionally omitted.",
        }
    }
}

/// The sidebar's portal label and container class.
pub fn sidebar_chrome(fa: bool, mobile_open: bool) -> (res: (&'static str, &'static str))
    ensures
        res.0@ == if fa { "پرتال"@ } else { "Portal"@ },
        res.1@ == if mobile_open { "et-sidebar et-sidebar--mobile-open"@ } else { "et-sidebar"@ },
{
    proof {
        reveal_strlit("پرتال");
        reveal_strlit("Portal");
        reveal_strlit("et-sidebar et-sidebar--mobile-open");
        reveal_strlit("et-sidebar");
    }
    (
        if fa { "پرتال" } else { "Portal" },
        if mobile_open { "et-sidebar et-sidebar--mobile-open" } else { "et-sidebar" },
    )
}

/// Whether a key pressed in the sidebar closes it: Escape does, and only
/// while the mobile menu is open; the key press then goes no further.
pub fn sidebar_key_closes(mobile_open: bool, is_escape: bool) -> (res: bool)
    ensures
        res == (mobile_open && is_escape),
{
    mobile_open && is_escape
}

} // verus!
