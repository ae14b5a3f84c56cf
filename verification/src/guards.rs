//! Who may see what: the guards around protected content, the dashboard
//! each role lands on, and the sections each dashboard routes to.

use vstd::prelude::*;
use crate::text::same_text;

verus! {

/// A portal role.
#[derive(PartialEq, Eq, Structural, Clone, Copy, Debug)]
pub enum SystemRole {
    PlatformAdmin,
    SchoolManager,
    Teacher,
    Student,
    Parent,
}

/// What a guard renders.
#[derive(PartialEq, Eq, Structural, Clone, Copy, Debug)]
pub enum GuardDecision {
    /// The session is still being read (or no user yet).
    Loading,
    /// The protected content.
    Children,
    /// The caller's fallback content.
    Fallback,
    /// The access-denied state, with a way back to the user's dashboard.
    Denied,
}

/// The decision of a role, permission or route guard: loading while the
/// session initialises or without a user; the content when the user is
/// granted access; else the fallback when one is given, else denial.
/// `granted` is `None` without a signed-in user.
pub open spec fn guard_spec(initializing: bool, granted: Option<bool>, has_fallback: bool) -> GuardDecision {
    if initializing {
        GuardDecision::Loading
    } else {
        match granted {
            None => GuardDecision::Loading,
            Some(true) => GuardDecision::Children,
            Some(false) => if has_fallback { GuardDecision::Fallback } else { GuardDecision::Denied },
        }
    }
}

pub fn guard_decision(initializing: bool, granted: Option<bool>, has_fallback: bool) -> (res: GuardDecision)
    ensures
        res == guard_spec(initializing, granted, has_fallback),
{
    if initializing {
        return GuardDecision::Loading;
    }
    match granted {
        None => GuardDecision::Loading,
        Some(true) => GuardDecision::Children,
        Some(false) => if has_fallback {
            GuardDecision::Fallback
        } else {
            GuardDecision::Denied
        },
    }
}

/// The decision of the sign-in guard: loading while initialising; the
/// content for any signed-in user; else the fallback, or loading while the
/// sign-in redirect happens.
pub fn auth_guard_decision(initializing: bool, signed_in: bool, has_fallback: bool) -> (res: GuardDecision)
    ensures
        res == if initializing {
            GuardDecision::Loading
        } else if signed_in {
            GuardDecision::Children
        } else if has_fallback {
            GuardDecision::Fallback
        } else {
            GuardDecision::Loading
        },
{
    if initializing {
        GuardDecision::Loading
    } else if signed_in {
        GuardDecision::Children
    } else if has_fallback {
        GuardDecision::Fallback
    } else {
        GuardDecision::Loading
    }
}

/// Every guard sends a settled, signed-out session to the sign-in page.
pub fn should_redirect_to_login(initializing: bool, signed_in: bool) -> (res: bool)
    ensures
        res == (!initializing && !signed_in),
{
    !initializing && !signed_in
}

/// Protected content is shown only to a signed-in user who was granted
/// access, once the session has settled.
pub proof fn lemma_guard_never_leaks(initializing: bool, granted: Option<bool>, has_fallback: bool)
    ensures
        guard_spec(initializing, granted, has_fallback) == GuardDecision::Children <==> (!initializing && granted
            == Some(true)),
{
}

/// Whether the user holds one of the required roles.
pub open spec fn any_role_spec(role: SystemRole, required: Seq<SystemRole>) -> bool {
    required.contains(role)
}

pub fn any_role_granted(role: SystemRole, required: &Vec<SystemRole>) -> (res: bool)
    ensures
        res == any_role_spec(role, required@),
{
    let mut i: usize = 0;
    while i < required.len()
        invariant
            i <= required.len(),
            forall|k: int| 0 <= k < i ==> required@[k] != role,
        decreases required.len() - i,
    {
        if required[i] == role {
            assert(required@[i as int] == role);
            return true;
        }
        i = i + 1;
    }
    assert(!required@.contains(role)) by {
        if required@.contains(role) {
            let k = choose|k: int| 0 <= k < required@.len() && required@[k] == role;
            assert(required@[k] != role);
        }
    }
    false
}

/// Where a navigation to a dashboard section leads.
#[derive(PartialEq, Eq, Structural, Clone, Copy, Debug)]
pub enum SectionRoute {
    /// The dashboard's home.
    Dashboard,
    /// A named section.
    Section,
}

/// `overview` is the dashboard's home; any other section has its own route.
pub fn route_for_section(section: &str) -> (res: SectionRoute)
    ensures
        res == if section@ == "overview"@ { SectionRoute::Dashboard } else { SectionRoute::Section },
{
    if same_text(section, "overview") {
        SectionRoute::Dashboard
    } else {
        SectionRoute::Section
    }
}

/// The product capabilities that can switch dashboard sections on.
#[derive(PartialEq, Eq, Structural, Clone, Copy, Debug)]
pub struct ProductCapabilities {
    pub timetable: bool,
    pub parent_reports: bool,
    pub parent_teacher_communication: bool,
    pub school_manager_reports: bool,
}

/// What the student dashboard shows.
#[derive(PartialEq, Eq, Structural, Clone, Copy, Debug)]
pub enum StudentView {
    Classes,
    Assignments,
    Grades,
    Schedule,
    Overview,
}

pub open spec fn student_view_spec(section: Seq<char>, caps: ProductCapabilities) -> StudentView {
    if section == "classes"@ {
        StudentView::Classes
    } else if section == "assignments"@ {
        StudentView::Assignments
    } else if section == "grades"@ {
        StudentView::Grades
    } else if section == "schedule"@ && caps.timetable {
        StudentView::Schedule
    } else {
        StudentView::Overview
    }
}

pub fn student_view(section: &str, caps: ProductCapabilities) -> (res: StudentView)
    ensures
        res == student_view_spec(section@, caps),
{
    if same_text(section, "classes") {
        StudentView::Classes
    } else if same_text(section, "assignments") {
        StudentView::Assignments
    } else if same_text(section, "grades") {
        StudentView::Grades
    } else if same_text(section, "schedule") && caps.timetable {
        StudentView::Schedule
    } else {
        StudentView::Overview
    }
}

/// What the parent dashboard shows.
#[derive(PartialEq, Eq, Structural, Clone, Copy, Debug)]
pub enum ParentView {
    Children,
    Reports,
    Communication,
    Overview,
}

pub open spec fn parent_view_spec(section: Seq<char>, caps: ProductCapabilities) -> ParentView {
    if section == "children"@ {
        ParentView::Children
    } else if section == "reports"@ && caps.parent_reports {
        ParentView::Reports
    } else if section == "communication"@ && caps.parent_teacher_communication {
        ParentView::Communication
    } else {
        ParentView::Overview
    }
}

pub fn parent_view(section: &str, caps: ProductCapabilities) -> (res: ParentView)
    ensures
        res == parent_view_spec(section@, caps),
{
    if same_text(section, "children") {
        ParentView::Children
    } else if same_text(section, "reports") && caps.parent_reports {
        ParentView::Reports
    } else if same_text(section, "communication") && caps.parent_teacher_communication {
        ParentView::Communication
    } else {
        ParentView::Overview
    }
}

/// What the school manager dashboard shows.
#[derive(PartialEq, Eq, Structural, Clone, Copy, Debug)]
pub enum ManagerView {
    /// No user yet: the session is being checked.
    Loading,
    /// The user is not administrative.
    AccessDenied,
    Users,
    Classes,
    KnowledgeSubmissions,
    Settings,
    Profile,
    Reports,
    Overview,
}

/// `user_administrative` is `None` without a user.
pub open spec fn manager_view_spec(section: Seq<char>, user_administrative: Option<bool>, caps: ProductCapabilities) -> ManagerView {
    match user_administrative {
        None => ManagerView::Loading,
        Some(false) => ManagerView::AccessDenied,
        Some(true) => if section == "users"@ {
            ManagerView::Users
        } else if section == "classes"@ {
            ManagerView::Classes
        } else if section == "knowledge-submissions"@ {
            ManagerView::KnowledgeSubmissions
        } else if section == "settings"@ {
            ManagerView::Settings
        } else if section == "profile"@ {
            ManagerView::Profile
        } else if section == "reports"@ && caps.school_manager_reports {
            ManagerView::Reports
        } else {
            ManagerView::Overview
        },
    }
}

pub fn manager_view(section: &str, user_administrative: Option<bool>, caps: ProductCapabilities) -> (res: ManagerView)
    ensures
        res == manager_view_spec(section@, user_administrative, caps),
{
    match user_administrative {
        None => ManagerView::Loading,
        Some(false) => ManagerView::AccessDenied,
        Some(true) => if same_text(section, "users") {
            ManagerView::Users
        } else if same_text(section, "classes") {
            ManagerView::Classes
        } else if same_text(section, "knowledge-submissions") {
            ManagerView::KnowledgeSubmissions
        } else if same_text(section, "settings") {
            ManagerView::Settings
        } else if same_text(section, "profile") {
            ManagerView::Profile
        } else if same_text(section, "reports") && caps.school_manager_reports {
            ManagerView::Reports
        } else {
            ManagerView::Overview
        },
    }
}

/// What the platform administrator dashboard shows.
#[derive(PartialEq, Eq, Structural, Clone, Copy, Debug)]
pub enum PlatformView {
    Audit,
    Review,
}

pub fn platform_view(section: &str) -> (res: PlatformView)
    ensures
        res == if section@ == "knowledge-audit"@ { PlatformView::Audit } else { PlatformView::Review },
{
    if same_text(section, "knowledge-audit") {
        PlatformView::Audit
    } else {
        PlatformView::Review
    }
}

/// Every dashboard section reaches its own view: for an administrative
/// school manager each named section opens exactly its view (reports only
/// while that capability is on), and likewise for the student's and the
/// parent's sections; every other name opens the overview.
pub proof fn lemma_sections_reach_their_views(section: Seq<char>, caps: ProductCapabilities)
    ensures
        (manager_view_spec(section, Some(true), caps) == ManagerView::Users) <==> section == "users"@,
        (manager_view_spec(section, Some(true), caps) == ManagerView::Classes) <==> section == "classes"@,
        (manager_view_spec(section, Some(true), caps) == ManagerView::KnowledgeSubmissions) <==> section
            == "knowledge-submissions"@,
        (manager_view_spec(section, Some(true), caps) == ManagerView::Settings) <==> section == "settings"@,
        (manager_view_spec(section, Some(true), caps) == ManagerView::Profile) <==> section == "profile"@,
        (manager_view_spec(section, Some(true), caps) == ManagerView::Reports) <==> (section == "reports"@
            && caps.school_manager_reports),
        manager_view_spec(section, Some(true), caps) != ManagerView::Loading,
        manager_view_spec(section, Some(true), caps) != ManagerView::AccessDenied,
        (student_view_spec(section, caps) == StudentView::Classes) <==> section == "classes"@,
        (student_view_spec(section, caps) == StudentView::Assignments) <==> section == "assignments"@,
        (student_view_spec(section, caps) == StudentView::Grades) <==> section == "grades"@,
        (student_view_spec(section, caps) == StudentView::Schedule) <==> (section == "schedule"@ && caps.timetable),
        (parent_view_spec(section, caps) == ParentView::Children) <==> section == "children"@,
        (parent_view_spec(section, caps) == ParentView::Reports) <==> (section == "reports"@ && caps.parent_reports),
        (parent_view_spec(section, caps) == ParentView::Communication) <==> (section == "communication"@
            && caps.parent_teacher_communication),
{
    reveal_strlit("users");
    reveal_strlit("classes");
    reveal_strlit("knowledge-submissions");
    reveal_strlit("settings");
    reveal_strlit("profile");
    reveal_strlit("reports");
    reveal_strlit("assignments");
    reveal_strlit("grades");
    reveal_strlit("schedule");
    reveal_strlit("children");
    reveal_strlit("communication");
    assert("classes"@ != "users"@) by { assert("classes"@.len() != "users"@.len()); }
    assert("knowledge-submissions"@ != "users"@) by { assert("knowledge-submissions"@.len() != "users"@.len()); }
    assert("knowledge-submissions"@ != "classes"@) by { assert("knowledge-submissions"@.len() != "classes"@.len()); }
    assert("settings"@ != "users"@) by { assert("settings"@.len() != "users"@.len()); }
    assert("settings"@ != "classes"@) by { assert("settings"@[0] != "classes"@[0]); }
    assert("profile"@ != "users"@) by { assert("profile"@.len() != "users"@.len()); }
    assert("profile"@ != "classes"@) by { assert("profile"@[0] != "classes"@[0]); }
    assert("reports"@ != "users"@) by { assert("reports"@.len() != "users"@.len()); }
    assert("reports"@ != "classes"@) by { assert("reports"@[0] != "classes"@[0]); }
    assert("reports"@ != "settings"@) by { assert("reports"@.len() != "settings"@.len()); }
    assert("reports"@ != "profile"@) by { assert("reports"@[0] != "profile"@[0]); }
    assert("assignments"@ != "classes"@) by { assert("assignments"@.len() != "classes"@.len()); }
    assert("grades"@ != "classes"@) by { assert("grades"@.len() != "classes"@.len()); }
    assert("grades"@ != "assignments"@) by { assert("grades"@.len() != "assignments"@.len()); }
    assert("schedule"@ != "classes"@) by { assert("schedule"@.len() != "classes"@.len()); }
    assert("schedule"@ != "assignments"@) by { assert("schedule"@.len() != "assignments"@.len()); }
    assert("schedule"@ != "grades"@) by { assert("schedule"@.len() != "grades"@.len()); }
    assert("reports"@ != "children"@) by { assert("reports"@.len() != "children"@.len()); }
    assert("communication"@ != "children"@) by { assert("communication"@.len() != "children"@.len()); }
    assert("communication"@ != "reports"@) by { assert("communication"@.len() != "reports"@.len()); }
}

/// A section whose capability is off is never shown: its dashboard falls
/// back to the overview; and a non-administrative user never reaches a
/// school manager section.
pub proof fn lemma_disabled_capabilities_never_route(section: Seq<char>, caps: ProductCapabilities, admin: Option<bool>)
    ensures
        !caps.timetable ==> student_view_spec(section, caps) != StudentView::Schedule,
        !caps.parent_reports ==> parent_view_spec(section, caps) != ParentView::Reports,
        !caps.parent_teacher_communication ==> parent_view_spec(section, caps) != ParentView::Communication,
        !caps.school_manager_reports ==> manager_view_spec(section, admin, caps) != ManagerView::Reports,
        admin != Some(true) ==> (manager_view_spec(section, admin, caps) == ManagerView::Loading
            || manager_view_spec(section, admin, caps) == ManagerView::AccessDenied),
{
}

/// A navigation entry as the sidebar renders it.
pub struct NavEntry {
    pub id: String,
    pub label: String,
    pub icon: String,
    pub active: bool,
}

/// The sidebar's entries: each item, marked active when its id is the
/// current section.
pub fn sidebar_entries(items: &Vec<(String, String, String)>, active_section: &str) -> (res: Vec<NavEntry>)
    ensures
        res@.len() == items@.len(),
        forall|i: int| 0 <= i < res@.len() ==> (#[trigger] res@[i]).id@ == items@[i].0@ && res@[i].label@
            == items@[i].1@ && res@[i].icon@ == items@[i].2@ && res@[i].active == (items@[i].0@ == active_section@),
{
    let mut out: Vec<NavEntry> = Vec::new();
    let mut i: usize = 0;
    while i < items.len()
        invariant
            i <= items.len(),
            out@.len() == i,
            forall|k: int| 0 <= k < i ==> (#[trigger] out@[k]).id@ == items@[k].0@ && out@[k].label@ == items@[k].1@
                && out@[k].icon@ == items@[k].2@ && out@[k].active == (items@[k].0@ == active_section@),
        decreases items.len() - i,
    {
        let (id, label, icon) = &items[i];
        out.push(NavEntry {
            id: id.clone(),
            label: label.clone(),
            icon: icon.clone(),
            active: same_text(id.as_str(), active_section),
        });
        i = i + 1;
    }
    out
}

} // verus!
