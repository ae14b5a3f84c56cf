use edutalent::errors::{boundary_view, unknown_error, AppError, BoundaryView};
use edutalent::forms::{fill_template, search_input_id, search_shows_clear, textarea_rows, ProfileRequestForm};
use edutalent::guards::{
    any_role_granted, auth_guard_decision, guard_decision, manager_view, parent_view, platform_view,
    route_for_section, should_redirect_to_login, sidebar_entries, student_view, GuardDecision, ManagerView,
    ParentView, PlatformView, ProductCapabilities, SectionRoute, StudentView, SystemRole,
};
use edutalent::layout::{page_title, skeleton_radius, table_skeleton_size};
use edutalent::navigation::{
    next_page, page_window, previous_page, BreadcrumbItem, NavigationUtils, QuickAction, TabItem,
};
use edutalent::notifications::{badge_text, format_time_ago, notification_icon, time_ago, NotificationMenu, TimeAgoTexts};
use edutalent::tables::{stats_grid_columns, table_cells, StatItem, TableColumn, TableRow};

#[test]
fn role_guard_role_comparison_is_explicit() {
    assert!(any_role_granted(SystemRole::SchoolManager, &vec![SystemRole::SchoolManager]));
    assert!(!any_role_granted(SystemRole::Teacher, &vec![SystemRole::SchoolManager]));
}

#[test]
fn guards_show_content_only_to_granted_users() {
    assert_eq!(guard_decision(true, Some(true), false), GuardDecision::Loading);
    assert_eq!(guard_decision(false, None, true), GuardDecision::Loading);
    assert_eq!(guard_decision(false, Some(true), false), GuardDecision::Children);
    assert_eq!(guard_decision(false, Some(false), true), GuardDecision::Fallback);
    assert_eq!(guard_decision(false, Some(false), false), GuardDecision::Denied);
    assert_eq!(auth_guard_decision(false, false, false), GuardDecision::Loading);
    assert!(should_redirect_to_login(false, false));
    assert!(!should_redirect_to_login(true, false));
}

#[test]
fn disabled_capabilities_fall_back_to_the_overview() {
    let off = ProductCapabilities {
        timetable: false,
        parent_reports: false,
        parent_teacher_communication: false,
        school_manager_reports: false,
    };
    let on = ProductCapabilities { timetable: true, parent_reports: true, parent_teacher_communication: true, school_manager_reports: true };
    assert_eq!(student_view("schedule", off), StudentView::Overview);
    assert_eq!(student_view("schedule", on), StudentView::Schedule);
    assert_eq!(parent_view("communication", off), ParentView::Overview);
    assert_eq!(parent_view("children", off), ParentView::Children);
    assert_eq!(manager_view("reports", Some(true), off), ManagerView::Overview);
    assert_eq!(manager_view("users", Some(false), on), ManagerView::AccessDenied);
    assert_eq!(manager_view("users", None, on), ManagerView::Loading);
    assert_eq!(manager_view("knowledge-submissions", Some(true), on), ManagerView::KnowledgeSubmissions);
    assert_eq!(platform_view("knowledge-audit"), PlatformView::Audit);
    assert_eq!(route_for_section("overview"), SectionRoute::Dashboard);
    assert_eq!(route_for_section("users"), SectionRoute::Section);
}

#[test]
fn sidebar_and_title_follow_the_active_section() {
    let items = vec![
        ("overview".to_string(), "Overview".to_string(), "home".to_string()),
        ("users".to_string(), "Users".to_string(), "group".to_string()),
    ];
    let entries = sidebar_entries(&items, "users");
    assert!(!entries[0].active && entries[1].active);
    let pairs = vec![("users".to_string(), "Users".to_string())];
    assert_eq!(page_title(&pairs, "users", "Dashboard"), "Users");
    assert_eq!(page_title(&pairs, "grades", "Dashboard"), "Dashboard");
    assert_eq!(skeleton_radius(&Some("circle".to_string())), "50%");
    assert_eq!(skeleton_radius(&None), "8px");
    assert_eq!(table_skeleton_size(None, Some(2)), (5, 2));
}

#[test]
fn pagination_shows_the_block_of_the_current_page() {
    assert_eq!(page_window(7, 12), vec![6, 7, 8, 9, 10]);
    assert_eq!(page_window(12, 12), vec![11, 12]);
    assert_eq!(page_window(1, 0), Vec::<i32>::new());
    assert_eq!(previous_page(1), None);
    assert_eq!(next_page(3, 3), None);
    assert_eq!(next_page(2, 3), Some(3));
}

#[test]
fn breadcrumbs_name_route_segments() {
    let crumbs = NavigationUtils::breadcrumbs_from_route("/dashboard/school-manager/users/bulk-import-wizard");
    let labels: Vec<&str> = crumbs.iter().map(|c| c.label.as_str()).collect();
    assert_eq!(labels, vec!["Dashboard", "School Manager", "User Management", "Bulk Import Wizard"]);
    assert!(crumbs.iter().all(|c| c.is_current));
    let item = BreadcrumbItem::new("Home".to_string());
    assert!(!item.is_current);
    assert!(item.current().is_current);
    let tab = TabItem::new("t".to_string(), "Tab".to_string()).with_badge("3".to_string());
    assert_eq!(tab.badge, Some("3".to_string()));
    assert!(tab.is_active("t"));
    let action = QuickAction::new("q".to_string(), "Do".to_string()).with_icon("add".to_string());
    assert_eq!(action.icon, Some("add".to_string()));
}

#[test]
fn notification_badge_and_relative_times() {
    assert_eq!(badge_text(0), "0");
    assert_eq!(badge_text(100), "99+");
    assert_eq!(badge_text(-3), "-3");
    let texts = TimeAgoTexts {
        days_ago: "{0} days ago".to_string(),
        hours_ago: "{0} hours ago".to_string(),
        minutes_ago: "{0} minutes ago".to_string(),
        just_now: "just now".to_string(),
    };
    assert_eq!(time_ago(2 * 86_400 + 5, &texts), "2 days ago");
    assert_eq!(time_ago(3 * 3_600, &texts), "3 hours ago");
    assert_eq!(time_ago(59, &texts), "just now");
    assert_eq!(time_ago(-4_000, &texts), "just now");
    assert_eq!(format_time_ago(i64::MAX, 0, &texts), "just now");
    assert_eq!(format_time_ago(0, 0, &texts).ends_with("days ago"), true);
    assert_eq!(notification_icon(&None), "notifications");
}

#[test]
fn notification_actions_are_one_at_a_time() {
    let mut menu = NotificationMenu::new();
    menu.toggle();
    assert!(menu.open);
    assert!(menu.start_mark_all());
    assert!(!menu.start_mark_all());
    assert!(!menu.mark_all_finished(false));
    assert!(menu.action_failed);
    assert_eq!(menu.start_mark_one("n1"), Some("n1".to_string()));
    assert!(menu.is_pending("n1"));
    assert_eq!(menu.start_mark_one("n2"), None);
    assert!(menu.mark_one_finished(true));
    assert!(!menu.is_pending("n1"));
}

#[test]
fn errors_show_category_wording_only() {
    let e = AppError::ServerError("db timeout at node 7".to_string());
    assert_eq!(e.user_message(), "Service unavailable");
    assert_eq!(e.error_type(), "server");
    assert_eq!(e.detail(), "db timeout at node 7");
    let from: AppError = AppError::from("boom".to_string());
    assert_eq!(from, AppError::UnknownError("boom".to_string()));
    assert_eq!(unknown_error("x"), AppError::UnknownError("x".to_string()));
    assert_eq!(boundary_view(true, false), BoundaryView::DefaultError);
}

#[test]
fn tables_render_keyed_cells() {
    let row = TableRow::new()
        .with_cell("name".to_string(), "Sara".to_string())
        .with_cell("grade".to_string(), "8".to_string())
        .with_cell("name".to_string(), "Sima".to_string());
    assert_eq!(row.get_cell_value("name"), "Sima");
    assert_eq!(row.get_cell_value("grade"), "8");
    assert_eq!(row.get_cell_value("email"), "-");
    let columns = vec![
        TableColumn::new("grade".to_string(), "Grade".to_string()),
        TableColumn::new("email".to_string(), "Email".to_string()),
    ];
    assert_eq!(table_cells(&columns, &vec![row]), vec![vec!["8".to_string(), "-".to_string()]]);
    assert_eq!(stats_grid_columns(None), 4);
    assert_eq!(stats_grid_columns(Some(9)), 4);
    assert_eq!(stats_grid_columns(Some(0)), 1);
    let stat = StatItem::new("Users".to_string(), "12".to_string(), "blue".to_string()).with_change("+2".to_string());
    assert_eq!(stat.change, Some("+2".to_string()));
}

#[test]
fn form_primitives() {
    assert_eq!(textarea_rows(Some(0)), Some(1));
    assert_eq!(textarea_rows(Some(900)), Some(255));
    assert_eq!(textarea_rows(None), None);
    let id = search_input_id();
    assert!(id.starts_with("et-search-"));
    assert_eq!(id.len(), 42);
    assert_ne!(id, search_input_id());
    assert!(!search_shows_clear(""));
    assert_eq!(fill_template("Done: {0}", "Approved"), "Done: Approved");
    let mut form = ProfileRequestForm::open("A", "a@x");
    assert!(form.submit(None, "No session").is_none());
    assert_eq!(form.error, Some("No session".to_string()));
    assert!(form.submit(Some("tok".to_string()), "No session").is_some());
    assert!(!form.finished(Some("nope".to_string()), "Failed: {0}"));
    assert_eq!(form.error, Some("Failed: nope".to_string()));
}
