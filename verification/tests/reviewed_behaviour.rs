use edutalent::class_management::{list_source, ListSource};
use edutalent::class_views::{overview_classes_panel, ClassesPanel, OverviewClass};
use edutalent::forms::{search_id_for, search_input_id};
use edutalent::user_directory::{directory_load, DirectoryLoad, UserFilters};
use edutalent::knowledge_edit::{
    details_check, details_message, details_rejection_message, details_save_failure, DetailsMessage,
    DetailsRejection, KnowledgeAssetEditState, KnowledgeEditDraft, retrieval_sensitive_changed, AssetEditor,
    DetailsSavePlan, DraftField,
};
use edutalent::settings::{NotificationChoices, NotificationSettingsForm, NotificationSwitch};
use edutalent::json_doc::JsonDoc;
use edutalent::layout::sidebar_key_closes;
use edutalent::notifications::{format_time_ago, TimeAgoTexts};
use edutalent::submission_files::{LocalFile, QueueStep, UploadQueue};
use edutalent::tables::{data_table, TableColumn, TableRow, TableView};

fn file(request_id: u128, bytes: &[u8]) -> LocalFile {
    LocalFile {
        request_id,
        filename: format!("f{request_id}.pdf"),
        media_type: "application/pdf".to_string(),
        bytes: bytes.to_vec(),
        reserved_id: None,
    }
}

#[test]
fn a_reservation_keeps_the_files_it_is_about_to_send() {
    let mut queue = UploadQueue::new();
    queue.loaded = true;
    queue.pending = vec![file(1, b"first"), file(2, b"second")];
    assert!(queue.start().is_some());
    assert!(matches!(queue.reserved(Some(5)), QueueStep::Upload(5)));
    assert_eq!(queue.pending.len(), 2);
    assert_eq!(queue.pending[0].bytes, b"first".to_vec());
    assert_eq!(queue.pending[0].filename, "f1.pdf");
    assert_eq!(queue.pending[0].reserved_id, Some(5));
    assert_eq!(queue.pending[1].bytes, b"second".to_vec());
    assert_eq!(queue.pending[1].reserved_id, None);
    assert!(queue.busy && queue.loaded && !queue.error);
    assert_eq!(queue.epoch, 0);
}

#[test]
fn a_failed_upload_ends_the_run_and_keeps_the_file_for_a_retry() {
    let mut queue = UploadQueue::new();
    queue.loaded = true;
    queue.pending = vec![file(1, b"abc")];
    assert!(queue.start().is_some());
    assert!(matches!(queue.reserved(Some(9)), QueueStep::Upload(9)));
    assert!(matches!(queue.uploaded(false), QueueStep::Done));
    assert!(queue.error && !queue.busy && !queue.loaded);
    assert_eq!(queue.epoch, 1);
    assert_eq!(queue.pending.len(), 1);
    assert_eq!(queue.pending[0].request_id, 1);
}

#[test]
fn an_empty_table_shows_its_empty_state() {
    let columns = vec![TableColumn::new("name".to_string(), "Name".to_string())];
    match data_table(&columns, &vec![], &None, "No data", "Data") {
        TableView::Empty { title, description } => {
            assert_eq!(title, "No data");
            assert_eq!(description, "No data");
        }
        _ => panic!("expected the empty state"),
    }
    match data_table(&columns, &vec![], &Some("Students".to_string()), "No data", "Data") {
        TableView::Empty { title, .. } => assert_eq!(title, "Students"),
        _ => panic!("expected the empty state"),
    }
}

#[test]
fn a_table_is_captioned_by_its_title_or_the_default() {
    let columns = vec![
        TableColumn::new("name".to_string(), "Name".to_string()),
        TableColumn::new("grade".to_string(), "Grade".to_string()),
    ];
    let rows = vec![TableRow::new().with_cell("name".to_string(), "Sara".to_string())];
    match data_table(&columns, &rows, &None, "No data", "Data") {
        TableView::Table { caption, headers, rows } => {
            assert_eq!(caption, "Data");
            assert_eq!(headers, vec!["Name".to_string(), "Grade".to_string()]);
            assert_eq!(rows, vec![vec!["Sara".to_string(), "-".to_string()]]);
        }
        _ => panic!("expected a table"),
    }
}

fn class(id: usize) -> OverviewClass {
    OverviewClass {
        id: format!("c{id}"),
        name: format!("Class {id}"),
        subject_name: "Math".to_string(),
        teacher_name: "Reza".to_string(),
        term: "Fall".to_string(),
    }
}

#[test]
fn the_overview_lists_at_most_four_classes() {
    let six: Vec<OverviewClass> = (1..=6).map(class).collect();
    match overview_classes_panel(&Some(Ok(six))) {
        ClassesPanel::Rows(rows) => {
            assert_eq!(rows.len(), 4);
            assert_eq!(rows[0].title, "Class 1");
            assert_eq!(rows[3].id, "c4");
            assert_eq!(rows[0].meta, "Math · Reza");
            assert_eq!(rows[0].aside, "Fall");
        }
        _ => panic!("expected class rows"),
    }
    match overview_classes_panel(&Some(Ok(vec![class(1)]))) {
        ClassesPanel::Rows(rows) => assert_eq!(rows.len(), 1),
        _ => panic!("expected class rows"),
    }
    assert!(matches!(overview_classes_panel(&None), ClassesPanel::State { error: false, .. }));
    assert!(matches!(overview_classes_panel(&Some(Err(()))), ClassesPanel::State { error: true, .. }));
    match overview_classes_panel(&Some(Ok(vec![]))) {
        ClassesPanel::State { key, error } => {
            assert_eq!(key, "classes.no_classes");
            assert!(!error);
        }
        _ => panic!("expected the empty message"),
    }
}

#[test]
fn escape_closes_only_the_open_mobile_menu() {
    assert!(sidebar_key_closes(true, true));
    assert!(!sidebar_key_closes(false, true));
    assert!(!sidebar_key_closes(true, false));
}

fn asset() -> KnowledgeAssetEditState {
    KnowledgeAssetEditState {
        id: "asset".to_string(),
        title: "Title".to_string(),
        description: None,
        subject: None,
        grade: None,
        language: "en".to_string(),
        template_type: None,
        tags: "{\"kind\":\"guide\"}".to_string(),
        status: "published".to_string(),
        asset_revision: 7,
        current_source_file_id: None,
        current_source_filename: None,
        current_source_sha256: None,
    }
}

#[test]
fn the_details_form_names_tags_that_are_not_an_object() {
    let mut draft = KnowledgeEditDraft::from_asset(&asset());
    draft.tags_json = "[]".to_string();
    let parsed = Some(JsonDoc { is_object: false, canonical: "[]".to_string(), pretty: Some("[]".to_string()) });
    let rejection = details_check(&draft, &parsed).unwrap();
    assert_eq!(rejection, DetailsRejection::NotObject);
    let message = details_rejection_message(rejection);
    assert_eq!(details_message(message, false), "Tags/classification must be a JSON object.");
    assert_eq!(details_message(DetailsMessage::InvalidJson, false), "Tags/classification must be a valid JSON object.");
    assert_eq!(details_message(DetailsMessage::Archived, false), "Archived assets cannot receive a new source revision.");
    assert_eq!(details_message(DetailsMessage::Archived, true), "منبع بایگانی‌شده نسخهٔ منبع جدید نمی‌پذیرد.");
}

#[test]
fn the_details_form_sees_a_conflict_only_in_the_whole_phrase() {
    assert_eq!(details_save_failure("asset changed while you were editing it"), DetailsMessage::Conflict);
    assert_eq!(details_save_failure("asset changed while offline"), DetailsMessage::SaveFailed);
    assert_eq!(
        details_message(DetailsMessage::Conflict, true),
        "این منبع هم‌زمان تغییر کرده است. فهرست را تازه کنید و دوباره تلاش کنید."
    );
}

#[test]
fn an_instant_that_cannot_be_represented_reads_just_now() {
    let texts = TimeAgoTexts {
        days_ago: "{0} days ago".to_string(),
        hours_ago: "{0} hours ago".to_string(),
        minutes_ago: "{0} minutes ago".to_string(),
        just_now: "just now".to_string(),
    };
    assert_eq!(format_time_ago(i64::MAX, 0, &texts), "just now");
    assert_eq!(format_time_ago(0, 2_000_000_000, &texts), "just now");
}

#[test]
fn tags_are_compared_as_json_values() {
    let mut baseline = asset();
    baseline.tags = "{\"x\":0.0}".to_string();
    let draft = KnowledgeEditDraft::from_asset(&baseline);
    assert!(!retrieval_sensitive_changed(&baseline, &draft, &"{\"x\":-0.0}".to_string()));
    assert!(!retrieval_sensitive_changed(&baseline, &draft, &"{\"x\":0.0}".to_string()));
    assert!(retrieval_sensitive_changed(&baseline, &draft, &"{\"x\":1.0}".to_string()));
    baseline.tags = "{\"x\":1}".to_string();
    let draft = KnowledgeEditDraft::from_asset(&baseline);
    assert!(retrieval_sensitive_changed(&baseline, &draft, &"{\"x\":1.0}".to_string()));
}

#[test]
fn representable_instants_are_those_chrono_accepts() {
    assert!(chrono::DateTime::from_timestamp(8_210_266_876_799, 0).is_some());
    assert!(chrono::DateTime::from_timestamp(8_210_266_876_800, 0).is_none());
    assert!(chrono::DateTime::from_timestamp(-8_334_601_228_800, 0).is_some());
    assert!(chrono::DateTime::from_timestamp(-8_334_601_228_801, 0).is_none());
    assert!(chrono::DateTime::from_timestamp(59, 1_999_999_999).is_some());
    assert!(chrono::DateTime::from_timestamp(58, 1_000_000_000).is_none());
    assert!(chrono::DateTime::from_timestamp(59, 2_000_000_000).is_none());
    assert!(chrono::DateTime::from_timestamp(-1, 1_500_000_000).is_some());
}

#[test]
fn search_ids_prefix_a_version_four_uuid() {
    assert_eq!(search_id_for("0123"), "et-search-0123");
    let id = search_input_id();
    assert_eq!(id.len(), 42);
    assert!(id.starts_with("et-search-"));
    let digits: Vec<char> = id[10..].chars().collect();
    assert_eq!(digits[12], '4');
    assert!(matches!(digits[16], '8' | '9' | 'a' | 'b'));
}

#[test]
fn the_directory_reuses_users_read_with_the_same_filters() {
    let filters = UserFilters { role: "Teacher".to_string(), status: "Active".to_string(), query: String::new() };
    let other = UserFilters { role: "All".to_string(), status: "Active".to_string(), query: String::new() };
    assert!(matches!(directory_load(Some(&filters), &filters), DirectoryLoad::Cached));
    match directory_load(Some(&other), &filters) {
        DirectoryLoad::Fetch(q) => {
            assert_eq!(q.role, Some("Teacher".to_string()));
            assert_eq!(q.status, Some("active".to_string()));
            assert_eq!(q.query, None);
        }
        _ => panic!("expected a server read"),
    }
    assert!(matches!(directory_load(None, &other), DirectoryLoad::Fetch(_)));
    assert_eq!(list_source(true), ListSource::Cache);
    assert_eq!(list_source(false), ListSource::Server);
}

#[test]
fn saving_notification_settings_sends_every_switch() {
    let mut form = NotificationSettingsForm::new();
    let mut choices = NotificationChoices::all_on();
    choices.toggle(NotificationSwitch::UserRegistered);
    choices.toggle(NotificationSwitch::ProfileChange);
    form.loaded(Some(choices));
    let update = form.save().unwrap();
    assert!(!update.email_notifications && !update.push_notifications && !update.notify_report_generated);
    assert!(update.in_app_notifications);
    assert!(!update.notify_user_registered);
    assert!(update.notify_class_created);
    assert!(update.notify_assignment_submitted);
    assert!(!update.notify_profile_change);
    assert!(update.notify_system_announcements);
    assert!(form.status.saving && form.status.notice.is_none());
}

#[test]
fn the_details_form_plans_tags_before_required_fields() {
    let mut editor = AssetEditor::new();
    assert!(matches!(editor.plan_details_save(), DetailsSavePlan::Ignore));
    editor.select(&asset(), false);
    editor.edit(DraftField::Title, "  ".to_string());
    editor.edit(DraftField::Tags, "[]".to_string());
    assert!(matches!(editor.plan_details_save(), DetailsSavePlan::Reject(DetailsMessage::NotObject)));
    editor.edit(DraftField::Tags, "{oops".to_string());
    assert!(matches!(editor.plan_details_save(), DetailsSavePlan::Reject(DetailsMessage::InvalidJson)));
    editor.edit(DraftField::Tags, "{\"kind\": \"guide\"}".to_string());
    assert!(matches!(editor.plan_details_save(), DetailsSavePlan::Reject(DetailsMessage::Required)));
    editor.edit(DraftField::Title, " New title ".to_string());
    match editor.plan_details_save() {
        DetailsSavePlan::Send { request, sensitive } => {
            assert!(sensitive);
            assert_eq!(request.title, "New title");
            assert_eq!(request.tags, "{\"kind\":\"guide\"}");
            assert_eq!(request.expected_revision, 7);
        }
        _ => panic!("expected a save"),
    }
}
