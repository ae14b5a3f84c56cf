use edutalent::json_doc::JsonDoc;
use edutalent::knowledge_edit::{
    editor_message, details_check, details_replacement_error_message, normalized_optional,
    replacement_error_message, retrieval_sensitive_changed, AssetEditor, DraftField, EditorMessage,
    DetailsRejection, KnowledgeAssetEditState, KnowledgeEditDraft, ReplaceOutcome, ReplacePlan,
    SaveOutcome, SavePlan,
};

fn asset() -> KnowledgeAssetEditState {
    KnowledgeAssetEditState {
        id: "asset".to_string(),
        title: "Title".to_string(),
        description: Some("Description".to_string()),
        subject: Some("Math".to_string()),
        grade: Some("8".to_string()),
        language: "en".to_string(),
        template_type: None,
        tags: "{\"kind\":\"guide\"}".to_string(),
        status: "published".to_string(),
        asset_revision: 7,
        current_source_file_id: Some("source".to_string()),
        current_source_filename: Some("guide.pdf".to_string()),
        current_source_sha256: Some("a".repeat(64)),
    }
}

#[test]
fn knowledge_asset_management_description_only_is_not_retrieval_sensitive() {
    let baseline = asset();
    let mut draft = KnowledgeEditDraft::from_asset(&baseline);
    draft.description = "New presentation copy".to_string();
    assert!(!retrieval_sensitive_changed(&baseline, &draft, &baseline.tags));
}

#[test]
fn knowledge_asset_management_vector_payload_metadata_is_retrieval_sensitive() {
    let baseline = asset();
    let mut draft = KnowledgeEditDraft::from_asset(&baseline);
    draft.subject = "Physics".to_string();
    assert!(retrieval_sensitive_changed(&baseline, &draft, &baseline.tags));
}

#[test]
fn knowledge_asset_management_v2_description_only_is_not_retrieval_sensitive() {
    let baseline = asset();
    let mut draft = KnowledgeEditDraft::from_asset(&baseline);
    draft.description = "New presentation copy".to_string();
    assert!(!retrieval_sensitive_changed(&baseline, &draft, &baseline.tags));
}

#[test]
fn knowledge_asset_management_v2_vector_payload_metadata_is_retrieval_sensitive() {
    let baseline = asset();
    let mut draft = KnowledgeEditDraft::from_asset(&baseline);
    draft.subject = "Physics".to_string();
    assert!(retrieval_sensitive_changed(&baseline, &draft, &baseline.tags));
}

#[test]
fn draft_opens_with_indented_tags_and_empty_absent_fields() {
    let draft = KnowledgeEditDraft::from_asset(&asset());
    assert_eq!(draft.title, "Title");
    assert_eq!(draft.template_type, "");
    assert_eq!(draft.tags_json, "{\n  \"kind\": \"guide\"\n}");
}

#[test]
fn retrieval_sensitivity_ignores_surrounding_whitespace_but_not_tags() {
    let baseline = asset();
    let mut draft = KnowledgeEditDraft::from_asset(&baseline);
    draft.title = "  Title \n".to_string();
    assert!(!retrieval_sensitive_changed(&baseline, &draft, &baseline.tags));
    assert!(retrieval_sensitive_changed(&baseline, &draft, &"{\"kind\":\"other\"}".to_string()));
    draft.template_type = "worksheet".to_string();
    assert!(retrieval_sensitive_changed(&baseline, &draft, &baseline.tags));
}

#[test]
fn json_documents_are_read_in_canonical_form() {
    let mut editor = open_editor();
    editor.edit(DraftField::Tags, " { \"b\": 1, \"a\": [true, null] } ".to_string());
    match editor.plan_save() {
        SavePlan::Send { request, sensitive } => {
            assert!(sensitive);
            assert_eq!(request.tags, "{\"a\":[true,null],\"b\":1}");
        }
        _ => panic!("expected a save"),
    }
    editor.edit(DraftField::Tags, "[1, 2]".to_string());
    assert!(matches!(editor.plan_save(), SavePlan::Reject(EditorMessage::InvalidJson)));
    editor.edit(DraftField::Tags, "{not json".to_string());
    assert!(matches!(editor.plan_save(), SavePlan::Reject(EditorMessage::InvalidJson)));
}

fn doc(is_object: bool, canonical: &str) -> Option<JsonDoc> {
    Some(JsonDoc { is_object, canonical: canonical.to_string(), pretty: Some(canonical.to_string()) })
}

#[test]
fn optional_fields_are_trimmed_or_dropped() {
    assert_eq!(normalized_optional("  Algebra "), Some("Algebra".to_string()));
    assert_eq!(normalized_optional(" \t "), None);
}

fn open_editor() -> AssetEditor {
    let mut editor = AssetEditor::new();
    editor.select(&asset(), false);
    editor
}

#[test]
fn saving_an_unchanged_description_edit_goes_out_without_warning() {
    let mut editor = open_editor();
    assert!(!editor.is_dirty());
    editor.edit(DraftField::Description, "Fresh copy".to_string());
    assert!(editor.is_dirty());
    let plan = editor.plan_save();
    match &plan {
        SavePlan::Send { request, sensitive } => {
            assert!(!sensitive);
            assert_eq!(request.asset_id, "asset");
            assert_eq!(request.expected_revision, 7);
            assert_eq!(request.description, Some("Fresh copy".to_string()));
            assert_eq!(request.tags, "{\"kind\":\"guide\"}");
            assert_eq!(request.template_type, None);
        }
        _ => panic!("expected a save"),
    }
    let sent = editor.start_save(plan, false);
    assert!(sent.is_some());
    assert!(editor.busy);
    editor.finish_save(SaveOutcome::Saved { vectors_invalidated: false });
    assert!(!editor.busy);
    assert!(editor.selected.is_none());
    assert_eq!(editor.notice, Some((true, EditorMessage::SavedKept)));
}

#[test]
fn a_sensitive_change_waits_for_the_warning() {
    let mut editor = open_editor();
    editor.edit(DraftField::Subject, "Physics".to_string());
    let plan = editor.plan_save();
    assert!(matches!(plan, SavePlan::Send { sensitive: true, .. }));
    assert!(editor.start_save(plan, false).is_none());
    assert!(!editor.busy);
    assert_eq!(editor.draft.subject, "Physics");
}

#[test]
fn drafts_without_title_or_with_bad_tags_are_refused() {
    let mut editor = open_editor();
    editor.edit(DraftField::Title, "   ".to_string());
    assert!(matches!(editor.plan_save(), SavePlan::Reject(EditorMessage::Required)));
    editor.edit(DraftField::Title, "Title".to_string());
    editor.edit(DraftField::Tags, "[1]".to_string());
    let plan = editor.plan_save();
    assert!(matches!(plan, SavePlan::Reject(EditorMessage::InvalidJson)));
    editor.start_save(plan, true);
    assert_eq!(editor.notice, Some((false, EditorMessage::InvalidJson)));
    editor.edit(DraftField::Tags, "{oops".to_string());
    assert!(matches!(editor.plan_save(), SavePlan::Reject(EditorMessage::InvalidJson)));
}

#[test]
fn unsaved_edits_survive_an_unconfirmed_switch_and_cancel() {
    let mut editor = open_editor();
    editor.edit(DraftField::Grade, "9".to_string());
    let mut other = asset();
    other.id = "other".to_string();
    editor.select(&other, false);
    assert_eq!(editor.selected.as_ref().unwrap().id, "asset");
    assert_eq!(editor.draft.grade, "9");
    editor.cancel(false);
    assert!(editor.selected.is_some());
    editor.cancel(true);
    assert!(editor.selected.is_none());
    assert_eq!(editor.draft.grade, "");
}

#[test]
fn a_stale_save_reports_a_conflict() {
    let mut editor = open_editor();
    editor.edit(DraftField::Description, "x".to_string());
    let plan = editor.plan_save();
    editor.start_save(plan, true);
    editor.finish_save(SaveOutcome::Failed { error: "asset changed while you were editing".to_string() });
    assert_eq!(editor.notice, Some((false, EditorMessage::Conflict)));
    assert!(editor.selected.is_some());
    editor.finish_save(SaveOutcome::Failed { error: "boom".to_string() });
    assert_eq!(editor.notice, Some((false, EditorMessage::SaveFailed)));
}

#[test]
fn archived_assets_take_no_new_source() {
    let mut archived = asset();
    archived.status = "archived".to_string();
    let mut editor = AssetEditor::new();
    editor.select(&archived, false);
    assert!(matches!(editor.plan_replacement(), ReplacePlan::Reject(EditorMessage::Archived)));
}

#[test]
fn source_replacement_outcomes() {
    let mut editor = open_editor();
    let plan = editor.plan_replacement();
    let target = editor.start_replacement(plan, true).unwrap();
    assert_eq!(target.asset_id, "asset");
    assert_eq!(target.expected_revision, 7);
    editor.finish_replacement(ReplaceOutcome::Responded(413));
    assert_eq!(editor.notice, Some((false, EditorMessage::ReplacementRejected(413))));
    assert!(editor.selected.is_some());
    let plan = editor.plan_replacement();
    editor.start_replacement(plan, true);
    editor.finish_replacement(ReplaceOutcome::Responded(201));
    assert_eq!(editor.source_epoch, 1);
    assert!(editor.selected.is_none());
    editor.finish_replacement(ReplaceOutcome::StorageUnavailable);
    assert_eq!(editor.notice, Some((false, EditorMessage::StorageUnavailable)));
}

#[test]
fn replacement_errors_are_mapped_by_status() {
    assert_eq!(replacement_error_message(409, false), "This asset changed concurrently; refresh the asset list.");
    assert_eq!(replacement_error_message(413, true), "PDF از حد ۲۰ MiB بزرگ‌تر است.");
    assert_eq!(replacement_error_message(500, false), "The new source revision was not registered; refresh and try again.");
    assert_eq!(details_replacement_error_message(403, false), "You are not allowed to replace this asset source.");
    assert_eq!(details_replacement_error_message(400, false), "The file or asset revision is invalid.");
    assert_eq!(details_replacement_error_message(415, false), "The selected file is not a complete PDF.");
    assert_eq!(editor_message(EditorMessage::Required, false), "Title and language are required.");
    assert_eq!(editor_message(EditorMessage::ReplacementRejected(409), true), "این منبع هم‌زمان تغییر کرده است؛ فهرست را تازه کنید.");
}

#[test]
fn the_details_checked_tags_before_required_fields() {
    let mut draft = KnowledgeEditDraft::from_asset(&asset());
    draft.title = String::new();
    assert_eq!(details_check(&draft, &None), Some(DetailsRejection::InvalidJson));
    assert_eq!(details_check(&draft, &doc(false, "3")), Some(DetailsRejection::NotObject));
    assert_eq!(details_check(&draft, &doc(true, "{}")), Some(DetailsRejection::Required));
    draft.title = "T".to_string();
    assert_eq!(details_check(&draft, &doc(true, "{}")), None);
}
