use edutalent::knowledge_submissions::{
    embedding_queued_message, metadata_line, toggle_button_text, toggle_request, toggled_message, OcrAttachForm,
    SubmissionForm,
};
use edutalent::knowledge_upload::{
    readiness_text, submission_metadata, upload_error_message, upload_field_id, StorageReadiness, UploadOutcome,
    UploadPanel,
};

#[test]
fn upload_errors_are_status_mapped_not_server_body_mirrors() {
    assert!(upload_error_message(503).contains("temporarily unavailable"));
    assert!(upload_error_message(415).contains("complete PDF"));
}

#[test]
fn upload_error_texts_by_status() {
    assert_eq!(upload_error_message(413), "The PDF exceeds the 20 MiB upload limit.");
    assert_eq!(upload_error_message(401), upload_error_message(403));
    assert!(upload_error_message(500).starts_with("The PDF could not be registered."));
}

#[test]
fn uploads_start_only_with_ready_storage() {
    let mut panel = UploadPanel::new();
    assert!(!panel.submit(StorageReadiness::Misconfigured));
    assert_eq!(
        panel.notice,
        Some((false, "Knowledge storage is not ready for a new upload. Retry the storage check first.".to_string()))
    );
    assert!(panel.submit(StorageReadiness::Ready));
    assert!(!panel.submit(StorageReadiness::Ready));
    let follow = panel.finished(UploadOutcome::Responded { status: 503, payload_status: None });
    assert!(follow.recheck_storage && !follow.reload_submissions);
    assert_eq!(panel.form_epoch, 0);
    panel.submit(StorageReadiness::Ready);
    let follow = panel.finished(UploadOutcome::Responded { status: 201, payload_status: None });
    assert!(follow.reload_submissions);
    assert_eq!(panel.form_epoch, 1);
    assert_eq!(
        panel.notice,
        Some((
            true,
            "PDF uploaded and registered with status submitted. OCR, embedding, teacher enablement, and publication have not occurred."
                .to_string()
        ))
    );
    panel.submit(StorageReadiness::Ready);
    let follow = panel.finished(UploadOutcome::Unreachable);
    assert!(follow.recheck_storage);
}

#[test]
fn submission_lines_and_readiness() {
    assert_eq!(submission_metadata(&Some("Math".to_string()), &Some("8".to_string())), "Math · 8");
    assert_eq!(submission_metadata(&None, &Some("8".to_string())), "8");
    assert_eq!(submission_metadata(&None, &None), "General");
    assert_eq!(upload_field_id("title"), "knowledge-title");
    assert!(readiness_text(StorageReadiness::Checking).starts_with("Checking"));
}

#[test]
fn registering_a_source_requires_title_url_and_filename() {
    let mut form = SubmissionForm::new();
    form.title = "Guide".to_string();
    assert!(form.submit().is_none());
    form.source_url = " https://s/x.pdf ".to_string();
    form.filename = "x.pdf".to_string();
    form.grade = "  ".to_string();
    let request = form.submit().unwrap();
    assert_eq!(request.original_file_url, Some("https://s/x.pdf".to_string()));
    assert_eq!(request.grade, None);
    assert_eq!(request.language, "fa");
    assert_eq!(request.tags, "{}");
    form.finished(Some("denied".to_string()));
    assert_eq!(form.notice, Some("Submission failed: denied".to_string()));
    form.finished(None);
    assert!(form.title.is_empty());
}

#[test]
fn teacher_switches_and_admin_ocr_panel() {
    let request = toggle_request("a1", true);
    assert!(!request.enabled);
    assert_eq!(request.context_scope, "global");
    assert_eq!(toggled_message(false, "Guide"), "Disabled ‘Guide’ for governed generation.");
    assert_eq!(toggle_button_text(true), "Enabled for generation");
    let mut form = OcrAttachForm::new();
    assert!(form.submit().is_none());
    assert_eq!(form.notice, Some("Select an asset before attaching OCR text.".to_string()));
    form.select("a1");
    assert!(form.submit().is_none());
    form.ocr_text = "text".to_string();
    let attach = form.submit().unwrap();
    assert_eq!(attach.ocr_provider, "manual-verified");
    form.finished(None);
    assert!(form.selected_asset.is_none());
    assert_eq!(embedding_queued_message("j7"), "Embedding queued as job j7.");
    assert_eq!(metadata_line(&Some("Math".to_string()), &None, "fa"), "Math · fa");
    assert_eq!(metadata_line(&None, &None, "en"), "en");
    assert_eq!(metadata_line(&Some("Math".to_string()), &Some("8".to_string()), "en"), "Math · 8 · en");
}
