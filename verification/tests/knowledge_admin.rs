use edutalent::knowledge_review::{format_file_size, short_reference};

#[test]
fn file_size_labels_are_human_readable() {
    assert_eq!(format_file_size(512), "512 B");
    assert_eq!(format_file_size(2048), "2.0 KiB");
    assert_eq!(format_file_size(2 * 1024 * 1024), "2.0 MiB");
}

#[test]
fn technical_references_are_secondary_and_short_in_primary_chrome() {
    assert_eq!(
        short_reference("a0000000-0000-0000-0000-0000000000a1"),
        "…000000a1"
    );
}

#[test]
fn file_size_matches_float_formatting() {
    let samples: [u64; 16] = [
        0,
        1,
        1023,
        1024,
        1075,
        1280,
        1536,
        10_240,
        1_048_575,
        1_048_576,
        1_101_004,
        5_767_168,
        123_456_789,
        9_007_199_254_740_993,
        18_446_744_073_709_551_615,
        18_014_398_509_481_985,
    ];
    for bytes in samples {
        let expected = if bytes >= 1024 * 1024 {
            format!("{:.1} MiB", bytes as f64 / (1024.0 * 1024.0))
        } else if bytes >= 1024 {
            format!("{:.1} KiB", bytes as f64 / 1024.0)
        } else {
            format!("{bytes} B")
        };
        assert_eq!(format_file_size(bytes), expected, "bytes = {bytes}");
    }
}

use edutalent::knowledge_review::{
    audit_school_label, audit_target_label, source_description, ArchiveTarget, LifecycleAction, OcrError,
    ReviewAssetSummary, ReviewNotice, ReviewState, SourceRevision, VerifiedOcr,
};
use edutalent::knowledge_status::{parse_status, status_tone, AssetStatus, PanelActions, ReviewActions, StatusTone};

fn source(asset_id: &str) -> Option<SourceRevision> {
    Some(SourceRevision {
        asset_id: asset_id.to_string(),
        source_file_id: "file-1".to_string(),
        source_sha256: "b".repeat(64),
    })
}

fn verified() -> VerifiedOcr {
    VerifiedOcr {
        raw_text: "verified text".to_string(),
        ocr_provider: "tesseract".to_string(),
        revision: "rev-3".to_string(),
        verified_at: "2026-01-01T00:00:00Z".to_string(),
        verified_by: "admin".to_string(),
        text_sha256: None,
    }
}

#[test]
fn opening_the_editor_fetches_and_fills_it() {
    let mut review = ReviewState::new();
    assert_eq!(review.request_ocr_editor("a1", "Guide"), Some("a1".to_string()));
    assert!(review.editor.as_ref().unwrap().loading);
    assert_eq!(review.provider, "manual-verified");
    review.editor_loaded("a1", source("a1"), Ok(Some(verified())));
    let editor = review.editor.as_ref().unwrap();
    assert!(!editor.loading);
    assert_eq!(editor.revision, Some("rev-3".to_string()));
    assert_eq!(review.ocr_text, "verified text");
    assert_eq!(review.provider, "tesseract");
    assert!(!review.is_dirty());
}

#[test]
fn late_fetches_for_another_asset_are_ignored() {
    let mut review = ReviewState::new();
    review.request_ocr_editor("a1", "Guide");
    review.editor_loaded("zz", source("zz"), Ok(Some(verified())));
    assert!(review.editor.as_ref().unwrap().loading);
    review.editor_loaded("a1", source("other"), Ok(None));
    assert_eq!(review.editor.as_ref().unwrap().error, Some(OcrError::SourceLoad));
}

#[test]
fn a_missing_verified_text_starts_a_manual_attachment() {
    let mut review = ReviewState::new();
    review.request_ocr_editor("a1", "Guide");
    review.editor_loaded("a1", source("a1"), Ok(None));
    let editor = review.editor.as_ref().unwrap();
    assert_eq!(editor.original_provider, "manual-verified");
    assert_eq!(editor.source_file_id, Some("file-1".to_string()));
    review.editor_loaded("a1", source("a1"), Err(()));
    assert_eq!(review.editor.as_ref().unwrap().error, Some(OcrError::Load));
}

#[test]
fn saving_pins_the_source_revision_and_trims_the_provider() {
    let mut review = ReviewState::new();
    review.request_ocr_editor("a1", "Guide");
    review.editor_loaded("a1", source("a1"), Ok(Some(verified())));
    review.edit_text("  corrected text ".to_string());
    review.edit_provider(" manual ".to_string());
    let request = review.submit_ocr().unwrap();
    assert_eq!(request.raw_text, "  corrected text ");
    assert_eq!(request.ocr_provider, "manual");
    assert_eq!(request.expected_source_file_id, "file-1");
    assert_eq!(request.expected_revision, Some("rev-3".to_string()));
    assert!(review.busy);
    assert!(review.submit_ocr().is_none());
    review.ocr_save_finished(false);
    assert_eq!(review.editor.as_ref().unwrap().error, Some(OcrError::SaveConflict));
    assert!(!review.busy);
    assert!(review.submit_ocr().is_some());
    assert!(review.ocr_save_finished(true));
    assert!(review.editor.is_none());
    assert_eq!(review.notice, Some(ReviewNotice::OcrSaved));
}

#[test]
fn blank_text_is_not_submitted_and_missing_source_is_reported() {
    let mut review = ReviewState::new();
    review.request_ocr_editor("a1", "Guide");
    assert!(review.submit_ocr().is_none());
    review.editor_loaded("a1", None, Ok(None));
    review.edit_text("text".to_string());
    assert!(review.submit_ocr().is_none());
    assert_eq!(review.editor.as_ref().unwrap().error, Some(OcrError::SourceRevisionUnavailable));
    review.edit_text("   ".to_string());
    assert!(review.submit_ocr().is_none());
}

#[test]
fn unsaved_ocr_edits_ask_before_they_are_discarded() {
    let mut review = ReviewState::new();
    review.request_ocr_editor("a1", "Guide");
    review.editor_loaded("a1", source("a1"), Ok(Some(verified())));
    review.edit_text("changed".to_string());
    assert!(review.request_ocr_editor("a2", "Other").is_none());
    assert!(review.discard_confirmation);
    assert_eq!(review.editor.as_ref().unwrap().asset_id, "a1");
    review.discard_cancelled();
    assert_eq!(review.ocr_text, "changed");
    review.request_close();
    assert!(review.discard_confirmation);
    review.discard_cancelled();
    review.request_ocr_editor("a2", "Other");
    assert_eq!(review.discard_confirmed(), Some("a2".to_string()));
    assert_eq!(review.editor.as_ref().unwrap().asset_id, "a2");
    assert_eq!(review.ocr_text, "");
}

#[test]
fn archiving_an_asset_with_unsaved_ocr_edits_confirms_the_discard_first() {
    let mut review = ReviewState::new();
    review.request_ocr_editor("a1", "Guide");
    review.editor_loaded("a1", source("a1"), Ok(Some(verified())));
    review.edit_text("changed".to_string());
    review.request_archive(ArchiveTarget {
        asset_id: "a1".to_string(),
        title: "Guide".to_string(),
        status: "published".to_string(),
    });
    assert!(review.archive_confirmation.is_none());
    assert!(review.discard_confirmation);
    assert_eq!(review.discard_confirmed(), None);
    assert_eq!(review.archive_confirmation.as_ref().unwrap().asset_id, "a1");
    assert_eq!(review.archive_confirmed(), Some("a1".to_string()));
    assert_eq!(review.notice, Some(ReviewNotice::Archiving));
    assert!(review.archive_finished("a1", true));
    assert_eq!(review.notice, Some(ReviewNotice::Archived));
    assert!(review.archive_confirmation.is_none());
}

#[test]
fn archive_confirmation_without_an_asset_does_nothing() {
    let mut review = ReviewState::new();
    assert_eq!(review.archive_confirmed(), None);
    assert!(!review.busy);
}

#[test]
fn lifecycle_actions_report_their_outcome() {
    let mut review = ReviewState::new();
    assert!(review.start_action());
    assert!(!review.start_action());
    assert!(!review.action_finished(LifecycleAction::Embed, false));
    assert_eq!(review.notice, Some(ReviewNotice::EmbeddingFailed));
    assert_eq!(ReviewNotice::EmbeddingFailed.key(), "platform_admin.notice.embedding_failed");
    review.start_action();
    review.action_finished(LifecycleAction::Publish, true);
    assert_eq!(review.notice, Some(ReviewNotice::Published));
}

#[test]
fn review_card_actions_follow_the_lifecycle() {
    let ready = ReviewActions::for_asset(parse_status("ocr_ready"), false);
    assert!(ready.can_edit_ocr && ready.can_embed && !ready.can_publish && ready.can_archive);
    let failed = ReviewActions::for_asset(AssetStatus::Failed, false);
    assert!(!failed.can_embed && failed.embed_is_retry);
    let archived = ReviewActions::for_asset(AssetStatus::Archived, true);
    assert!(!archived.can_edit_ocr && !archived.can_embed && !archived.can_publish && !archived.can_archive);
    let published = ReviewActions::for_asset(AssetStatus::Published, true);
    assert!(published.archive_withdraws && !published.can_publish);
    assert_eq!(parse_status("mystery"), AssetStatus::Other);
    assert_eq!(status_tone(AssetStatus::EmbeddingPending), StatusTone::Progress);
    let panel = PanelActions::for_status(AssetStatus::Embedded);
    assert!(panel.can_embed && panel.can_publish && panel.can_archive);
}

#[test]
fn readable_source_and_audit_labels() {
    assert_eq!(source_description(&Some("guide.pdf".to_string()), Some(2048), "n/a"), "guide.pdf · 2.0 KiB");
    assert_eq!(source_description(&None, None, "n/a"), "n/a");
    assert_eq!(source_description(&Some("g.pdf".to_string()), Some(-1), "n/a"), "g.pdf");
    let assets = vec![ReviewAssetSummary {
        id: "a1".to_string(),
        title: "Guide".to_string(),
        school_id: "s1".to_string(),
        school_name: "North School".to_string(),
    }];
    assert_eq!(audit_target_label("a1", "Asset", Some(&assets)), "Guide");
    assert_eq!(audit_target_label("a0000000-0000-0000-0000-0000000000a1", "Asset", None), "Asset · …000000a1");
    assert_eq!(audit_school_label(&Some("s1".to_string()), Some(&assets), "—", "School"), "North School");
    assert_eq!(audit_school_label(&None, Some(&assets), "—", "School"), "—");
    assert_eq!(audit_school_label(&Some("s2".to_string()), Some(&assets), "—", "School"), "School · s2");
    assert_eq!(short_reference("short"), "short");
}
