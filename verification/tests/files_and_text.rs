use edutalent::submission_files::{
    attachment_status_key, can_download, can_remove, check_selection, sha256_hex, to_lower_hex, visible_remote,
    AttachmentStatus, FileLimits, LocalFile, QueueStep, StoredAttachment, UploadQueue,
};
use edutalent::knowledge_edit::normalized_optional;
use edutalent::settings::profile_initial;
use edutalent::text::{contains, decimal_string, replace_text};
use edutalent::user_directory::{directory_query, UserFilters};

fn local(request_id: u128, reserved: Option<u128>) -> LocalFile {
    LocalFile {
        request_id,
        filename: format!("f{request_id}.pdf"),
        media_type: "application/pdf".to_string(),
        bytes: b"abc".to_vec(),
        reserved_id: reserved,
    }
}

#[test]
fn digests_are_lower_hex_sha256() {
    assert_eq!(
        sha256_hex(&b"abc".to_vec()),
        "ba7816bf8f01cfea414140de5dae2223b00361a396177a9cb410ff61f20015ad"
    );
    assert_eq!(to_lower_hex(&vec![0x0a, 0xff, 0x00]), "0aff00");
}

#[test]
fn selections_are_checked_against_the_limits() {
    let limits = FileLimits { max_files: 3, max_total_bytes: 100, max_file_bytes: 60 };
    assert!(!check_selection(&vec![10, 20], &vec![30], &vec![], &limits));
    assert!(check_selection(&vec![10, 20], &vec![30], &vec![5], &limits));
    assert!(check_selection(&vec![0], &vec![], &vec![], &limits));
    assert!(check_selection(&vec![61], &vec![], &vec![], &limits));
    assert!(check_selection(&vec![50, 50], &vec![], &vec![1], &limits));
    assert!(check_selection(&vec![u64::MAX], &vec![u64::MAX], &vec![], &limits));
}

#[test]
fn stored_files_held_by_a_local_reservation_are_not_listed_twice() {
    let stored = vec![
        StoredAttachment { id: 1, filename: "a".to_string(), byte_size: 3, status: AttachmentStatus::Ready },
        StoredAttachment { id: 2, filename: "b".to_string(), byte_size: 3, status: AttachmentStatus::Pending },
    ];
    let shown = visible_remote(&stored, &vec![local(9, Some(2))]);
    assert_eq!(shown.len(), 1);
    assert_eq!(shown[0].id, 1);
    assert!(can_download(AttachmentStatus::Ready) && !can_download(AttachmentStatus::Pending));
    assert!(can_remove(true, AttachmentStatus::Ready) && !can_remove(true, AttachmentStatus::Submitted));
    assert_eq!(attachment_status_key(AttachmentStatus::Submitted), "submission.files.submitted");
}

#[test]
fn the_upload_queue_reserves_uploads_and_stops_on_failure() {
    let mut queue = UploadQueue::new();
    queue.loaded = true;
    queue.pending = vec![local(1, None), local(2, None)];
    assert!(queue.unuploaded());
    match queue.start() {
        Some(QueueStep::Reserve(intent)) => {
            assert_eq!(intent.request_id, 1);
            assert_eq!(intent.byte_size, 3);
            assert_eq!(intent.sha256.len(), 64);
        }
        _ => panic!("expected a reservation"),
    }
    assert!(queue.start().is_none());
    assert!(matches!(queue.reserved(Some(77)), QueueStep::Upload(77)));
    assert_eq!(queue.pending[0].reserved_id, Some(77));
    match queue.uploaded(true) {
        QueueStep::Reserve(intent) => assert_eq!(intent.request_id, 2),
        _ => panic!("expected the next reservation"),
    }
    assert!(matches!(queue.reserved(None), QueueStep::Done));
    assert!(queue.error && !queue.busy && !queue.loaded);
    assert_eq!(queue.epoch, 1);
    assert_eq!(queue.pending.len(), 1);
    assert!(queue.remove_local(2, true));
    assert!(queue.pending.is_empty());
}

#[test]
fn text_primitives() {
    assert_eq!(normalized_optional("\u{3000} a b \n"), Some("a b".to_string()));
    assert!(contains("hello world", "o w"));
    assert!(!contains("hi", "high"));
    assert_eq!(decimal_string(1_204), "1204");
    assert_eq!(replace_text("{0}/{0}", "{0}", "x"), "x/x");
    let filters = UserFilters { role: "All".to_string(), status: "Inactive".to_string(), query: String::new() };
    assert_eq!(directory_query(&filters).status, Some("inactive".to_string()));
    assert_eq!(profile_initial("qara"), "Q");
    assert_eq!(profile_initial("7th"), "7");
}
