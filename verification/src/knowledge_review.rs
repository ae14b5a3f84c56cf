//! The platform administrator's knowledge review: the verified-OCR editor
//! with its discard and archive confirmations, the lifecycle actions of a
//! review card, and the readable labels of the review and audit views.

use vstd::prelude::*;
use crate::text::{decimal, digit_char, same_text, trim, trimmed};
use vstd::arithmetic::power2::pow2;

verus! {

/// The provider recorded for text an administrator verified by hand.
pub open spec fn manual_provider() -> Seq<char> {
    "manual-verified"@
}

fn manual_provider_text() -> (res: String)
    ensures
        res@ == manual_provider(),
{
    "manual-verified".to_owned()
}

/// Why the OCR editor cannot go on.
#[derive(PartialEq, Eq, Structural, Clone, Copy, Debug)]
pub enum OcrError {
    /// The current source revision could not be read.
    SourceLoad,
    /// The verified OCR text could not be read.
    Load,
    /// No source revision is known to pin the save to.
    SourceRevisionUnavailable,
    /// The server refused the save (changed meanwhile).
    SaveConflict,
}

impl OcrError {
    /// The translation key of the message.
    pub fn key(&self) -> (res: &'static str)
        ensures
            res@ == ocr_error_key(*self),
    {
        proof {
            reveal_strlit("platform_admin.ocr.source_load_error");
            reveal_strlit("platform_admin.ocr.load_error");
            reveal_strlit("platform_admin.ocr.source_revision_unavailable");
            reveal_strlit("platform_admin.ocr.save_conflict");
        }
        match self {
            OcrError::SourceLoad => "platform_admin.ocr.source_load_error",
            OcrError::Load => "platform_admin.ocr.load_error",
            OcrError::SourceRevisionUnavailable => "platform_admin.ocr.source_revision_unavailable",
            OcrError::SaveConflict => "platform_admin.ocr.save_conflict",
        }
    }
}

pub open spec fn ocr_error_key(e: OcrError) -> Seq<char> {
    match e {
        OcrError::SourceLoad => "platform_admin.ocr.source_load_error"@,
        OcrError::Load => "platform_admin.ocr.load_error"@,
        OcrError::SourceRevisionUnavailable => "platform_admin.ocr.source_revision_unavailable"@,
        OcrError::SaveConflict => "platform_admin.ocr.save_conflict"@,
    }
}

/// What the review section's notice line reports.
#[derive(PartialEq, Eq, Structural, Clone, Copy, Debug)]
pub enum ReviewNotice {
    OcrSaved,
    Archiving,
    Archived,
    ArchiveFailed,
    EmbeddingQueued,
    EmbeddingFailed,
    Published,
    PublishFailed,
}

pub open spec fn review_notice_key(n: ReviewNotice) -> Seq<char> {
    match n {
        ReviewNotice::OcrSaved => "platform_admin.notice.ocr_saved"@,
        ReviewNotice::Archiving => "platform_admin.notice.archiving"@,
        ReviewNotice::Archived => "platform_admin.notice.archived"@,
        ReviewNotice::ArchiveFailed => "platform_admin.notice.archive_failed"@,
        ReviewNotice::EmbeddingQueued => "platform_admin.notice.embedding_queued"@,
        ReviewNotice::EmbeddingFailed => "platform_admin.notice.embedding_failed"@,
        ReviewNotice::Published => "platform_admin.notice.published"@,
        ReviewNotice::PublishFailed => "platform_admin.notice.publish_failed"@,
    }
}

impl ReviewNotice {
    /// The translation key of the notice.
    pub fn key(&self) -> (res: &'static str)
        ensures
            res@ == review_notice_key(*self),
    {
        proof {
            reveal_strlit("platform_admin.notice.ocr_saved");
            reveal_strlit("platform_admin.notice.archiving");
            reveal_strlit("platform_admin.notice.archived");
            reveal_strlit("platform_admin.notice.archive_failed");
            reveal_strlit("platform_admin.notice.embedding_queued");
            reveal_strlit("platform_admin.notice.embedding_failed");
            reveal_strlit("platform_admin.notice.published");
            reveal_strlit("platform_admin.notice.publish_failed");
        }
        match self {
            ReviewNotice::OcrSaved => "platform_admin.notice.ocr_saved",
            ReviewNotice::Archiving => "platform_admin.notice.archiving",
            ReviewNotice::Archived => "platform_admin.notice.archived",
            ReviewNotice::ArchiveFailed => "platform_admin.notice.archive_failed",
            ReviewNotice::EmbeddingQueued => "platform_admin.notice.embedding_queued",
            ReviewNotice::EmbeddingFailed => "platform_admin.notice.embedding_failed",
            ReviewNotice::Published => "platform_admin.notice.published",
            ReviewNotice::PublishFailed => "platform_admin.notice.publish_failed",
        }
    }
}

pub open spec fn opt_view(o: Option<String>) -> Option<Seq<char>> {
    match o {
        Some(s) => Some(s@),
        None => None,
    }
}

fn copy_opt(o: &Option<String>) -> (res: Option<String>)
    ensures
        res == *o,
{
    match o {
        Some(s) => Some(s.clone()),
        None => None,
    }
}

/// The OCR editor of one asset: the verified text it was opened with (if
/// any), the source revision a save is pinned to, and its load state.
pub struct OcrEditorState {
    pub asset_id: String,
    pub title: String,
    pub revision: Option<String>,
    pub original_text: String,
    pub original_provider: String,
    pub verified_at: Option<String>,
    pub verified_by: Option<String>,
    pub text_sha256: Option<String>,
    pub source_file_id: Option<String>,
    pub source_sha256: Option<String>,
    pub loading: bool,
    pub error: Option<OcrError>,
}

/// The OCR editor as plain values.
pub struct OcrEditorView {
    pub asset_id: Seq<char>,
    pub title: Seq<char>,
    pub revision: Option<Seq<char>>,
    pub original_text: Seq<char>,
    pub original_provider: Seq<char>,
    pub verified_at: Option<Seq<char>>,
    pub verified_by: Option<Seq<char>>,
    pub text_sha256: Option<Seq<char>>,
    pub source_file_id: Option<Seq<char>>,
    pub source_sha256: Option<Seq<char>>,
    pub loading: bool,
    pub error: Option<OcrError>,
}

impl View for OcrEditorState {
    type V = OcrEditorView;

    open spec fn view(&self) -> OcrEditorView {
        OcrEditorView {
            asset_id: self.asset_id@,
            title: self.title@,
            revision: opt_view(self.revision),
            original_text: self.original_text@,
            original_provider: self.original_provider@,
            verified_at: opt_view(self.verified_at),
            verified_by: opt_view(self.verified_by),
            text_sha256: opt_view(self.text_sha256),
            source_file_id: opt_view(self.source_file_id),
            source_sha256: opt_view(self.source_sha256),
            loading: self.loading,
            error: self.error,
        }
    }
}

/// An editor for `asset_id` whose texts are still being fetched.
pub open spec fn loading_editor(asset_id: Seq<char>, title: Seq<char>) -> OcrEditorView {
    OcrEditorView {
        asset_id,
        title,
        revision: None,
        original_text: Seq::<char>::empty(),
        original_provider: Seq::<char>::empty(),
        verified_at: None,
        verified_by: None,
        text_sha256: None,
        source_file_id: None,
        source_sha256: None,
        loading: true,
        error: None,
    }
}

/// The edited text or provider differs from what the editor opened with.
pub open spec fn editor_dirty(e: OcrEditorView, text: Seq<char>, provider: Seq<char>) -> bool {
    e.original_text != text || e.original_provider != provider
}

impl OcrEditorState {
    /// An editor for `asset_id` whose texts are still being fetched.
    pub fn loading(asset_id: String, title: String) -> (res: Self)
        ensures
            res@ == loading_editor(asset_id@, title@),
    {
        OcrEditorState {
            asset_id,
            title,
            revision: None,
            original_text: String::new(),
            original_provider: String::new(),
            verified_at: None,
            verified_by: None,
            text_sha256: None,
            source_file_id: None,
            source_sha256: None,
            loading: true,
            error: None,
        }
    }

    /// Whether the edited text or provider differs from the original.
    pub fn is_dirty(&self, text: &str, provider: &str) -> (res: bool)
        ensures
            res == editor_dirty(self@, text@, provider@),
    {
        !same_text(self.original_text.as_str(), text) || !same_text(self.original_provider.as_str(), provider)
    }

    /// A copy of the editor.
    pub fn duplicate(&self) -> (res: Self)
        ensures
            res == *self,
    {
        OcrEditorState {
            asset_id: self.asset_id.clone(),
            title: self.title.clone(),
            revision: copy_opt(&self.revision),
            original_text: self.original_text.clone(),
            original_provider: self.original_provider.clone(),
            verified_at: copy_opt(&self.verified_at),
            verified_by: copy_opt(&self.verified_by),
            text_sha256: copy_opt(&self.text_sha256),
            source_file_id: copy_opt(&self.source_file_id),
            source_sha256: copy_opt(&self.source_sha256),
            loading: self.loading,
            error: self.error,
        }
    }
}


/// The asset an archive confirmation is about: id, title, status.
pub struct ArchiveTarget {
    pub asset_id: String,
    pub title: String,
    pub status: String,
}

impl View for ArchiveTarget {
    type V = (Seq<char>, Seq<char>, Seq<char>);

    open spec fn view(&self) -> (Seq<char>, Seq<char>, Seq<char>) {
        (self.asset_id@, self.title@, self.status@)
    }
}

impl ArchiveTarget {
    pub fn duplicate(&self) -> (res: Self)
        ensures
            res@ == self@,
    {
        ArchiveTarget { asset_id: self.asset_id.clone(), title: self.title.clone(), status: self.status.clone() }
    }
}

/// The review section: the open OCR editor with its edited text and
/// provider, the pending step behind the discard confirmation, the archive
/// confirmation, whether a request is in flight, and the notice line.
pub struct ReviewState {
    pub editor: Option<OcrEditorState>,
    pub ocr_text: String,
    pub provider: String,
    /// The asset (id, title) to open once the discard is confirmed.
    pub pending_ocr_asset: Option<(String, String)>,
    /// The archive to confirm once the discard is confirmed.
    pub pending_archive: Option<ArchiveTarget>,
    pub discard_confirmation: bool,
    pub archive_confirmation: Option<ArchiveTarget>,
    pub busy: bool,
    pub notice: Option<ReviewNotice>,
}

/// The review section as plain values.
pub struct ReviewView {
    pub editor: Option<OcrEditorView>,
    pub ocr_text: Seq<char>,
    pub provider: Seq<char>,
    pub pending_ocr_asset: Option<(Seq<char>, Seq<char>)>,
    pub pending_archive: Option<(Seq<char>, Seq<char>, Seq<char>)>,
    pub discard_confirmation: bool,
    pub archive_confirmation: Option<(Seq<char>, Seq<char>, Seq<char>)>,
    pub busy: bool,
    pub notice: Option<ReviewNotice>,
}

pub open spec fn editor_view(e: Option<OcrEditorState>) -> Option<OcrEditorView> {
    match e {
        Some(x) => Some(x@),
        None => None,
    }
}

pub open spec fn pair_view(p: Option<(String, String)>) -> Option<(Seq<char>, Seq<char>)> {
    match p {
        Some((a, b)) => Some((a@, b@)),
        None => None,
    }
}

pub open spec fn target_view(t: Option<ArchiveTarget>) -> Option<(Seq<char>, Seq<char>, Seq<char>)> {
    match t {
        Some(x) => Some(x@),
        None => None,
    }
}

impl View for ReviewState {
    type V = ReviewView;

    open spec fn view(&self) -> ReviewView {
        ReviewView {
            editor: editor_view(self.editor),
            ocr_text: self.ocr_text@,
            provider: self.provider@,
            pending_ocr_asset: pair_view(self.pending_ocr_asset),
            pending_archive: target_view(self.pending_archive),
            discard_confirmation: self.discard_confirmation,
            archive_confirmation: target_view(self.archive_confirmation),
            busy: self.busy,
            notice: self.notice,
        }
    }
}

/// The open editor has unsaved changes.
pub open spec fn review_dirty(v: ReviewView) -> bool {
    match v.editor {
        Some(e) => editor_dirty(e, v.ocr_text, v.provider),
        None => false,
    }
}

/// Opening the editor for an asset: a fresh loading editor, empty text and
/// the manual provider.
pub open spec fn open_editor_model(v: ReviewView, asset_id: Seq<char>, title: Seq<char>) -> ReviewView {
    ReviewView {
        editor: Some(loading_editor(asset_id, title)),
        ocr_text: Seq::<char>::empty(),
        provider: manual_provider(),
        ..v
    }
}

/// "Attach/Update OCR" on a card (disabled while busy): with unsaved edits
/// open, ask to discard them first; otherwise open the editor and fetch.
/// The second component is the asset whose texts to fetch.
pub open spec fn request_editor_model(v: ReviewView, asset_id: Seq<char>, title: Seq<char>) -> (ReviewView, Option<Seq<char>>) {
    if v.busy {
        (v, None)
    } else if review_dirty(v) {
        (ReviewView { pending_ocr_asset: Some((asset_id, title)), discard_confirmation: true, ..v }, None)
    } else {
        (open_editor_model(v, asset_id, title), Some(asset_id))
    }
}

/// Closing the editor (dialog close or "Cancel", disabled while busy):
/// with unsaved edits, ask to discard; otherwise close it and clear the text.
pub open spec fn request_close_model(v: ReviewView) -> ReviewView {
    if v.busy {
        v
    } else if review_dirty(v) {
        ReviewView { pending_ocr_asset: None, discard_confirmation: true, ..v }
    } else {
        ReviewView { editor: None, ocr_text: Seq::<char>::empty(), ..v }
    }
}

/// The current source revision of an asset, as the server reports it.
pub struct SourceRevision {
    pub asset_id: String,
    pub source_file_id: String,
    pub source_sha256: String,
}

/// The verified OCR text of an asset, as the server reports it.
pub struct VerifiedOcr {
    pub raw_text: String,
    pub ocr_provider: String,
    pub revision: String,
    pub verified_at: String,
    pub verified_by: String,
    pub text_sha256: Option<String>,
}

/// The fetched texts arriving for `asset_id`: ignored unless that asset's
/// editor is still the open one; a missing or foreign source revision is a
/// source error; then the verified text (if any) fills the editor, or a
/// read error is shown beside the source revision.
pub open spec fn loaded_model(
    v: ReviewView,
    asset_id: Seq<char>,
    source: Option<(Seq<char>, Seq<char>, Seq<char>)>,
    ocr: Result<Option<(Seq<char>, Seq<char>, Seq<char>, Seq<char>, Seq<char>, Option<Seq<char>>)>, ()>,
) -> ReviewView {
    match v.editor {
        None => v,
        Some(cur) => if cur.asset_id != asset_id {
            v
        } else {
            match source {
                None => ReviewView { editor: Some(OcrEditorView { loading: false, error: Some(OcrError::SourceLoad), ..cur }), ..v },
                Some((src_asset, file_id, sha)) => if src_asset != asset_id {
                    ReviewView { editor: Some(OcrEditorView { loading: false, error: Some(OcrError::SourceLoad), ..cur }), ..v }
                } else {
                    match ocr {
                        Ok(Some((text, provider, revision, verified_at, verified_by, text_sha))) => ReviewView {
                            ocr_text: text,
                            provider,
                            editor: Some(OcrEditorView {
                                asset_id,
                                title: cur.title,
                                revision: Some(revision),
                                original_text: text,
                                original_provider: provider,
                                verified_at: Some(verified_at),
                                verified_by: Some(verified_by),
                                text_sha256: text_sha,
                                source_file_id: Some(file_id),
                                source_sha256: Some(sha),
                                loading: false,
                                error: None,
                            }),
                            ..v
                        },
                        Ok(None) => ReviewView {
                            editor: Some(OcrEditorView {
                                original_provider: manual_provider(),
                                source_file_id: Some(file_id),
                                source_sha256: Some(sha),
                                loading: false,
                                ..cur
                            }),
                            ..v
                        },
                        Err(_) => ReviewView {
                            editor: Some(OcrEditorView {
                                source_file_id: Some(file_id),
                                source_sha256: Some(sha),
                                loading: false,
                                error: Some(OcrError::Load),
                                ..cur
                            }),
                            ..v
                        },
                    }
                }
            }
        }
    }
}


/// A verified-OCR save as sent to the server, pinned to the source
/// revision and to the OCR revision the editor opened with.
pub struct SaveOcrRequest {
    pub asset_id: String,
    pub raw_text: String,
    pub ocr_provider: String,
    pub expected_source_file_id: String,
    pub expected_source_sha256: String,
    pub expected_revision: Option<String>,
}

pub struct SaveOcrRequestView {
    pub asset_id: Seq<char>,
    pub raw_text: Seq<char>,
    pub ocr_provider: Seq<char>,
    pub expected_source_file_id: Seq<char>,
    pub expected_source_sha256: Seq<char>,
    pub expected_revision: Option<Seq<char>>,
}

impl View for SaveOcrRequest {
    type V = SaveOcrRequestView;

    open spec fn view(&self) -> SaveOcrRequestView {
        SaveOcrRequestView {
            asset_id: self.asset_id@,
            raw_text: self.raw_text@,
            ocr_provider: self.ocr_provider@,
            expected_source_file_id: self.expected_source_file_id@,
            expected_source_sha256: self.expected_source_sha256@,
            expected_revision: opt_view(self.expected_revision),
        }
    }
}

/// Submitting the OCR form: nothing while busy, loading or with blank text
/// or provider; an error when no source revision is known; else the save
/// goes out (text as typed, provider trimmed) and the section is busy.
pub open spec fn submit_model(v: ReviewView) -> (ReviewView, Option<SaveOcrRequestView>) {
    match v.editor {
        None => (v, None),
        Some(e) => if v.busy || e.loading {
            (v, None)
        } else if trimmed(v.ocr_text).len() == 0 || trimmed(v.provider).len() == 0 {
            (v, None)
        } else {
            match (e.source_file_id, e.source_sha256) {
                (Some(file_id), Some(sha)) => (
                    ReviewView { busy: true, ..v },
                    Some(SaveOcrRequestView {
                        asset_id: e.asset_id,
                        raw_text: v.ocr_text,
                        ocr_provider: trimmed(v.provider),
                        expected_source_file_id: file_id,
                        expected_source_sha256: sha,
                        expected_revision: e.revision,
                    }),
                ),
                _ => (ReviewView { editor: Some(OcrEditorView { error: Some(OcrError::SourceRevisionUnavailable), ..e }), ..v }, None),
            }
        },
    }
}

/// The server's answer to a save: success closes the editor and reports;
/// a refusal keeps the editor open with a conflict error.
pub open spec fn save_finished_model(v: ReviewView, ok: bool) -> ReviewView {
    if ok {
        ReviewView { editor: None, ocr_text: Seq::<char>::empty(), notice: Some(ReviewNotice::OcrSaved), busy: false, ..v }
    } else {
        ReviewView {
            editor: match v.editor {
                Some(e) => Some(OcrEditorView { error: Some(OcrError::SaveConflict), ..e }),
                None => None,
            },
            busy: false,
            ..v
        }
    }
}

/// "Keep editing" in the discard confirmation.
pub open spec fn discard_cancel_model(v: ReviewView) -> ReviewView {
    ReviewView { pending_ocr_asset: None, pending_archive: None, discard_confirmation: false, ..v }
}

/// "Discard" in the discard confirmation: the editor closes and its texts
/// reset; then the pending archive is put up for confirmation, or else the
/// pending asset's editor opens (the second component is the asset to fetch).
pub open spec fn discard_confirm_model(v: ReviewView) -> (ReviewView, Option<Seq<char>>) {
    if !v.discard_confirmation {
        (v, None)
    } else {
        let base = ReviewView {
            editor: None,
            ocr_text: Seq::<char>::empty(),
            provider: manual_provider(),
            pending_ocr_asset: None,
            pending_archive: None,
            discard_confirmation: false,
            ..v
        };
        match v.pending_archive {
            Some(a) => (ReviewView { archive_confirmation: Some(a), ..base }, None),
            None => match v.pending_ocr_asset {
                Some((id, title)) => (open_editor_model(base, id, title), Some(id)),
                None => (base, None),
            },
        }
    }
}

/// "Archive" on a card (disabled while busy): when that asset's editor has
/// unsaved edits, ask to discard them first; otherwise ask to confirm.
pub open spec fn request_archive_model(v: ReviewView, target: (Seq<char>, Seq<char>, Seq<char>)) -> ReviewView {
    if v.busy {
        v
    } else if v.editor matches Some(e) && e.asset_id == target.0 && review_dirty(v) {
        ReviewView { pending_ocr_asset: None, pending_archive: Some(target), discard_confirmation: true, ..v }
    } else {
        ReviewView { archive_confirmation: Some(target), ..v }
    }
}

/// The asset the archive confirmation is about; empty when none is.
pub open spec fn confirmed_archive_id(v: ReviewView) -> Seq<char> {
    match v.archive_confirmation {
        Some(t) => t.0,
        None => Seq::<char>::empty(),
    }
}

/// "Archive" in the confirmation: nothing without an asset; else the
/// archive goes out and the section reports it as under way.
pub open spec fn archive_confirm_model(v: ReviewView) -> (ReviewView, Option<Seq<char>>) {
    if confirmed_archive_id(v).len() == 0 {
        (v, None)
    } else {
        (ReviewView { busy: true, notice: Some(ReviewNotice::Archiving), ..v }, Some(confirmed_archive_id(v)))
    }
}

/// The server's answer to archiving `asset_id`: success closes the
/// confirmation and that asset's editor; failure only reports.
pub open spec fn archive_finished_model(v: ReviewView, asset_id: Seq<char>, ok: bool) -> ReviewView {
    if ok {
        let closed = if v.editor matches Some(e) && e.asset_id == asset_id {
            ReviewView { editor: None, ocr_text: Seq::<char>::empty(), ..v }
        } else {
            v
        };
        ReviewView { archive_confirmation: None, notice: Some(ReviewNotice::Archived), busy: false, ..closed }
    } else {
        ReviewView { notice: Some(ReviewNotice::ArchiveFailed), busy: false, ..v }
    }
}

/// Starting an embed or publish (buttons disabled while busy).
pub open spec fn start_action_model(v: ReviewView) -> ReviewView {
    if v.busy {
        v
    } else {
        ReviewView { busy: true, notice: None, ..v }
    }
}

/// Which lifecycle request finished.
#[derive(PartialEq, Eq, Structural, Clone, Copy, Debug)]
pub enum LifecycleAction {
    Embed,
    Publish,
}

pub open spec fn action_finished_model(v: ReviewView, action: LifecycleAction, ok: bool) -> ReviewView {
    ReviewView {
        notice: Some(match (action, ok) {
            (LifecycleAction::Embed, true) => ReviewNotice::EmbeddingQueued,
            (LifecycleAction::Embed, false) => ReviewNotice::EmbeddingFailed,
            (LifecycleAction::Publish, true) => ReviewNotice::Published,
            (LifecycleAction::Publish, false) => ReviewNotice::PublishFailed,
        }),
        busy: false,
        ..v
    }
}

/// Typing into the text or provider input (disabled while busy).
pub open spec fn edit_model(v: ReviewView, text: Option<Seq<char>>, provider: Option<Seq<char>>) -> ReviewView {
    if v.busy {
        v
    } else {
        ReviewView {
            ocr_text: match text {
                Some(t) => t,
                None => v.ocr_text,
            },
            provider: match provider {
                Some(p) => p,
                None => v.provider,
            },
            ..v
        }
    }
}


impl ReviewState {
    /// The section with no editor, no confirmation and no notice.
    pub fn new() -> (res: Self)
        ensures
            res@.editor.is_none(),
            res@.ocr_text.len() == 0,
            res@.provider == manual_provider(),
            res@.pending_ocr_asset.is_none(),
            res@.pending_archive.is_none(),
            !res@.discard_confirmation,
            res@.archive_confirmation.is_none(),
            !res@.busy,
            res@.notice.is_none(),
    {
        ReviewState {
            editor: None,
            ocr_text: String::new(),
            provider: manual_provider_text(),
            pending_ocr_asset: None,
            pending_archive: None,
            discard_confirmation: false,
            archive_confirmation: None,
            busy: false,
            notice: None,
        }
    }

    /// Whether the open editor has unsaved changes.
    pub fn is_dirty(&self) -> (res: bool)
        ensures
            res == review_dirty(self@),
    {
        match &self.editor {
            Some(e) => e.is_dirty(self.ocr_text.as_str(), self.provider.as_str()),
            None => false,
        }
    }

    fn open_editor(&mut self, asset_id: String, title: String)
        ensures
            final(self)@ == open_editor_model(old(self)@, asset_id@, title@),
    {
        self.editor = Some(OcrEditorState::loading(asset_id, title));
        self.ocr_text = String::new();
        self.provider = manual_provider_text();
    }

    /// "Attach/Update OCR" pressed on the card of `asset_id`. Returns the
    /// asset whose source revision and verified text are to be fetched.
    pub fn request_ocr_editor(&mut self, asset_id: &str, title: &str) -> (res: Option<String>)
        ensures
            final(self)@ == request_editor_model(old(self)@, asset_id@, title@).0,
            opt_view(res) == request_editor_model(old(self)@, asset_id@, title@).1,
    {
        if self.busy {
            return None;
        }
        if self.is_dirty() {
            self.pending_ocr_asset = Some((asset_id.to_owned(), title.to_owned()));
            self.discard_confirmation = true;
            None
        } else {
            self.open_editor(asset_id.to_owned(), title.to_owned());
            Some(asset_id.to_owned())
        }
    }

    /// The dialog's close or "Cancel".
    pub fn request_close(&mut self)
        ensures
            final(self)@ == request_close_model(old(self)@),
    {
        if self.busy {
            return;
        }
        if self.is_dirty() {
            self.pending_ocr_asset = None;
            self.discard_confirmation = true;
        } else {
            self.editor = None;
            self.ocr_text = String::new();
        }
    }

    /// Typing into the OCR text.
    pub fn edit_text(&mut self, text: String)
        ensures
            final(self)@ == edit_model(old(self)@, Some(text@), None),
    {
        if !self.busy {
            self.ocr_text = text;
        }
    }

    /// Typing into the provider.
    pub fn edit_provider(&mut self, provider: String)
        ensures
            final(self)@ == edit_model(old(self)@, None, Some(provider@)),
    {
        if !self.busy {
            self.provider = provider;
        }
    }

    /// The fetched source revision (`None` when it could not be read) and
    /// verified text (`Err` when it could not be read) for `asset_id`.
    pub fn editor_loaded(&mut self, asset_id: &str, source: Option<SourceRevision>, ocr: Result<Option<VerifiedOcr>, ()>)
        ensures
            final(self)@ == loaded_model(
                old(self)@,
                asset_id@,
                match source {
                    Some(s) => Some((s.asset_id@, s.source_file_id@, s.source_sha256@)),
                    None => None,
                },
                match ocr {
                    Ok(Some(o)) => Ok(Some((o.raw_text@, o.ocr_provider@, o.revision@, o.verified_at@, o.verified_by@, opt_view(o.text_sha256)))),
                    Ok(None) => Ok(None),
                    Err(_) => Err(()),
                },
            ),
    {
        let cur = match &self.editor {
            Some(e) => e.duplicate(),
            None => return,
        };
        if !same_text(cur.asset_id.as_str(), asset_id) {
            return;
        }
        let src = match source {
            Some(s) => s,
            None => {
                self.editor = Some(OcrEditorState { loading: false, error: Some(OcrError::SourceLoad), ..cur });
                return;
            },
        };
        if !same_text(src.asset_id.as_str(), asset_id) {
            self.editor = Some(OcrEditorState { loading: false, error: Some(OcrError::SourceLoad), ..cur });
            return;
        }
        match ocr {
            Ok(Some(o)) => {
                self.ocr_text = o.raw_text.clone();
                self.provider = o.ocr_provider.clone();
                self.editor = Some(OcrEditorState {
                    asset_id: asset_id.to_owned(),
                    title: cur.title,
                    revision: Some(o.revision),
                    original_text: o.raw_text,
                    original_provider: o.ocr_provider,
                    verified_at: Some(o.verified_at),
                    verified_by: Some(o.verified_by),
                    text_sha256: o.text_sha256,
                    source_file_id: Some(src.source_file_id),
                    source_sha256: Some(src.source_sha256),
                    loading: false,
                    error: None,
                });
            },
            Ok(None) => {
                self.editor = Some(OcrEditorState {
                    original_provider: manual_provider_text(),
                    source_file_id: Some(src.source_file_id),
                    source_sha256: Some(src.source_sha256),
                    loading: false,
                    ..cur
                });
            },
            Err(_) => {
                self.editor = Some(OcrEditorState {
                    source_file_id: Some(src.source_file_id),
                    source_sha256: Some(src.source_sha256),
                    loading: false,
                    error: Some(OcrError::Load),
                    ..cur
                });
            },
        }
    }

    /// Submitting the OCR form. Returns the save to send, if any.
    pub fn submit_ocr(&mut self) -> (res: Option<SaveOcrRequest>)
        ensures
            final(self)@ == submit_model(old(self)@).0,
            match res {
                Some(r) => submit_model(old(self)@).1 == Some(r@),
                None => submit_model(old(self)@).1.is_none(),
            },
    {
        let e = match &self.editor {
            Some(e) => e.duplicate(),
            None => return None,
        };
        if self.busy || e.loading {
            return None;
        }
        let provider = trim(self.provider.as_str());
        if trim(self.ocr_text.as_str()).is_empty() || provider.is_empty() {
            return None;
        }
        let file_id = match &e.source_file_id {
            Some(f) => f.clone(),
            None => {
                self.editor = Some(OcrEditorState { error: Some(OcrError::SourceRevisionUnavailable), ..e });
                return None;
            },
        };
        let sha = match &e.source_sha256 {
            Some(h) => h.clone(),
            None => {
                self.editor = Some(OcrEditorState { error: Some(OcrError::SourceRevisionUnavailable), ..e });
                return None;
            },
        };
        self.busy = true;
        Some(SaveOcrRequest {
            asset_id: e.asset_id.clone(),
            raw_text: self.ocr_text.clone(),
            ocr_provider: provider.to_owned(),
            expected_source_file_id: file_id,
            expected_source_sha256: sha,
            expected_revision: copy_opt(&e.revision),
        })
    }

    /// The server's answer to the OCR save. Returns whether the asset list
    /// is to be reloaded.
    pub fn ocr_save_finished(&mut self, ok: bool) -> (reload: bool)
        ensures
            final(self)@ == save_finished_model(old(self)@, ok),
            reload == ok,
    {
        if ok {
            self.editor = None;
            self.ocr_text = String::new();
            self.notice = Some(ReviewNotice::OcrSaved);
        } else {
            let next = match &self.editor {
                Some(e) => Some(OcrEditorState { error: Some(OcrError::SaveConflict), ..e.duplicate() }),
                None => None,
            };
            self.editor = next;
        }
        self.busy = false;
        ok
    }

    /// "Keep editing" in the discard confirmation.
    pub fn discard_cancelled(&mut self)
        ensures
            final(self)@ == discard_cancel_model(old(self)@),
    {
        self.pending_ocr_asset = None;
        self.pending_archive = None;
        self.discard_confirmation = false;
    }

    /// "Discard" in the discard confirmation. Returns the asset whose texts
    /// are to be fetched, when an editor opens.
    pub fn discard_confirmed(&mut self) -> (res: Option<String>)
        ensures
            final(self)@ == discard_confirm_model(old(self)@).0,
            opt_view(res) == discard_confirm_model(old(self)@).1,
    {
        if !self.discard_confirmation {
            return None;
        }
        let next = self.pending_ocr_asset.take();
        let archive = self.pending_archive.take();
        self.editor = None;
        self.ocr_text = String::new();
        self.provider = manual_provider_text();
        self.discard_confirmation = false;
        match archive {
            Some(a) => {
                self.archive_confirmation = Some(a);
                None
            },
            None => match next {
                Some((id, title)) => {
                    let fetch = id.clone();
                    self.open_editor(id, title);
                    Some(fetch)
                },
                None => None,
            },
        }
    }

    /// "Archive" pressed on a card.
    pub fn request_archive(&mut self, target: ArchiveTarget)
        ensures
            final(self)@ == request_archive_model(old(self)@, target@),
    {
        if self.busy {
            return;
        }
        let same_asset_dirty = match &self.editor {
            Some(e) => same_text(e.asset_id.as_str(), target.asset_id.as_str()) && self.is_dirty(),
            None => false,
        };
        if same_asset_dirty {
            self.pending_ocr_asset = None;
            self.pending_archive = Some(target);
            self.discard_confirmation = true;
        } else {
            self.archive_confirmation = Some(target);
        }
    }

    /// "Cancel" in the archive confirmation.
    pub fn archive_cancelled(&mut self)
        ensures
            final(self)@ == (ReviewView { archive_confirmation: None, ..old(self)@ }),
    {
        self.archive_confirmation = None;
    }

    /// "Archive" in the confirmation. Returns the asset to archive.
    pub fn archive_confirmed(&mut self) -> (res: Option<String>)
        ensures
            final(self)@ == archive_confirm_model(old(self)@).0,
            opt_view(res) == archive_confirm_model(old(self)@).1,
    {
        let id = match &self.archive_confirmation {
            Some(t) => t.asset_id.clone(),
            None => String::new(),
        };
        if id.as_str().is_empty() {
            return None;
        }
        self.busy = true;
        self.notice = Some(ReviewNotice::Archiving);
        Some(id)
    }

    /// The server's answer to archiving `asset_id`. Returns whether the
    /// asset list is to be reloaded.
    pub fn archive_finished(&mut self, asset_id: &str, ok: bool) -> (reload: bool)
        ensures
            final(self)@ == archive_finished_model(old(self)@, asset_id@, ok),
            reload == ok,
    {
        if ok {
            self.archive_confirmation = None;
            let same = match &self.editor {
                Some(e) => same_text(e.asset_id.as_str(), asset_id),
                None => false,
            };
            if same {
                self.editor = None;
                self.ocr_text = String::new();
            }
            self.notice = Some(ReviewNotice::Archived);
        } else {
            self.notice = Some(ReviewNotice::ArchiveFailed);
        }
        self.busy = false;
        ok
    }

    /// An embed or publish button pressed. Returns whether the request goes
    /// out.
    pub fn start_action(&mut self) -> (started: bool)
        ensures
            final(self)@ == start_action_model(old(self)@),
            started == !old(self).busy,
    {
        if self.busy {
            return false;
        }
        self.busy = true;
        self.notice = None;
        true
    }

    /// The server's answer to an embed or publish. Returns whether the
    /// asset list is to be reloaded.
    pub fn action_finished(&mut self, action: LifecycleAction, ok: bool) -> (reload: bool)
        ensures
            final(self)@ == action_finished_model(old(self)@, action, ok),
            reload == ok,
    {
        self.notice = Some(match (action, ok) {
            (LifecycleAction::Embed, true) => ReviewNotice::EmbeddingQueued,
            (LifecycleAction::Embed, false) => ReviewNotice::EmbeddingFailed,
            (LifecycleAction::Publish, true) => ReviewNotice::Published,
            (LifecycleAction::Publish, false) => ReviewNotice::PublishFailed,
        });
        self.busy = false;
        ok
    }
}


/// The review section's inputs, as the page delivers them.
pub enum ReviewEvent {
    RequestEditor(Seq<char>, Seq<char>),
    Loaded(
        Seq<char>,
        Option<(Seq<char>, Seq<char>, Seq<char>)>,
        Result<Option<(Seq<char>, Seq<char>, Seq<char>, Seq<char>, Seq<char>, Option<Seq<char>>)>, ()>,
    ),
    RequestClose,
    EditText(Seq<char>),
    EditProvider(Seq<char>),
    Submit,
    SaveFinished(bool),
    DiscardCancelled,
    DiscardConfirmed,
    RequestArchive((Seq<char>, Seq<char>, Seq<char>)),
    ArchiveCancelled,
    ArchiveConfirmed,
    ArchiveFinished(Seq<char>, bool),
    StartAction,
    ActionFinished(LifecycleAction, bool),
}

/// The review section after one input.
pub open spec fn review_step(v: ReviewView, ev: ReviewEvent) -> ReviewView {
    match ev {
        ReviewEvent::RequestEditor(id, title) => request_editor_model(v, id, title).0,
        ReviewEvent::Loaded(id, source, ocr) => loaded_model(v, id, source, ocr),
        ReviewEvent::RequestClose => request_close_model(v),
        ReviewEvent::EditText(t) => edit_model(v, Some(t), None),
        ReviewEvent::EditProvider(p) => edit_model(v, None, Some(p)),
        ReviewEvent::Submit => submit_model(v).0,
        ReviewEvent::SaveFinished(ok) => save_finished_model(v, ok),
        ReviewEvent::DiscardCancelled => discard_cancel_model(v),
        ReviewEvent::DiscardConfirmed => discard_confirm_model(v).0,
        ReviewEvent::RequestArchive(t) => request_archive_model(v, t),
        ReviewEvent::ArchiveCancelled => ReviewView { archive_confirmation: None, ..v },
        ReviewEvent::ArchiveConfirmed => archive_confirm_model(v).0,
        ReviewEvent::ArchiveFinished(id, ok) => archive_finished_model(v, id, ok),
        ReviewEvent::StartAction => start_action_model(v),
        ReviewEvent::ActionFinished(a, ok) => action_finished_model(v, a, ok),
    }
}

/// The inputs that may end an editor with unsaved edits: a confirmed
/// discard, a successful save, a successful archive of that asset.
pub open spec fn may_close_dirty_editor(v: ReviewView, ev: ReviewEvent) -> bool {
    match ev {
        ReviewEvent::DiscardConfirmed => v.discard_confirmation,
        ReviewEvent::SaveFinished(ok) => ok,
        ReviewEvent::ArchiveFinished(id, ok) => ok && (v.editor matches Some(e) && e.asset_id == id),
        _ => false,
    }
}

/// Unsaved OCR edits are never dropped silently: while the open editor's
/// text or provider differs from what it opened with, every input other
/// than a confirmed discard, a successful save, a successful archive of
/// that asset, or an arriving fetch, keeps the same asset's editor with
/// the same original texts, and keeps the edited text and provider except
/// where the input itself types into them; the edits stay unsaved.
pub proof fn lemma_unsaved_ocr_edits_survive(v: ReviewView, ev: ReviewEvent)
    requires
        review_dirty(v),
        !may_close_dirty_editor(v, ev),
        !(ev is Loaded),
    ensures
        ({
            let w = review_step(v, ev);
            &&& w.editor is Some
            &&& w.editor.unwrap().asset_id == v.editor.unwrap().asset_id
            &&& w.editor.unwrap().original_text == v.editor.unwrap().original_text
            &&& w.editor.unwrap().original_provider == v.editor.unwrap().original_provider
            &&& !(ev is EditText) ==> w.ocr_text == v.ocr_text
            &&& !(ev is EditProvider) ==> w.provider == v.provider
            &&& !(ev is EditText) && !(ev is EditProvider) ==> review_dirty(w)
        }),
{
}

/// An archive never goes straight to confirmation over unsaved edits of
/// that asset: the discard confirmation comes first, holding the archive.
/// And an archive request goes out only for the asset the confirmation
/// names.
pub proof fn lemma_archive_respects_unsaved_edits(v: ReviewView, target: (Seq<char>, Seq<char>, Seq<char>))
    ensures
        (!v.busy && review_dirty(v) && (v.editor matches Some(e) && e.asset_id == target.0)) ==> {
            let w = request_archive_model(v, target);
            &&& w.archive_confirmation == v.archive_confirmation
            &&& w.discard_confirmation
            &&& w.pending_archive == Some(target)
            &&& w.editor == v.editor
        },
        archive_confirm_model(v).1 matches Some(id) ==> v.archive_confirmation matches Some(t) && t.0 == id
            && id.len() > 0,
{
}

/// A verified-OCR save goes out only from a loaded editor with non-blank
/// text and provider, pinned to the source revision and OCR revision the
/// editor read, and it marks the section busy.
pub proof fn lemma_ocr_save_is_pinned(v: ReviewView)
    requires
        submit_model(v).1 is Some,
    ensures
        ({
            let r = submit_model(v).1.unwrap();
            let e = v.editor.unwrap();
            &&& v.editor is Some && !e.loading && !v.busy
            &&& e.source_file_id == Some(r.expected_source_file_id)
            &&& e.source_sha256 == Some(r.expected_source_sha256)
            &&& r.expected_revision == e.revision
            &&& r.asset_id == e.asset_id
            &&& r.raw_text == v.ocr_text && trimmed(v.ocr_text).len() > 0
            &&& r.ocr_provider == trimmed(v.provider) && r.ocr_provider.len() > 0
            &&& submit_model(v).0.busy
        }),
{
}


/// How many low bits a double drops from the integer `b`: none below
/// 2^53, one more for each halving above.
pub open spec fn sig_shift(b: nat) -> nat
    decreases b,
{
    if b < 0x20000000000000 {
        0
    } else {
        1 + sig_shift(b / 2)
    }
}

/// `n / d` rounded to the nearest integer, ties to the even one.
pub open spec fn round_half_even_div(n: nat, d: nat) -> nat {
    let q = n / d;
    let r = n % d;
    if 2 * r > d || (2 * r == d && q % 2 == 1) {
        q + 1
    } else {
        q
    }
}

/// The double nearest to the integer `b` (ties to even), as `b as f64` gives.
pub open spec fn nearest_double(b: nat) -> nat {
    round_half_even_div(b, pow2(sig_shift(b))) * pow2(sig_shift(b))
}

/// Tenths of `unit` in the double nearest `bytes`, rounded as `{:.1}` does
/// (the exact value, ties to even).
pub open spec fn tenths_of(bytes: nat, unit: nat) -> nat {
    round_half_even_div(nearest_double(bytes) * 10, unit)
}

/// A count of tenths with one decimal: `12` is `1.2`.
pub open spec fn one_decimal(t: nat) -> Seq<char> {
    decimal(t / 10) + "."@ + seq![digit_char(t % 10)]
}

/// A byte count for people: bytes below 1 KiB, else KiB below 1 MiB, else
/// MiB, the last two with one decimal.
pub open spec fn file_size_text(bytes: nat) -> Seq<char> {
    if bytes >= 1048576 {
        one_decimal(tenths_of(bytes, 1048576)) + " MiB"@
    } else if bytes >= 1024 {
        one_decimal(tenths_of(bytes, 1024)) + " KiB"@
    } else {
        decimal(bytes) + " B"@
    }
}

fn nearest_double_exec(b: u64) -> (res: u128)
    ensures
        res == nearest_double(b as nat),
        res <= b + 4096,
{
    let mut v: u128 = b as u128;
    let mut u: u128 = 1;
    let ghost mut k: nat = 0;
    proof {
        vstd::arithmetic::power2::lemma_pow2(0);
        vstd::arithmetic::power::lemma_pow0(2);
    }
    while v >= 0x20000000000000
        invariant
            u == pow2(k),
            1 <= u <= 4096,
            v == (b as nat) / (u as nat),
            sig_shift(b as nat) == k + sig_shift(v as nat),
        decreases v,
    {
        proof {
            vstd::arithmetic::div_mod::lemma_div_denominator(b as int, u as int, 2);
            vstd::arithmetic::power2::lemma_pow2_unfold(k + 1);
            vstd::arithmetic::div_mod::lemma_fundamental_div_mod(b as int, u as int);
            assert(u * v <= b);
            assert(u < 2048) by (nonlinear_arith)
                requires
                    u * v <= b,
                    v >= 0x20000000000000,
                    b < 0x1_0000_0000_0000_0000,
            ;
        }
        v = v / 2;
        u = u * 2;
        proof {
            k = k + 1;
        }
    }
    proof {
        vstd::arithmetic::div_mod::lemma_fundamental_div_mod(b as int, u as int);
        assert(sig_shift(v as nat) == 0);
    }
    let prod: u128 = u * v;
    let r: u128 = (b as u128) - prod;
    assert(r == (b as nat) % (u as nat));
    let q: u128 = if 2 * r > u || (2 * r == u && v % 2 == 1) { v + 1 } else { v };
    proof {
        assert(u * (v + 1) <= b + u) by (nonlinear_arith)
            requires
                u * v + r == b,
                r < u,
                1 <= u,
        ;
        assert(q * u <= u * (v + 1)) by (nonlinear_arith)
            requires
                q <= v + 1,
                1 <= u,
        ;
    }
    q * u
}

fn round_half_even_div_exec(n: u128, d: u128) -> (res: u128)
    requires
        0 < d < 0x1_0000_0000_0000_0000_0000,
        n < 0x1_0000_0000_0000_0000_0000,
    ensures
        res == round_half_even_div(n as nat, d as nat),
        res <= n / d + 1,
{
    let q = n / d;
    let r = n % d;
    if 2 * r > d || (2 * r == d && q % 2 == 1) {
        q + 1
    } else {
        q
    }
}

fn push_one_decimal(s: &mut String, t: u128)
    requires
        t < 0x1_0000_0000_0000_0000,
    ensures
        final(s)@ == old(s)@ + one_decimal(t as nat),
{
    let whole: u64 = (t / 10) as u64;
    crate::text::push_decimal(s, whole);
    crate::text::push_char(s, '.');
    let d: u8 = (t % 10) as u8;
    let c = (48u8 + d) as char;
    assert(c == digit_char((t % 10) as nat));
    crate::text::push_char(s, c);
    proof {
        reveal_strlit(".");
    }
    assert(final(s)@ =~= old(s)@ + one_decimal(t as nat));
}

/// A byte count as people read it: `512 B`, `2.0 KiB`, `2.0 MiB`.
pub fn format_file_size(bytes: u64) -> (res: String)
    ensures
        res@ == file_size_text(bytes as nat),
{
    let mut s = String::new();
    if bytes >= 1048576 {
        let nd = nearest_double_exec(bytes);
        let t = round_half_even_div_exec(nd * 10, 1048576);
        assert(t < 0x1_0000_0000_0000_0000);
        push_one_decimal(&mut s, t);
        crate::text::push_str(&mut s, " MiB");
    } else if bytes >= 1024 {
        let nd = nearest_double_exec(bytes);
        let t = round_half_even_div_exec(nd * 10, 1024);
        assert(t < 0x1_0000_0000_0000_0000);
        push_one_decimal(&mut s, t);
        crate::text::push_str(&mut s, " KiB");
    } else {
        crate::text::push_decimal(&mut s, bytes);
        crate::text::push_str(&mut s, " B");
    }
    proof {
        reveal_strlit(" MiB");
        reveal_strlit(" KiB");
        reveal_strlit(" B");
        reveal_strlit(".");
    }
    assert(s@ =~= file_size_text(bytes as nat));
    s
}


/// The last eight characters of a technical reference, marked with `…`
/// when the reference is longer.
pub open spec fn short_reference_text(value: Seq<char>) -> Seq<char> {
    if value.len() > 8 {
        "…"@ + value.subrange(value.len() - 8, value.len() as int)
    } else {
        value
    }
}

/// A technical reference shortened for primary display.
pub fn short_reference(value: &str) -> (res: String)
    ensures
        res@ == short_reference_text(value@),
{
    let cs = crate::text::chars_of(value);
    if cs.len() > 8 {
        let mut s = "…".to_owned();
        let mut i: usize = cs.len() - 8;
        proof {
            reveal_strlit("…");
        }
        while i < cs.len()
            invariant
                cs@ == value@,
                cs.len() > 8,
                cs.len() - 8 <= i <= cs.len(),
                s@ == "…"@ + value@.subrange(cs.len() - 8, i as int),
            decreases cs.len() - i,
        {
            crate::text::push_char(&mut s, cs[i]);
            i = i + 1;
            assert(s@ =~= "…"@ + value@.subrange(cs.len() - 8, i as int));
        }
        s
    } else {
        value.to_owned()
    }
}

/// `a · b`.
pub open spec fn dot_joined(a: Seq<char>, b: Seq<char>) -> Seq<char> {
    a + " · "@ + b
}

fn dot_join(a: &str, b: &str) -> (res: String)
    ensures
        res@ == dot_joined(a@, b@),
{
    let mut s = a.to_owned();
    crate::text::push_str(&mut s, " · ");
    crate::text::push_str(&mut s, b);
    proof {
        reveal_strlit(" · ");
    }
    s
}

/// The source line of a review card: the original filename (or the
/// "metadata unavailable" label) and, when the size is known and not
/// negative, the readable size.
pub open spec fn source_description_text(filename: Option<Seq<char>>, size: Option<i64>, unavailable: Seq<char>) -> Seq<char> {
    let name = match filename {
        Some(f) => f,
        None => unavailable,
    };
    match size {
        Some(b) => if b >= 0 {
            dot_joined(name, file_size_text(b as nat))
        } else {
            name
        },
        None => name,
    }
}

/// The source line of a review card.
pub fn source_description(original_filename: &Option<String>, file_size_bytes: Option<i64>, unavailable_label: &str) -> (res: String)
    ensures
        res@ == source_description_text(opt_view(*original_filename), file_size_bytes, unavailable_label@),
{
    let name: &str = match original_filename {
        Some(f) => f.as_str(),
        None => unavailable_label,
    };
    match file_size_bytes {
        Some(b) => {
            if b >= 0 {
                let size = format_file_size(b as u64);
                dot_join(name, size.as_str())
            } else {
                name.to_owned()
            }
        },
        None => name.to_owned(),
    }
}

/// What the audit view knows of a reviewed asset.
pub struct ReviewAssetSummary {
    pub id: String,
    pub title: String,
    pub school_id: String,
    pub school_name: String,
}

/// The title of the first asset with this id.
pub open spec fn first_title_with_id(assets: Seq<ReviewAssetSummary>, id: Seq<char>) -> Option<Seq<char>>
    decreases assets.len(),
{
    if assets.len() == 0 {
        None
    } else if assets[0].id@ == id {
        Some(assets[0].title@)
    } else {
        first_title_with_id(assets.drop_first(), id)
    }
}

/// The school name of the first asset of this school.
pub open spec fn first_school_name(assets: Seq<ReviewAssetSummary>, school_id: Seq<char>) -> Option<Seq<char>>
    decreases assets.len(),
{
    if assets.len() == 0 {
        None
    } else if assets[0].school_id@ == school_id {
        Some(assets[0].school_name@)
    } else {
        first_school_name(assets.drop_first(), school_id)
    }
}

fn find_title(assets: &Vec<ReviewAssetSummary>, id: &str) -> (res: Option<String>)
    ensures
        opt_view(res) == first_title_with_id(assets@, id@),
{
    let mut i: usize = 0;
    assert(assets@.skip(0) =~= assets@);
    while i < assets.len()
        invariant
            i <= assets.len(),
            first_title_with_id(assets@, id@) == first_title_with_id(assets@.skip(i as int), id@),
        decreases assets.len() - i,
    {
        assert(assets@.skip(i as int).drop_first() =~= assets@.skip(i + 1));
        if same_text(assets[i].id.as_str(), id) {
            return Some(assets[i].title.clone());
        }
        i = i + 1;
    }
    None
}

fn find_school(assets: &Vec<ReviewAssetSummary>, school_id: &str) -> (res: Option<String>)
    ensures
        opt_view(res) == first_school_name(assets@, school_id@),
{
    let mut i: usize = 0;
    assert(assets@.skip(0) =~= assets@);
    while i < assets.len()
        invariant
            i <= assets.len(),
            first_school_name(assets@, school_id@) == first_school_name(assets@.skip(i as int), school_id@),
        decreases assets.len() - i,
    {
        assert(assets@.skip(i as int).drop_first() =~= assets@.skip(i + 1));
        if same_text(assets[i].school_id.as_str(), school_id) {
            return Some(assets[i].school_name.clone());
        }
        i = i + 1;
    }
    None
}

/// The target of an audit entry: the asset's title when the asset is
/// known, else its type label and short reference.
pub open spec fn audit_target_text(target_id: Seq<char>, target_type_label: Seq<char>, assets: Option<Seq<ReviewAssetSummary>>) -> Seq<char> {
    let found = match assets {
        Some(a) => first_title_with_id(a, target_id),
        None => None,
    };
    match found {
        Some(t) => t,
        None => dot_joined(target_type_label, short_reference_text(target_id)),
    }
}

/// The target of an audit entry, for people.
pub fn audit_target_label(target_id: &str, target_type_label: &str, assets: Option<&Vec<ReviewAssetSummary>>) -> (res: String)
    ensures
        res@ == audit_target_text(
            target_id@,
            target_type_label@,
            match assets {
                Some(a) => Some(a@),
                None => None,
            },
        ),
{
    let found = match assets {
        Some(a) => find_title(a, target_id),
        None => None,
    };
    match found {
        Some(t) => t,
        None => {
            let r = short_reference(target_id);
            dot_join(target_type_label, r.as_str())
        },
    }
}

/// The school of an audit entry: the "none" label without one, the school
/// name when one of its assets is known, else the school label and its
/// short reference.
pub open spec fn audit_school_text(
    school_id: Option<Seq<char>>,
    assets: Option<Seq<ReviewAssetSummary>>,
    none_label: Seq<char>,
    school_label: Seq<char>,
) -> Seq<char> {
    match school_id {
        None => none_label,
        Some(id) => {
            let found = match assets {
                Some(a) => first_school_name(a, id),
                None => None,
            };
            match found {
                Some(n) => n,
                None => dot_joined(school_label, short_reference_text(id)),
            }
        },
    }
}

/// The school of an audit entry, for people.
pub fn audit_school_label(
    school_id: &Option<String>,
    assets: Option<&Vec<ReviewAssetSummary>>,
    none_label: &str,
    school_label: &str,
) -> (res: String)
    ensures
        res@ == audit_school_text(
            opt_view(*school_id),
            match assets {
                Some(a) => Some(a@),
                None => None,
            },
            none_label@,
            school_label@,
        ),
{
    let id = match school_id {
        Some(i) => i,
        None => return none_label.to_owned(),
    };
    let found = match assets {
        Some(a) => find_school(a, id.as_str()),
        None => None,
    };
    match found {
        Some(n) => n,
        None => {
            let r = short_reference(id.as_str());
            dot_join(school_label, r.as_str())
        },
    }
}

} // verus!
