//! The governed-knowledge lifecycle as the portal reads it: asset statuses
//! and which actions each status offers.

use vstd::prelude::*;
use crate::text::same_text;

verus! {

/// Lifecycle status of a governed knowledge asset, as the server reports it.
#[derive(PartialEq, Eq, Structural, Clone, Copy, Debug)]
pub enum AssetStatus {
    Submitted,
    OcrPending,
    OcrReady,
    Failed,
    EmbeddingPending,
    Embedded,
    Published,
    Archived,
    Other,
}

/// The status named by a server status code; unknown codes are `Other`.
pub open spec fn status_of(code: Seq<char>) -> AssetStatus {
    if code == "submitted"@ {
        AssetStatus::Submitted
    } else if code == "ocr_pending"@ {
        AssetStatus::OcrPending
    } else if code == "ocr_ready"@ {
        AssetStatus::OcrReady
    } else if code == "failed"@ {
        AssetStatus::Failed
    } else if code == "embedding_pending"@ {
        AssetStatus::EmbeddingPending
    } else if code == "embedded"@ {
        AssetStatus::Embedded
    } else if code == "published"@ {
        AssetStatus::Published
    } else if code == "archived"@ {
        AssetStatus::Archived
    } else {
        AssetStatus::Other
    }
}

/// Reads a server status code.
pub fn parse_status(code: &str) -> (res: AssetStatus)
    ensures
        res == status_of(code@),
{
    if same_text(code, "submitted") {
        AssetStatus::Submitted
    } else if same_text(code, "ocr_pending") {
        AssetStatus::OcrPending
    } else if same_text(code, "ocr_ready") {
        AssetStatus::OcrReady
    } else if same_text(code, "failed") {
        AssetStatus::Failed
    } else if same_text(code, "embedding_pending") {
        AssetStatus::EmbeddingPending
    } else if same_text(code, "embedded") {
        AssetStatus::Embedded
    } else if same_text(code, "published") {
        AssetStatus::Published
    } else if same_text(code, "archived") {
        AssetStatus::Archived
    } else {
        AssetStatus::Other
    }
}

/// Visual tone of a status badge.
#[derive(PartialEq, Eq, Structural, Clone, Copy, Debug)]
pub enum StatusTone {
    /// Published material.
    Success,
    /// Vectors queued or present.
    Progress,
    /// Processing failed.
    Danger,
    /// Withdrawn for good.
    Neutral,
    /// Anything still awaiting review.
    Attention,
}

pub open spec fn status_tone_spec(status: AssetStatus) -> StatusTone {
    match status {
        AssetStatus::Published => StatusTone::Success,
        AssetStatus::Embedded | AssetStatus::EmbeddingPending => StatusTone::Progress,
        AssetStatus::Failed => StatusTone::Danger,
        AssetStatus::Archived => StatusTone::Neutral,
        _ => StatusTone::Attention,
    }
}

/// The badge tone of a status.
pub fn status_tone(status: AssetStatus) -> (res: StatusTone)
    ensures
        res == status_tone_spec(status),
{
    match status {
        AssetStatus::Published => StatusTone::Success,
        AssetStatus::Embedded | AssetStatus::EmbeddingPending => StatusTone::Progress,
        AssetStatus::Failed => StatusTone::Danger,
        AssetStatus::Archived => StatusTone::Neutral,
        _ => StatusTone::Attention,
    }
}

/// What a platform administrator may do with an asset on the review card.
#[derive(PartialEq, Eq, Structural, Clone, Copy, Debug)]
pub struct ReviewActions {
    /// Attach or update the verified OCR text.
    pub can_edit_ocr: bool,
    /// Queue (or retry) embedding.
    pub can_embed: bool,
    /// Publish the embedded asset.
    pub can_publish: bool,
    /// Archive (or withdraw and archive) the asset.
    pub can_archive: bool,
    /// The OCR action updates existing verified text rather than attaching it.
    pub ocr_is_update: bool,
    /// The embedding action is a retry after a failure.
    pub embed_is_retry: bool,
    /// Archiving withdraws a published asset.
    pub archive_withdraws: bool,
}

pub open spec fn review_actions_spec(status: AssetStatus, has_verified_ocr: bool) -> ReviewActions {
    ReviewActions {
        can_edit_ocr: status == AssetStatus::Submitted || status == AssetStatus::OcrPending
            || status == AssetStatus::OcrReady || status == AssetStatus::Failed,
        can_embed: status == AssetStatus::OcrReady || (status == AssetStatus::Failed
            && has_verified_ocr),
        can_publish: status == AssetStatus::Embedded,
        can_archive: status != AssetStatus::Archived,
        ocr_is_update: has_verified_ocr,
        embed_is_retry: status == AssetStatus::Failed,
        archive_withdraws: status == AssetStatus::Published,
    }
}

impl ReviewActions {
    /// The actions the review card offers for an asset in `status`.
    pub fn for_asset(status: AssetStatus, has_verified_ocr: bool) -> (res: Self)
        ensures
            res == review_actions_spec(status, has_verified_ocr),
    {
        ReviewActions {
            can_edit_ocr: status == AssetStatus::Submitted || status == AssetStatus::OcrPending
                || status == AssetStatus::OcrReady || status == AssetStatus::Failed,
            can_embed: status == AssetStatus::OcrReady || (status == AssetStatus::Failed
                && has_verified_ocr),
            can_publish: status == AssetStatus::Embedded,
            can_archive: status != AssetStatus::Archived,
            ocr_is_update: has_verified_ocr,
            embed_is_retry: status == AssetStatus::Failed,
            archive_withdraws: status == AssetStatus::Published,
        }
    }
}

/// Archived is terminal: an archived asset offers no lifecycle action, and
/// only an embedded asset can be published.
pub proof fn lemma_archived_is_terminal(status: AssetStatus, has_verified_ocr: bool)
    ensures
        status == AssetStatus::Archived ==> {
            let a = review_actions_spec(status, has_verified_ocr);
            !a.can_edit_ocr && !a.can_embed && !a.can_publish && !a.can_archive
        },
        review_actions_spec(status, has_verified_ocr).can_publish ==> status
            == AssetStatus::Embedded,
{
}

/// What the review card offers, for every status and OCR state: OCR text
/// can be attached or updated until embedding succeeds (submitted, OCR
/// pending, OCR ready or failed); embedding is offered for an OCR-ready
/// asset, and again as a retry for a failed one that has verified OCR
/// text; only an embedded asset can be published; anything but an
/// archived asset can be archived, which withdraws a published one.
pub proof fn lemma_review_card_actions(status: AssetStatus, has_verified_ocr: bool)
    ensures
        ({
            let a = review_actions_spec(status, has_verified_ocr);
            &&& a.can_edit_ocr <==> (status == AssetStatus::Submitted || status == AssetStatus::OcrPending
                || status == AssetStatus::OcrReady || status == AssetStatus::Failed)
            &&& a.can_embed <==> (status == AssetStatus::OcrReady || (status == AssetStatus::Failed
                && has_verified_ocr))
            &&& a.embed_is_retry <==> status == AssetStatus::Failed
            &&& a.can_publish <==> status == AssetStatus::Embedded
            &&& a.can_archive <==> status != AssetStatus::Archived
            &&& a.archive_withdraws <==> status == AssetStatus::Published
            &&& a.ocr_is_update <==> has_verified_ocr
        }),
        review_actions_spec(AssetStatus::Failed, true).can_embed && review_actions_spec(AssetStatus::Failed, true).embed_is_retry,
        !review_actions_spec(AssetStatus::Failed, false).can_embed && review_actions_spec(AssetStatus::Failed, false).can_edit_ocr,
{
}

/// Actions of the compact asset panel: embedding from a ready, failed or
/// already embedded asset, publishing an embedded one, archiving any other
/// than an archived one.
#[derive(PartialEq, Eq, Structural, Clone, Copy, Debug)]
pub struct PanelActions {
    pub can_embed: bool,
    pub can_publish: bool,
    pub can_archive: bool,
}

impl PanelActions {
    pub fn for_status(status: AssetStatus) -> (res: Self)
        ensures
            res.can_embed == (status == AssetStatus::OcrReady || status == AssetStatus::Failed
                || status == AssetStatus::Embedded),
            res.can_publish == (status == AssetStatus::Embedded),
            res.can_archive == (status != AssetStatus::Archived),
    {
        PanelActions {
            can_embed: status == AssetStatus::OcrReady || status == AssetStatus::Failed
                || status == AssetStatus::Embedded,
            can_publish: status == AssetStatus::Embedded,
            can_archive: status != AssetStatus::Archived,
        }
    }
}

} // verus!
