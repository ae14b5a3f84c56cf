//! The knowledge submission screens: registering a controlled PDF source,
//! teachers enabling published assets for generation, and the platform
//! panel for attaching verified OCR text.

use vstd::prelude::*;
use crate::knowledge_edit::{normalized_optional, normalized_optional_spec};
use crate::text::{concat, is_blank, push_str, trim, trimmed};

verus! {

/// A PDF source registered by a school manager.
pub struct SubmissionRequest {
    pub title: String,
    pub description: Option<String>,
    pub source_type: String,
    pub language: String,
    pub subject: Option<String>,
    pub grade: Option<String>,
    /// The tags document, an empty JSON object.
    pub tags: String,
    pub original_file_url: Option<String>,
    pub original_filename: String,
    pub mime_type: String,
    pub is_scanned_pdf: bool,
}

pub open spec fn opt_view(o: Option<String>) -> Option<Seq<char>> {
    match o {
        Some(s) => Some(s@),
        None => None,
    }
}

/// The registration form.
pub struct SubmissionForm {
    pub title: String,
    pub description: String,
    pub source_url: String,
    pub filename: String,
    pub subject: String,
    pub grade: String,
    pub busy: bool,
    pub notice: Option<String>,
}

/// The message for a form missing a title, source URL or filename.
pub open spec fn submission_required_text() -> Seq<char> {
    "Title, controlled source URL, and original filename are required."@
}

impl SubmissionForm {
    pub fn new() -> (res: Self)
        ensures
            res.title@.len() == 0 && res.source_url@.len() == 0 && res.filename@.len() == 0,
            res.description@.len() == 0 && res.subject@.len() == 0 && res.grade@.len() == 0,
            !res.busy && res.notice.is_none(),
    {
        SubmissionForm {
            title: String::new(),
            description: String::new(),
            source_url: String::new(),
            filename: String::new(),
            subject: String::new(),
            grade: String::new(),
            busy: false,
            notice: None,
        }
    }

    /// "Register submission": title, source URL and filename are required
    /// (trimmed); the request is a Persian PDF with empty tags, trimmed
    /// optional fields left out when blank.
    pub fn submit(&mut self) -> (res: Option<SubmissionRequest>)
        ensures
            (is_blank(old(self).title@) || is_blank(old(self).source_url@) || is_blank(old(self).filename@)) ==> (
            final(self).notice matches Some(m) && m@ == submission_required_text() && res.is_none()
                && final(self).busy == old(self).busy),
            !(is_blank(old(self).title@) || is_blank(old(self).source_url@) || is_blank(old(self).filename@)) ==> (
            res matches Some(r) && r.title@ == trimmed(old(self).title@) && r.original_file_url == Some(
                r.original_file_url.unwrap(),
            ) && r.original_file_url.unwrap()@ == trimmed(old(self).source_url@) && r.original_filename@ == trimmed(
                old(self).filename@,
            ) && opt_view(r.description) == normalized_optional_spec(old(self).description@) && opt_view(r.subject)
                == normalized_optional_spec(old(self).subject@) && opt_view(r.grade) == normalized_optional_spec(
                old(self).grade@,
            ) && r.source_type@ == "pdf"@ && r.language@ == "fa"@ && r.tags@ == "{}"@ && r.mime_type@
                == "application/pdf"@ && !r.is_scanned_pdf && final(self).busy && final(self).notice.is_none()),
    {
        let title = trim(self.title.as_str());
        let url = trim(self.source_url.as_str());
        let filename = trim(self.filename.as_str());
        if title.is_empty() || url.is_empty() || filename.is_empty() {
            proof {
                reveal_strlit("Title, controlled source URL, and original filename are required.");
            }
            self.notice = Some("Title, controlled source URL, and original filename are required.".to_owned());
            return None;
        }
        let r = SubmissionRequest {
            title: title.to_owned(),
            description: normalized_optional(self.description.as_str()),
            source_type: "pdf".to_owned(),
            language: "fa".to_owned(),
            subject: normalized_optional(self.subject.as_str()),
            grade: normalized_optional(self.grade.as_str()),
            tags: "{}".to_owned(),
            original_file_url: Some(url.to_owned()),
            original_filename: filename.to_owned(),
            mime_type: "application/pdf".to_owned(),
            is_scanned_pdf: false,
        };
        proof {
            reveal_strlit("pdf");
            reveal_strlit("fa");
            reveal_strlit("{}");
            reveal_strlit("application/pdf");
        }
        self.busy = true;
        self.notice = None;
        Some(r)
    }

    /// The server's answer: a success empties the form; a failure keeps it
    /// and reports the error.
    pub fn finished(&mut self, error: Option<String>)
        ensures
            !final(self).busy,
            match error {
                None => final(self).notice matches Some(m) && m@
                    == "Submission registered for internal OCR and platform review."@ && final(self).title@.len() == 0
                    && final(self).description@.len() == 0 && final(self).source_url@.len() == 0
                    && final(self).filename@.len() == 0 && final(self).subject@.len() == 0 && final(self).grade@.len()
                    == 0,
                Some(e) => final(self).notice matches Some(m) && m@ == "Submission failed: "@ + e@ && final(self).title
                    == old(self).title && final(self).source_url == old(self).source_url,
            },
    {
        match error {
            None => {
                self.title = String::new();
                self.description = String::new();
                self.source_url = String::new();
                self.filename = String::new();
                self.subject = String::new();
                self.grade = String::new();
                proof {
                    reveal_strlit("Submission registered for internal OCR and platform review.");
                }
                self.notice = Some("Submission registered for internal OCR and platform review.".to_owned());
            },
            Some(e) => {
                proof {
                    reveal_strlit("Submission failed: ");
                }
                self.notice = Some(concat("Submission failed: ", e.as_str()));
            },
        }
        self.busy = false;
    }
}

/// A teacher's switch of an asset for generation, in the global context.
pub struct ToggleRequest {
    pub asset_id: String,
    pub enabled: bool,
    pub context_scope: String,
    pub context_key: String,
}

/// The switch a teacher's click sends: the opposite of the current state.
pub fn toggle_request(asset_id: &str, currently_enabled: bool) -> (res: ToggleRequest)
    ensures
        res.asset_id@ == asset_id@,
        res.enabled == !currently_enabled,
        res.context_scope@ == "global"@,
        res.context_key@.len() == 0,
{
    proof {
        reveal_strlit("global");
    }
    ToggleRequest {
        asset_id: asset_id.to_owned(),
        enabled: !currently_enabled,
        context_scope: "global".to_owned(),
        context_key: String::new(),
    }
}

/// The notice after a switch succeeded.
pub open spec fn toggled_text(enabled: bool, title: Seq<char>) -> Seq<char> {
    (if enabled { "Enabled"@ } else { "Disabled"@ }) + " ‘"@ + title + "’ for governed generation."@
}

pub fn toggled_message(enabled: bool, title: &str) -> (res: String)
    ensures
        res@ == toggled_text(enabled, title@),
{
    let mut s = if enabled { "Enabled".to_owned() } else { "Disabled".to_owned() };
    push_str(&mut s, " ‘");
    push_str(&mut s, title);
    push_str(&mut s, "’ for governed generation.");
    proof {
        reveal_strlit("Enabled");
        reveal_strlit("Disabled");
        reveal_strlit(" ‘");
        reveal_strlit("’ for governed generation.");
    }
    s
}

/// The switch button's text.
pub fn toggle_button_text(enabled: bool) -> (res: &'static str)
    ensures
        res@ == if enabled { "Enabled for generation"@ } else { "Enable for generation"@ },
{
    proof {
        reveal_strlit("Enabled for generation");
        reveal_strlit("Enable for generation");
    }
    if enabled {
        "Enabled for generation"
    } else {
        "Enable for generation"
    }
}

/// A failure notice: the action's prefix and the server's error.
pub fn failure_message(prefix: &str, error: &str) -> (res: String)
    ensures
        res@ == prefix@ + error@,
{
    concat(prefix, error)
}

/// An OCR attachment from the first platform panel.
pub struct AttachOcrRequest {
    pub asset_id: String,
    pub raw_text: String,
    pub ocr_provider: String,
}

/// The first platform panel's OCR form.
pub struct OcrAttachForm {
    pub selected_asset: Option<String>,
    pub ocr_text: String,
    pub provider: String,
    pub busy: bool,
    pub notice: Option<String>,
}

impl OcrAttachForm {
    pub fn new() -> (res: Self)
        ensures
            res.selected_asset.is_none() && res.ocr_text@.len() == 0 && res.provider@ == "manual-verified"@,
            !res.busy && res.notice.is_none(),
    {
        proof {
            reveal_strlit("manual-verified");
        }
        OcrAttachForm {
            selected_asset: None,
            ocr_text: String::new(),
            provider: "manual-verified".to_owned(),
            busy: false,
            notice: None,
        }
    }

    /// "Attach verified OCR" on an asset.
    pub fn select(&mut self, asset_id: &str)
        ensures
            final(self).selected_asset matches Some(a) && a@ == asset_id@,
            final(self).ocr_text == old(self).ocr_text && final(self).provider == old(self).provider,
    {
        self.selected_asset = Some(asset_id.to_owned());
    }

    /// Submitting the OCR form: an asset must be chosen and the text must
    /// not be blank; text and provider go out as typed.
    pub fn submit(&mut self) -> (res: Option<AttachOcrRequest>)
        ensures
            old(self).selected_asset.is_none() ==> (final(self).notice matches Some(m) && m@
                == "Select an asset before attaching OCR text."@ && res.is_none()),
            old(self).selected_asset.is_some() && is_blank(old(self).ocr_text@) ==> (final(self).notice matches Some(m)
                && m@ == "Verified OCR text is required."@ && res.is_none()),
            old(self).selected_asset.is_some() && !is_blank(old(self).ocr_text@) ==> (res matches Some(r) && r.asset_id
                == old(self).selected_asset.unwrap() && r.raw_text@ == old(self).ocr_text@ && r.ocr_provider@
                == old(self).provider@ && final(self).busy),
    {
        let asset_id = match &self.selected_asset {
            Some(a) => a.clone(),
            None => {
                proof {
                    reveal_strlit("Select an asset before attaching OCR text.");
                }
                self.notice = Some("Select an asset before attaching OCR text.".to_owned());
                return None;
            },
        };
        if trim(self.ocr_text.as_str()).is_empty() {
            proof {
                reveal_strlit("Verified OCR text is required.");
            }
            self.notice = Some("Verified OCR text is required.".to_owned());
            return None;
        }
        self.busy = true;
        Some(AttachOcrRequest { asset_id, raw_text: self.ocr_text.clone(), ocr_provider: self.provider.clone() })
    }

    /// The server's answer to the attachment.
    pub fn finished(&mut self, error: Option<String>)
        ensures
            !final(self).busy,
            match error {
                None => final(self).notice matches Some(m) && m@ == "Verified OCR text attached."@
                    && final(self).selected_asset.is_none() && final(self).ocr_text@.len() == 0,
                Some(e) => final(self).notice matches Some(m) && m@ == "OCR update failed: "@ + e@ && final(self).ocr_text
                    == old(self).ocr_text && final(self).selected_asset == old(self).selected_asset,
            },
    {
        match error {
            None => {
                self.selected_asset = None;
                self.ocr_text = String::new();
                proof {
                    reveal_strlit("Verified OCR text attached.");
                }
                self.notice = Some("Verified OCR text attached.".to_owned());
            },
            Some(e) => {
                proof {
                    reveal_strlit("OCR update failed: ");
                }
                self.notice = Some(concat("OCR update failed: ", e.as_str()));
            },
        }
        self.busy = false;
    }
}

/// The notice after queueing an embedding: its job id.
pub fn embedding_queued_message(job_id: &str) -> (res: String)
    ensures
        res@ == "Embedding queued as job "@ + job_id@ + "."@,
{
    let mut s = concat("Embedding queued as job ", job_id);
    push_str(&mut s, ".");
    proof {
        reveal_strlit("Embedding queued as job ");
        reveal_strlit(".");
    }
    s
}

/// The metadata line of an asset: subject, grade and language, those
/// present, joined by ` · `.
pub open spec fn metadata_line_text(subject: Option<Seq<char>>, grade: Option<Seq<char>>, language: Seq<char>) -> Seq<char> {
    let parts = (match subject {
        Some(s) => seq![s],
        None => Seq::empty(),
    }) + (match grade {
        Some(g) => seq![g],
        None => Seq::empty(),
    }) + seq![language];
    crate::text::join_seq(parts, " · "@)
}

pub fn metadata_line(subject: &Option<String>, grade: &Option<String>, language: &str) -> (res: String)
    ensures
        res@ == metadata_line_text(opt_view(*subject), opt_view(*grade), language@),
{
    proof {
        reveal_strlit(" · ");
    }
    let mut s = String::new();
    let mut any = false;
    if let Some(sub) = subject {
        push_str(&mut s, sub.as_str());
        any = true;
    }
    if let Some(g) = grade {
        if any {
            push_str(&mut s, " · ");
        }
        push_str(&mut s, g.as_str());
        any = true;
    }
    if any {
        push_str(&mut s, " · ");
    }
    push_str(&mut s, language);
    proof {
        let parts = (match opt_view(*subject) {
            Some(x) => seq![x],
            None => Seq::<Seq<char>>::empty(),
        }) + (match opt_view(*grade) {
            Some(x) => seq![x],
            None => Seq::<Seq<char>>::empty(),
        }) + seq![language@];
        let sep = " · "@;
        match (subject, grade) {
            (Some(a), Some(b)) => {
                assert(parts =~= seq![a@, b@, language@]);
                assert(parts.drop_last() =~= seq![a@, b@]);
                assert(parts.drop_last().drop_last() =~= seq![a@]);
                assert(crate::text::join_seq(seq![a@], sep) == a@);
                assert(crate::text::join_seq(parts.drop_last(), sep) == a@ + sep + b@);
                assert(crate::text::join_seq(parts, sep) == a@ + sep + b@ + sep + language@);
                assert(s@ =~= a@ + sep + b@ + sep + language@);
            },
            (Some(a), None) => {
                assert(parts =~= seq![a@, language@]);
                assert(parts.drop_last() =~= seq![a@]);
                assert(crate::text::join_seq(parts.drop_last(), sep) == a@);
                assert(parts.last() == language@);
                assert(crate::text::join_seq(parts, sep) == a@ + sep + language@);
                assert(s@ =~= a@ + sep + language@);
            },
            (None, Some(b)) => {
                assert(parts =~= seq![b@, language@]);
                assert(parts.drop_last() =~= seq![b@]);
                assert(crate::text::join_seq(parts.drop_last(), sep) == b@);
                assert(parts.last() == language@);
                assert(crate::text::join_seq(parts, sep) == b@ + sep + language@);
                assert(s@ =~= b@ + sep + language@);
            },
            (None, None) => {
                assert(parts =~= seq![language@]);
                assert(crate::text::join_seq(parts, sep) == language@);
                assert(s@ =~= language@);
            },
        }
    }
    s
}

} // verus!
