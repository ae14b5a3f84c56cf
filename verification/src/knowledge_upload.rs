//! The school manager's PDF upload into governed knowledge storage: when an
//! upload may start, what each answer of the upload service reports, and
//! how a submission is summarised.

use vstd::prelude::*;
use crate::text::{concat, push_str};

verus! {

/// The largest PDF the upload accepts, in MiB.
pub const MAX_PDF_MB: usize = 20;

/// What the storage check reported.
#[derive(PartialEq, Eq, Structural, Clone, Copy, Debug)]
pub enum StorageReadiness {
    /// The check has not answered yet.
    Checking,
    Ready,
    /// Unreachable for now (or the check itself failed).
    UnavailableRetryable,
    Misconfigured,
}

/// The storage panel's text.
pub fn readiness_text(r: StorageReadiness) -> (res: &'static str)
    ensures
        res@ == match r {
            StorageReadiness::Checking => "Checking private knowledge storage…"@,
            StorageReadiness::UnavailableRetryable => "Knowledge storage is temporarily unavailable. Existing submissions remain visible; new PDF uploads are paused."@,
            StorageReadiness::Misconfigured => "Knowledge storage is not safely configured. New uploads are blocked until an administrator restores the private storage configuration."@,
            StorageReadiness::Ready => "Private knowledge storage is ready for governed PDF uploads."@,
        },
{
    proof {
        reveal_strlit("Checking private knowledge storage…");
        reveal_strlit("Knowledge storage is temporarily unavailable. Existing submissions remain visible; new PDF uploads are paused.");
        reveal_strlit("Knowledge storage is not safely configured. New uploads are blocked until an administrator restores the private storage configuration.");
        reveal_strlit("Private knowledge storage is ready for governed PDF uploads.");
    }
    match r {
        StorageReadiness::Checking => "Checking private knowledge storage…",
        StorageReadiness::UnavailableRetryable => "Knowledge storage is temporarily unavailable. Existing submissions remain visible; new PDF uploads are paused.",
        StorageReadiness::Misconfigured => "Knowledge storage is not safely configured. New uploads are blocked until an administrator restores the private storage configuration.",
        StorageReadiness::Ready => "Private knowledge storage is ready for governed PDF uploads.",
    }
}

/// The message for a refused upload, by HTTP status; the server's body is
/// never shown.
pub open spec fn upload_error_text(status: u16) -> Seq<char> {
    if status == 400 {
        "The upload form is invalid or incomplete. Check the title and PDF selection."@
    } else if status == 413 {
        "The PDF exceeds the 20 MiB upload limit."@
    } else if status == 415 {
        "The selected file is not a complete PDF."@
    } else if status == 401 || status == 403 {
        "Your session no longer permits this school upload. Refresh the page and sign in again if needed."@
    } else if status == 502 || status == 503 || status == 504 {
        "Knowledge storage is temporarily unavailable. Your form values remain on this page; retry the storage check before submitting again."@
    } else {
        "The PDF could not be registered. Your form values remain on this page; refresh the submission list before retrying."@
    }
}

pub fn upload_error_message(status: u16) -> (res: String)
    ensures
        res@ == upload_error_text(status),
{
    let t = if status == 400 {
        "The upload form is invalid or incomplete. Check the title and PDF selection."
    } else if status == 413 {
        "The PDF exceeds the 20 MiB upload limit."
    } else if status == 415 {
        "The selected file is not a complete PDF."
    } else if status == 401 || status == 403 {
        "Your session no longer permits this school upload. Refresh the page and sign in again if needed."
    } else if status == 502 || status == 503 || status == 504 {
        "Knowledge storage is temporarily unavailable. Your form values remain on this page; retry the storage check before submitting again."
    } else {
        "The PDF could not be registered. Your form values remain on this page; refresh the submission list before retrying."
    };
    t.to_owned()
}

/// Statuses after which the storage check is repeated.
pub open spec fn is_gateway_failure(status: u16) -> bool {
    status == 502 || status == 503 || status == 504
}

/// How an upload attempt ended.
pub enum UploadOutcome {
    /// The form could not be read from the page.
    FormUnreadable,
    /// The request could not be built from the form.
    NotPrepared,
    /// An HTTP answer: its status and, on success, the `status` field of
    /// its JSON body when there is one.
    Responded { status: u16, payload_status: Option<String> },
    /// The storage service could not be reached.
    Unreachable,
}

/// The success notice: the registered status, `submitted` when the answer
/// names none.
pub open spec fn uploaded_text(status: Option<Seq<char>>) -> Seq<char> {
    "PDF uploaded and registered with status "@ + (match status {
        Some(s) => s,
        None => "submitted"@,
    }) + ". OCR, embedding, teacher enablement, and publication have not occurred."@
}

/// What to do after an upload ended.
pub struct UploadFollowUp {
    /// Reload the submission list.
    pub reload_submissions: bool,
    /// Repeat the storage check.
    pub recheck_storage: bool,
}

/// The upload panel: whether an upload is under way, the notice line, and
/// the form generation (a new one empties the form).
pub struct UploadPanel {
    pub busy: bool,
    pub notice: Option<(bool, String)>,
    pub form_epoch: u64,
}

impl UploadPanel {
    pub fn new() -> (res: Self)
        ensures
            !res.busy && res.notice.is_none() && res.form_epoch == 0,
    {
        UploadPanel { busy: false, notice: None, form_epoch: 0 }
    }

    /// "Upload for review": nothing while busy; refused unless storage is
    /// ready; else the upload starts. Returns whether it starts.
    pub fn submit(&mut self, readiness: StorageReadiness) -> (started: bool)
        ensures
            started == (!old(self).busy && readiness == StorageReadiness::Ready),
            old(self).busy ==> final(self).notice == old(self).notice && final(self).busy,
            !old(self).busy && readiness != StorageReadiness::Ready ==> (final(self).notice matches Some((ok, m))
                && !ok && m@ == "Knowledge storage is not ready for a new upload. Retry the storage check first."@
                && !final(self).busy),
            started ==> final(self).busy && final(self).notice.is_none(),
            final(self).form_epoch == old(self).form_epoch,
    {
        if self.busy {
            return false;
        }
        if readiness != StorageReadiness::Ready {
            proof {
                reveal_strlit("Knowledge storage is not ready for a new upload. Retry the storage check first.");
            }
            self.notice = Some((false, "Knowledge storage is not ready for a new upload. Retry the storage check first.".to_owned()));
            return false;
        }
        self.busy = true;
        self.notice = None;
        true
    }

    /// The end of an upload. A 2xx answer empties the form and reloads the
    /// list; a gateway failure or an unreachable service repeats the
    /// storage check; any failure keeps the form as it is.
    pub fn finished(&mut self, outcome: UploadOutcome) -> (res: UploadFollowUp)
        requires
            outcome matches UploadOutcome::Responded { status, .. } && 200 <= status < 300 ==> old(self).form_epoch < u64::MAX,
        ensures
            !final(self).busy,
            match outcome {
                UploadOutcome::FormUnreadable => final(self).notice matches Some((ok, m)) && !ok
                    && m@ == "The upload form could not be read. Refresh the page and try again."@
                    && !res.reload_submissions && !res.recheck_storage && final(self).form_epoch == old(self).form_epoch,
                UploadOutcome::NotPrepared => final(self).notice matches Some((ok, m)) && !ok
                    && m@ == "The PDF upload could not be prepared. The selected fields were not cleared."@
                    && !res.reload_submissions && !res.recheck_storage && final(self).form_epoch == old(self).form_epoch,
                UploadOutcome::Responded { status, payload_status } => if 200 <= status < 300 {
                    final(self).notice matches Some((ok, m)) && ok && m@ == uploaded_text(
                        match payload_status {
                            Some(p) => Some(p@),
                            None => None,
                        },
                    ) && res.reload_submissions && !res.recheck_storage && final(self).form_epoch == old(self).form_epoch + 1
                } else {
                    final(self).notice matches Some((ok, m)) && !ok && m@ == upload_error_text(status)
                        && !res.reload_submissions && res.recheck_storage == is_gateway_failure(status)
                        && final(self).form_epoch == old(self).form_epoch
                },
                UploadOutcome::Unreachable => final(self).notice matches Some((ok, m)) && !ok
                    && m@ == "The storage service could not be reached. Your form values remain on this page; retry the storage check before submitting again."@
                    && !res.reload_submissions && res.recheck_storage && final(self).form_epoch == old(self).form_epoch,
            },
    {
        let follow = match outcome {
            UploadOutcome::FormUnreadable => {
                proof {
                    reveal_strlit("The upload form could not be read. Refresh the page and try again.");
                }
                self.notice = Some((false, "The upload form could not be read. Refresh the page and try again.".to_owned()));
                UploadFollowUp { reload_submissions: false, recheck_storage: false }
            },
            UploadOutcome::NotPrepared => {
                proof {
                    reveal_strlit("The PDF upload could not be prepared. The selected fields were not cleared.");
                }
                self.notice = Some((false, "The PDF upload could not be prepared. The selected fields were not cleared.".to_owned()));
                UploadFollowUp { reload_submissions: false, recheck_storage: false }
            },
            UploadOutcome::Responded { status, payload_status } => {
                if 200 <= status && status < 300 {
                    let mut m = "PDF uploaded and registered with status ".to_owned();
                    match &payload_status {
                        Some(p) => push_str(&mut m, p.as_str()),
                        None => push_str(&mut m, "submitted"),
                    }
                    push_str(&mut m, ". OCR, embedding, teacher enablement, and publication have not occurred.");
                    proof {
                        reveal_strlit("PDF uploaded and registered with status ");
                        reveal_strlit("submitted");
                        reveal_strlit(". OCR, embedding, teacher enablement, and publication have not occurred.");
                    }
                    self.notice = Some((true, m));
                    self.form_epoch = self.form_epoch + 1;
                    UploadFollowUp { reload_submissions: true, recheck_storage: false }
                } else {
                    self.notice = Some((false, upload_error_message(status)));
                    UploadFollowUp { reload_submissions: false, recheck_storage: status == 502 || status == 503 || status == 504 }
                }
            },
            UploadOutcome::Unreachable => {
                proof {
                    reveal_strlit("The storage service could not be reached. Your form values remain on this page; retry the storage check before submitting again.");
                }
                self.notice = Some((false, "The storage service could not be reached. Your form values remain on this page; retry the storage check before submitting again.".to_owned()));
                UploadFollowUp { reload_submissions: false, recheck_storage: true }
            },
        };
        self.busy = false;
        follow
    }
}

/// A submission's subject and grade line: both joined by ` · `, either
/// alone, or `General`.
pub open spec fn submission_metadata_text(subject: Option<Seq<char>>, grade: Option<Seq<char>>) -> Seq<char> {
    match (subject, grade) {
        (Some(s), Some(g)) => s + " · "@ + g,
        (Some(s), None) => s,
        (None, Some(g)) => g,
        (None, None) => "General"@,
    }
}

pub fn submission_metadata(subject: &Option<String>, grade: &Option<String>) -> (res: String)
    ensures
        res@ == submission_metadata_text(
            match subject {
                Some(s) => Some(s@),
                None => None,
            },
            match grade {
                Some(g) => Some(g@),
                None => None,
            },
        ),
{
    proof {
        reveal_strlit(" · ");
        reveal_strlit("General");
    }
    match (subject, grade) {
        (Some(s), Some(g)) => {
            let mut out = s.clone();
            push_str(&mut out, " · ");
            push_str(&mut out, g.as_str());
            out
        },
        (Some(s), None) => s.clone(),
        (None, Some(g)) => g.clone(),
        (None, None) => "General".to_owned(),
    }
}

/// The id of an upload field: `knowledge-` and its name.
pub fn upload_field_id(name: &str) -> (res: String)
    ensures
        res@ == "knowledge-"@ + name@,
{
    proof {
        reveal_strlit("knowledge-");
    }
    concat("knowledge-", name)
}

} // verus!
