//! The school manager's class management: the create-class form and its
//! outcomes, and enrolment in a class's detail dialog.

use vstd::prelude::*;
use crate::text::{concat, is_blank, replace_text, replace_all, trim};

verus! {

/// Why the create-class form refused to submit.
#[derive(PartialEq, Eq, Structural, Clone, Copy, Debug)]
pub enum ClassFormError {
    NameRequired,
    SubjectRequired,
    TermRequired,
    /// The server refused to create the class.
    CreateFailed,
}

impl ClassFormError {
    /// The translation key of a missing-field message; the server's refusal
    /// has fixed texts instead (`create_failed_text`).
    pub fn key(&self) -> (res: Option<&'static str>)
        ensures
            match res {
                Some(k) => class_form_error_key(*self) == Some(k@),
                None => class_form_error_key(*self).is_none(),
            },
    {
        proof {
            reveal_strlit("school_manager.classes.errors.name_required");
            reveal_strlit("school_manager.classes.errors.subject_required");
            reveal_strlit("school_manager.classes.errors.term_required");
        }
        match self {
            ClassFormError::NameRequired => Some("school_manager.classes.errors.name_required"),
            ClassFormError::SubjectRequired => Some("school_manager.classes.errors.subject_required"),
            ClassFormError::TermRequired => Some("school_manager.classes.errors.term_required"),
            ClassFormError::CreateFailed => None,
        }
    }
}

pub open spec fn class_form_error_key(e: ClassFormError) -> Option<Seq<char>> {
    match e {
        ClassFormError::NameRequired => Some("school_manager.classes.errors.name_required"@),
        ClassFormError::SubjectRequired => Some("school_manager.classes.errors.subject_required"@),
        ClassFormError::TermRequired => Some("school_manager.classes.errors.term_required"@),
        ClassFormError::CreateFailed => None,
    }
}

/// The text shown when the server refuses to create a class.
pub open spec fn create_failed_text(fa: bool) -> Seq<char> {
    if fa {
        "ایجاد کلاس ناموفق بود. اطلاعات را بررسی کرده و دوباره تلاش کنید."@
    } else {
        "Class creation failed. Check the information and try again."@
    }
}

pub fn create_failed_message(fa: bool) -> (res: String)
    ensures
        res@ == create_failed_text(fa),
{
    crate::knowledge_edit::pick(
        fa,
        "ایجاد کلاس ناموفق بود. اطلاعات را بررسی کرده و دوباره تلاش کنید.",
        "Class creation failed. Check the information and try again.",
    )
}

/// The first missing field of the form: a blank name, an unselected
/// subject, a blank term, in that order.
pub open spec fn class_form_check(name: Seq<char>, subject_id: Seq<char>, term: Seq<char>) -> Option<ClassFormError> {
    if is_blank(name) {
        Some(ClassFormError::NameRequired)
    } else if subject_id.len() == 0 {
        Some(ClassFormError::SubjectRequired)
    } else if is_blank(term) {
        Some(ClassFormError::TermRequired)
    } else {
        None
    }
}

/// Checks the create-class form.
pub fn validate_class_form(name: &str, subject_id: &str, term: &str) -> (res: Option<ClassFormError>)
    ensures
        res == class_form_check(name@, subject_id@, term@),
{
    if trim(name).is_empty() {
        Some(ClassFormError::NameRequired)
    } else if subject_id.is_empty() {
        Some(ClassFormError::SubjectRequired)
    } else if trim(term).is_empty() {
        Some(ClassFormError::TermRequired)
    } else {
        None
    }
}

/// A class to create, with the fields as entered.
pub struct CreateClassRequest {
    pub name: String,
    pub subject_id: String,
    pub term: String,
}

/// The page notice after a class was created: whether the class list could
/// be read again afterwards.
pub open spec fn created_notice_text(refreshed: bool, fa: bool) -> Seq<char> {
    if refreshed {
        if fa { "کلاس با موفقیت ایجاد شد."@ } else { "Class created successfully."@ }
    } else {
        if fa {
            "کلاس ایجاد شد، اما فهرست کلاس‌ها به‌روزرسانی نشد. دوباره تلاش کنید."@
        } else {
            "Class was created, but the class list could not be refreshed. Try again."@
        }
    }
}

/// Where a list of the class page (the classes, or the subjects) comes
/// from.
#[derive(PartialEq, Eq, Structural, Clone, Copy, Debug)]
pub enum ListSource {
    /// The copy held in the page cache.
    Cache,
    /// A server read; a successful one is then kept in the cache.
    Server,
}

/// The class page reads its classes and subjects from the cache whenever
/// the cache holds a copy (creating a class clears it), else from the
/// server.
pub fn list_source(cache_holds_copy: bool) -> (res: ListSource)
    ensures
        res == if cache_holds_copy { ListSource::Cache } else { ListSource::Server },
{
    if cache_holds_copy { ListSource::Cache } else { ListSource::Server }
}

/// The create-class dialog and the page notice above the class list.
pub struct ClassForm {
    pub open: bool,
    pub name: String,
    pub subject_id: String,
    pub term: String,
    pub error: Option<ClassFormError>,
    pub submitting: bool,
    /// Success flag and text of the page notice.
    pub notice: Option<(bool, String)>,
}

impl ClassForm {
    /// A closed, empty form.
    pub fn new() -> (res: Self)
        ensures
            !res.open && !res.submitting,
            res.name@.len() == 0 && res.subject_id@.len() == 0 && res.term@.len() == 0,
            res.error.is_none() && res.notice.is_none(),
    {
        ClassForm {
            open: false,
            name: String::new(),
            subject_id: String::new(),
            term: String::new(),
            error: None,
            submitting: false,
            notice: None,
        }
    }

    /// "New class" pressed.
    pub fn open_dialog(&mut self)
        ensures
            final(self).open,
            final(self).name == old(self).name && final(self).subject_id == old(self).subject_id
                && final(self).term == old(self).term && final(self).error == old(self).error
                && final(self).submitting == old(self).submitting && final(self).notice == old(self).notice,
    {
        self.open = true;
    }

    /// Closing the dialog: refused while a creation is under way.
    pub fn close_dialog(&mut self)
        ensures
            final(self).open == (old(self).open && old(self).submitting),
            final(self).name == old(self).name && final(self).subject_id == old(self).subject_id
                && final(self).term == old(self).term && final(self).error == old(self).error
                && final(self).submitting == old(self).submitting && final(self).notice == old(self).notice,
    {
        if !self.submitting {
            self.open = false;
        }
    }

    /// "Create" pressed: the page notice and error clear; a missing field
    /// is reported; else the creation goes out, as entered.
    pub fn submit(&mut self) -> (res: Option<CreateClassRequest>)
        ensures
            final(self).notice.is_none(),
            final(self).open == old(self).open,
            final(self).name == old(self).name && final(self).subject_id == old(self).subject_id
                && final(self).term == old(self).term,
            match class_form_check(old(self).name@, old(self).subject_id@, old(self).term@) {
                Some(e) => res.is_none() && final(self).error == Some(e) && !final(self).submitting,
                None => res matches Some(r) && r.name@ == old(self).name@ && r.subject_id@
                    == old(self).subject_id@ && r.term@ == old(self).term@ && final(self).error.is_none()
                    && final(self).submitting,
            },
    {
        self.submitting = true;
        self.error = None;
        self.notice = None;
        match validate_class_form(self.name.as_str(), self.subject_id.as_str(), self.term.as_str()) {
            Some(e) => {
                self.error = Some(e);
                self.submitting = false;
                None
            },
            None => Some(
                CreateClassRequest { name: self.name.clone(), subject_id: self.subject_id.clone(), term: self.term.clone() },
            ),
        }
    }

    /// The server's answer to the creation; `refreshed` tells whether the
    /// class list could be read again after a success. A success empties
    /// and closes the form and reports on the page; a failure keeps the
    /// form open with its error.
    pub fn creation_finished(&mut self, created: bool, refreshed: bool, fa: bool)
        ensures
            !final(self).submitting,
            created ==> {
                &&& !final(self).open
                &&& final(self).name@.len() == 0 && final(self).subject_id@.len() == 0 && final(self).term@.len() == 0
                &&& final(self).error == old(self).error
                &&& final(self).notice matches Some((ok, text)) && ok == refreshed && text@ == created_notice_text(refreshed, fa)
            },
            !created ==> {
                &&& final(self).open == old(self).open
                &&& final(self).name == old(self).name && final(self).subject_id == old(self).subject_id
                    && final(self).term == old(self).term
                &&& final(self).error == Some(ClassFormError::CreateFailed)
                &&& final(self).notice == old(self).notice
            },
    {
        if created {
            self.name = String::new();
            self.subject_id = String::new();
            self.term = String::new();
            self.open = false;
            let text = if refreshed {
                crate::knowledge_edit::pick(fa, "کلاس با موفقیت ایجاد شد.", "Class created successfully.")
            } else {
                crate::knowledge_edit::pick(
                    fa,
                    "کلاس ایجاد شد، اما فهرست کلاس‌ها به‌روزرسانی نشد. دوباره تلاش کنید.",
                    "Class was created, but the class list could not be refreshed. Try again.",
                )
            };
            self.notice = Some((refreshed, text));
        } else {
            self.error = Some(ClassFormError::CreateFailed);
        }
        self.submitting = false;
    }
}

/// The detail dialog's title: the translated template with `{class}`
/// replaced by the class name.
pub fn detail_title(template: &str, class_name: &str) -> (res: String)
    ensures
        res@ == replace_all(template@, "{class}"@, class_name@),
{
    proof {
        reveal_strlit("{class}");
    }
    replace_text(template, "{class}", class_name)
}

/// The teacher column of a class card: the name, or a dash.
pub fn teacher_label(teacher_name: &Option<String>) -> (res: String)
    ensures
        res@ == match teacher_name {
            Some(t) => t@,
            None => "—"@,
        },
{
    match teacher_name {
        Some(t) => t.clone(),
        None => "—".to_owned(),
    }
}

/// Why enrolment in the detail dialog failed.
#[derive(PartialEq, Eq, Structural, Clone, Copy, Debug)]
pub enum EnrollmentError {
    /// No student selected.
    SelectStudent,
    EnrollFailed,
    RemoveFailed,
}

impl EnrollmentError {
    /// The translation key of the message.
    pub fn key(&self) -> (res: &'static str)
        ensures
            res@ == match *self {
                EnrollmentError::SelectStudent => "school_manager.classes.errors.select_student_required"@,
                EnrollmentError::EnrollFailed => "school_manager.classes.errors.enroll_failed"@,
                EnrollmentError::RemoveFailed => "school_manager.classes.errors.remove_failed"@,
            },
    {
        proof {
            reveal_strlit("school_manager.classes.errors.select_student_required");
            reveal_strlit("school_manager.classes.errors.enroll_failed");
            reveal_strlit("school_manager.classes.errors.remove_failed");
        }
        match self {
            EnrollmentError::SelectStudent => "school_manager.classes.errors.select_student_required",
            EnrollmentError::EnrollFailed => "school_manager.classes.errors.enroll_failed",
            EnrollmentError::RemoveFailed => "school_manager.classes.errors.remove_failed",
        }
    }
}

/// The error line of the detail dialog: the translated message, followed
/// by the server's error text for a failed request.
pub fn enrollment_error_text(prefix: &str, server_error: &str) -> (res: String)
    ensures
        res@ == prefix@ + server_error@,
{
    concat(prefix, server_error)
}

/// The enrolment part of a class's detail dialog.
pub struct EnrollmentPanel {
    pub selected_student: String,
    pub loading: bool,
    pub error: Option<EnrollmentError>,
    /// The server's error text after a failed request.
    pub server_error: String,
}

impl EnrollmentPanel {
    pub fn new() -> (res: Self)
        ensures
            res.selected_student@.len() == 0 && !res.loading && res.error.is_none(),
    {
        EnrollmentPanel { selected_student: String::new(), loading: false, error: None, server_error: String::new() }
    }

    /// "Enroll" pressed: without a selected student, an error; else the
    /// enrolment of that student goes out.
    pub fn enroll(&mut self) -> (res: Option<String>)
        ensures
            old(self).selected_student@.len() == 0 ==> res.is_none() && final(self).error == Some(
                EnrollmentError::SelectStudent,
            ) && final(self).loading == old(self).loading && final(self).selected_student == old(self).selected_student,
            old(self).selected_student@.len() > 0 ==> (res matches Some(id) && id@ == old(self).selected_student@
                && final(self).loading && final(self).error.is_none() && final(self).selected_student
                == old(self).selected_student),
    {
        if self.selected_student.as_str().is_empty() {
            self.error = Some(EnrollmentError::SelectStudent);
            return None;
        }
        self.loading = true;
        self.error = None;
        Some(self.selected_student.clone())
    }

    /// A removal button pressed: the removal goes out.
    pub fn start_removal(&mut self)
        ensures
            final(self).loading && final(self).error.is_none(),
            final(self).selected_student == old(self).selected_student,
    {
        self.loading = true;
        self.error = None;
    }

    /// The server's answer to an enrolment (`removal` false) or removal.
    /// Returns whether the class's lists are to be reloaded.
    pub fn finished(&mut self, removal: bool, server_error: Option<String>) -> (reload: bool)
        ensures
            !final(self).loading,
            reload == server_error.is_none(),
            server_error.is_none() ==> final(self).error == old(self).error && (if removal {
                final(self).selected_student == old(self).selected_student
            } else {
                final(self).selected_student@.len() == 0
            }),
            server_error matches Some(e) ==> final(self).error == Some(
                if removal { EnrollmentError::RemoveFailed } else { EnrollmentError::EnrollFailed },
            ) && final(self).server_error@ == e@ && final(self).selected_student == old(self).selected_student,
    {
        let reload = match server_error {
            None => {
                if !removal {
                    self.selected_student = String::new();
                }
                true
            },
            Some(e) => {
                self.error = Some(if removal { EnrollmentError::RemoveFailed } else { EnrollmentError::EnrollFailed });
                self.server_error = e;
                false
            },
        };
        self.loading = false;
        reload
    }
}

} // verus!
