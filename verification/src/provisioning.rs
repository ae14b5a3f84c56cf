//! Creating school accounts: the per-role required fields, the request a
//! form becomes, the one-time credential, and the server's refusals as
//! messages.

use vstd::prelude::*;
use crate::text::{concat, contains, contains_seq, is_blank, push_char, push_str, same_text, trim, trimmed};

verus! {

/// The kind of account being created, from the creation tabs.
#[derive(PartialEq, Eq, Structural, Clone, Copy, Debug)]
pub enum ProvisionRole {
    Student,
    Teacher,
    Parent,
    /// Any other role text: only the common fields are checked.
    Other,
}

pub open spec fn role_of(role: Seq<char>) -> ProvisionRole {
    if role == "Student"@ {
        ProvisionRole::Student
    } else if role == "Teacher"@ {
        ProvisionRole::Teacher
    } else if role == "Parent"@ {
        ProvisionRole::Parent
    } else {
        ProvisionRole::Other
    }
}

pub fn parse_role(role: &str) -> (res: ProvisionRole)
    ensures
        res == role_of(role@),
{
    if same_text(role, "Student") {
        ProvisionRole::Student
    } else if same_text(role, "Teacher") {
        ProvisionRole::Teacher
    } else if same_text(role, "Parent") {
        ProvisionRole::Parent
    } else {
        ProvisionRole::Other
    }
}

/// Everything the creation form holds.
pub struct ProvisionFields {
    pub first_name: String,
    pub last_name: String,
    pub email: String,
    pub phone: String,
    pub date_of_birth: String,
    pub external_id: String,
    pub grade_level: String,
    pub enrollment_date: String,
    pub academic_year: String,
    pub department: String,
    pub hire_date: String,
    pub qualifications: String,
    pub student_class_id: String,
    pub student_parent_user_id: String,
    pub teacher_class_ids: Vec<String>,
    pub teacher_subject_ids: Vec<String>,
    pub parent_student_user_ids: Vec<String>,
}

/// Which required fields are missing.
#[derive(PartialEq, Eq, Structural, Clone, Copy, Debug)]
pub enum ProvisionError {
    /// First name, last name or email.
    Required,
    /// A student's date of birth, id, grade, enrolment date or year.
    StudentRequired,
    /// A teacher's phone, employee id, department, hire date or subjects.
    TeacherRequired,
    /// A parent's phone, parent id or students.
    ParentRequired,
}

/// The first rule a form breaks: the common fields, then the role's own.
pub open spec fn provision_check(role: ProvisionRole, f: ProvisionFields) -> Option<ProvisionError> {
    if is_blank(f.first_name@) || is_blank(f.last_name@) || is_blank(f.email@) {
        Some(ProvisionError::Required)
    } else if role == ProvisionRole::Student && (is_blank(f.date_of_birth@) || is_blank(f.external_id@)
        || is_blank(f.grade_level@) || is_blank(f.enrollment_date@) || is_blank(f.academic_year@)) {
        Some(ProvisionError::StudentRequired)
    } else if role == ProvisionRole::Teacher && (is_blank(f.phone@) || is_blank(f.external_id@)
        || is_blank(f.department@) || is_blank(f.hire_date@) || f.teacher_subject_ids@.len() == 0) {
        Some(ProvisionError::TeacherRequired)
    } else if role == ProvisionRole::Parent && (is_blank(f.phone@) || is_blank(f.external_id@)
        || f.parent_student_user_ids@.len() == 0) {
        Some(ProvisionError::ParentRequired)
    } else {
        None
    }
}

pub open spec fn provision_error_text(e: ProvisionError) -> Seq<char> {
    match e {
        ProvisionError::Required => "First name, last name, and email are required."@,
        ProvisionError::StudentRequired => "Date of birth, student ID, grade level, enrollment date, and academic year are required for a student."@,
        ProvisionError::TeacherRequired => "Phone, employee ID, department, hire date, and at least one subject are required for a teacher."@,
        ProvisionError::ParentRequired => "Phone, parent ID, and at least one associated student are required for a parent."@,
    }
}

impl ProvisionError {
    /// The message shown above the form.
    pub fn message(&self) -> (res: String)
        ensures
            res@ == provision_error_text(*self),
    {
        let t = match self {
            ProvisionError::Required => "First name, last name, and email are required.",
            ProvisionError::StudentRequired => "Date of birth, student ID, grade level, enrollment date, and academic year are required for a student.",
            ProvisionError::TeacherRequired => "Phone, employee ID, department, hire date, and at least one subject are required for a teacher.",
            ProvisionError::ParentRequired => "Phone, parent ID, and at least one associated student are required for a parent.",
        };
        t.to_owned()
    }
}

fn blank(s: &String) -> (res: bool)
    ensures
        res == is_blank(s@),
{
    trim(s.as_str()).is_empty()
}

/// Every field a role requires must be filled before an account is sent:
/// names and email for all; date of birth, student ID, grade level,
/// enrollment date and academic year for a student; phone, employee ID,
/// department, hire date and at least one subject for a teacher; phone,
/// parent ID and at least one student for a parent. A form holding all
/// of them passes, and each refusal names the role whose fields are
/// missing (the common fields first).
pub proof fn lemma_required_fields_per_role(role: ProvisionRole, f: ProvisionFields)
    ensures
        ({
            let common = !is_blank(f.first_name@) && !is_blank(f.last_name@) && !is_blank(f.email@);
            let student = !is_blank(f.date_of_birth@) && !is_blank(f.external_id@) && !is_blank(f.grade_level@)
                && !is_blank(f.enrollment_date@) && !is_blank(f.academic_year@);
            let teacher = !is_blank(f.phone@) && !is_blank(f.external_id@) && !is_blank(f.department@)
                && !is_blank(f.hire_date@) && f.teacher_subject_ids@.len() > 0;
            let parent = !is_blank(f.phone@) && !is_blank(f.external_id@) && f.parent_student_user_ids@.len() > 0;
            let r = provision_check(role, f);
            &&& r.is_none() <==> (common && (role == ProvisionRole::Student ==> student)
                && (role == ProvisionRole::Teacher ==> teacher) && (role == ProvisionRole::Parent ==> parent))
            &&& (r == Some(ProvisionError::Required)) <==> !common
            &&& (r == Some(ProvisionError::StudentRequired)) <==> (common && role == ProvisionRole::Student && !student)
            &&& (r == Some(ProvisionError::TeacherRequired)) <==> (common && role == ProvisionRole::Teacher && !teacher)
            &&& (r == Some(ProvisionError::ParentRequired)) <==> (common && role == ProvisionRole::Parent && !parent)
        }),
        role == ProvisionRole::Teacher && f.teacher_subject_ids@.len() == 0 ==> provision_check(role, f).is_some(),
        role == ProvisionRole::Parent && f.parent_student_user_ids@.len() == 0 ==> provision_check(role, f).is_some(),
{
}

/// Checks the form for `role`.
pub fn check_provision_fields(role: ProvisionRole, f: &ProvisionFields) -> (res: Option<ProvisionError>)
    ensures
        res == provision_check(role, *f),
{
    if blank(&f.first_name) || blank(&f.last_name) || blank(&f.email) {
        Some(ProvisionError::Required)
    } else if role == ProvisionRole::Student && (blank(&f.date_of_birth) || blank(&f.external_id)
        || blank(&f.grade_level) || blank(&f.enrollment_date) || blank(&f.academic_year)) {
        Some(ProvisionError::StudentRequired)
    } else if role == ProvisionRole::Teacher && (blank(&f.phone) || blank(&f.external_id)
        || blank(&f.department) || blank(&f.hire_date) || f.teacher_subject_ids.len() == 0) {
        Some(ProvisionError::TeacherRequired)
    } else if role == ProvisionRole::Parent && (blank(&f.phone) || blank(&f.external_id)
        || f.parent_student_user_ids.len() == 0) {
        Some(ProvisionError::ParentRequired)
    } else {
        None
    }
}

/// The profile details sent with an account, as (key, value) pairs of a
/// JSON object; the values are sent as typed.
pub open spec fn metadata_pairs(role: ProvisionRole, f: ProvisionFields) -> Seq<(Seq<char>, Seq<char>)> {
    match role {
        ProvisionRole::Student => seq![
            ("phone"@, f.phone@),
            ("date_of_birth"@, f.date_of_birth@),
            ("student_id"@, f.external_id@),
            ("grade_level"@, f.grade_level@),
            ("enrollment_date"@, f.enrollment_date@),
            ("academic_year"@, f.academic_year@),
        ],
        ProvisionRole::Teacher => seq![
            ("phone"@, f.phone@),
            ("employee_id"@, f.external_id@),
            ("department"@, f.department@),
            ("hire_date"@, f.hire_date@),
            ("qualifications"@, f.qualifications@),
        ],
        ProvisionRole::Parent => seq![("phone"@, f.phone@), ("parent_id"@, f.external_id@)],
        ProvisionRole::Other => Seq::empty(),
    }
}

/// An account to create.
pub struct ProvisionRequest {
    pub name: String,
    pub email: String,
    pub role: String,
    pub metadata: Vec<(String, String)>,
    pub teacher_class_ids: Vec<String>,
    pub teacher_subject_ids: Vec<String>,
    pub student_class_id: Option<String>,
    pub student_parent_user_id: Option<String>,
    pub parent_student_user_ids: Vec<String>,
}

pub open spec fn pairs_view(v: Seq<(String, String)>) -> Seq<(Seq<char>, Seq<char>)> {
    v.map_values(|p: (String, String)| (p.0@, p.1@))
}

/// A copy of a list of texts.
pub fn copy_texts(v: &Vec<String>) -> (res: Vec<String>)
    ensures
        res@ == v@,
{
    let mut out: Vec<String> = Vec::new();
    let mut i: usize = 0;
    while i < v.len()
        invariant
            i <= v.len(),
            out@ == v@.take(i as int),
        decreases v.len() - i,
    {
        out.push(v[i].clone());
        i = i + 1;
        assert(out@ =~= v@.take(i as int));
    }
    assert(v@.take(v.len() as int) =~= v@);
    out
}

fn pair(k: &str, v: &String) -> (res: (String, String))
    ensures
        res.0@ == k@ && res.1@ == v@,
{
    (k.to_owned(), v.clone())
}

fn build_metadata(role: ProvisionRole, f: &ProvisionFields) -> (res: Vec<(String, String)>)
    ensures
        pairs_view(res@) == metadata_pairs(role, *f),
{
    let mut m: Vec<(String, String)> = Vec::new();
    match role {
        ProvisionRole::Student => {
            m.push(pair("phone", &f.phone));
            m.push(pair("date_of_birth", &f.date_of_birth));
            m.push(pair("student_id", &f.external_id));
            m.push(pair("grade_level", &f.grade_level));
            m.push(pair("enrollment_date", &f.enrollment_date));
            m.push(pair("academic_year", &f.academic_year));
        },
        ProvisionRole::Teacher => {
            m.push(pair("phone", &f.phone));
            m.push(pair("employee_id", &f.external_id));
            m.push(pair("department", &f.department));
            m.push(pair("hire_date", &f.hire_date));
            m.push(pair("qualifications", &f.qualifications));
        },
        ProvisionRole::Parent => {
            m.push(pair("phone", &f.phone));
            m.push(pair("parent_id", &f.external_id));
        },
        ProvisionRole::Other => {},
    }
    assert(pairs_view(m@) =~= metadata_pairs(role, *f));
    m
}

/// The account a valid form becomes: the trimmed names joined by a space,
/// the trimmed email, the role text, the role's details, and only the
/// relationships of that role (optional single links left out when empty).
pub open spec fn request_matches(r: ProvisionRequest, role_text: Seq<char>, f: ProvisionFields) -> bool {
    let role = role_of(role_text);
    &&& r.name@ == trimmed(f.first_name@) + " "@ + trimmed(f.last_name@)
    &&& r.email@ == trimmed(f.email@)
    &&& r.role@ == role_text
    &&& pairs_view(r.metadata@) == metadata_pairs(role, f)
    &&& r.teacher_class_ids@ == (if role == ProvisionRole::Teacher { f.teacher_class_ids@ } else { Seq::empty() })
    &&& r.teacher_subject_ids@ == (if role == ProvisionRole::Teacher { f.teacher_subject_ids@ } else { Seq::empty() })
    &&& r.parent_student_user_ids@ == (if role == ProvisionRole::Parent { f.parent_student_user_ids@ } else { Seq::empty() })
    &&& (if role == ProvisionRole::Student && f.student_class_id@.len() > 0 {
        r.student_class_id matches Some(c) && c@ == f.student_class_id@
    } else {
        r.student_class_id.is_none()
    })
    &&& (if role == ProvisionRole::Student && f.student_parent_user_id@.len() > 0 {
        r.student_parent_user_id matches Some(p) && p@ == f.student_parent_user_id@
    } else {
        r.student_parent_user_id.is_none()
    })
}

/// Checks the form and, when it is complete, builds the account request.
pub fn build_provision_request(role_text: &str, f: &ProvisionFields) -> (res: Result<ProvisionRequest, ProvisionError>)
    ensures
        match res {
            Ok(r) => provision_check(role_of(role_text@), *f).is_none() && request_matches(r, role_text@, *f),
            Err(e) => provision_check(role_of(role_text@), *f) == Some(e),
        },
{
    let role = parse_role(role_text);
    if let Some(e) = check_provision_fields(role, f) {
        return Err(e);
    }
    let mut name = trim(f.first_name.as_str()).to_owned();
    push_char(&mut name, ' ');
    push_str(&mut name, trim(f.last_name.as_str()));
    proof {
        reveal_strlit(" ");
        assert(name@ =~= trimmed(f.first_name@) + " "@ + trimmed(f.last_name@));
    }
    let is_teacher = role == ProvisionRole::Teacher;
    let is_student = role == ProvisionRole::Student;
    let is_parent = role == ProvisionRole::Parent;
    let r = ProvisionRequest {
        name,
        email: trim(f.email.as_str()).to_owned(),
        role: role_text.to_owned(),
        metadata: build_metadata(role, f),
        teacher_class_ids: if is_teacher { copy_texts(&f.teacher_class_ids) } else { Vec::new() },
        teacher_subject_ids: if is_teacher { copy_texts(&f.teacher_subject_ids) } else { Vec::new() },
        student_class_id: if is_student && !f.student_class_id.as_str().is_empty() {
            Some(f.student_class_id.clone())
        } else {
            None
        },
        student_parent_user_id: if is_student && !f.student_parent_user_id.as_str().is_empty() {
            Some(f.student_parent_user_id.clone())
        } else {
            None
        },
        parent_student_user_ids: if is_parent { copy_texts(&f.parent_student_user_ids) } else { Vec::new() },
    };
    Ok(r)
}

/// The server's refusal, by the error code its text carries.
pub open spec fn user_error_text(raw: Seq<char>) -> Seq<char> {
    if contains_seq(raw, "user.duplicate_email"@) {
        "That email is already in use."@
    } else if contains_seq(raw, "user.student_relationship_conflict"@) {
        "One of the selected students is unavailable or is already linked to another parent."@
    } else if contains_seq(raw, "user.class_outside_school"@) || contains_seq(raw, "user.parent_outside_school"@)
        || contains_seq(raw, "user.subject_invalid"@) {
        "One of the selected relationships is no longer available for this school. Refresh and try again."@
    } else if contains_seq(raw, "user.provisioning_reconciliation_required"@) {
        "The account could not be completed and requires administrator reconciliation. Do not retry with the same email until the issue is checked."@
    } else if contains_seq(raw, "user.auth_creation_failed"@) {
        "The authentication account could not be created. Check whether the email is already registered and try again."@
    } else {
        "The account could not be created. Refresh the available school relationships and try again."@
    }
}

/// The message for a refused account creation; the server's own text is
/// never shown.
pub fn user_error_message(raw: &str) -> (res: String)
    ensures
        res@ == user_error_text(raw@),
{
    let t = if contains(raw, "user.duplicate_email") {
        "That email is already in use."
    } else if contains(raw, "user.student_relationship_conflict") {
        "One of the selected students is unavailable or is already linked to another parent."
    } else if contains(raw, "user.class_outside_school") || contains(raw, "user.parent_outside_school")
        || contains(raw, "user.subject_invalid") {
        "One of the selected relationships is no longer available for this school. Refresh and try again."
    } else if contains(raw, "user.provisioning_reconciliation_required") {
        "The account could not be completed and requires administrator reconciliation. Do not retry with the same email until the issue is checked."
    } else if contains(raw, "user.auth_creation_failed") {
        "The authentication account could not be created. Check whether the email is already registered and try again."
    } else {
        "The account could not be created. Refresh the available school relationships and try again."
    };
    t.to_owned()
}

/// The texts of a list of strings.
pub open spec fn texts(v: Seq<String>) -> Seq<Seq<char>> {
    v.map_values(|x: String| x@)
}

/// Texts other than `value`.
pub open spec fn differs_from(value: Seq<char>) -> spec_fn(Seq<char>) -> bool {
    |x: Seq<char>| x != value
}

/// A checkbox list after clicking `value`: every copy removed when it was
/// checked, else appended.
pub open spec fn toggled(values: Seq<Seq<char>>, value: Seq<char>) -> Seq<Seq<char>> {
    if values.contains(value) {
        values.filter(differs_from(value))
    } else {
        values.push(value)
    }
}

/// Clicks the checkbox of `value`.
pub fn toggle_value(values: &mut Vec<String>, value: &String)
    ensures
        texts(final(values)@) == toggled(texts(old(values)@), value@),
{
    let ghost vs = texts(values@);
    let mut found = false;
    let mut i: usize = 0;
    while i < values.len()
        invariant
            vs == texts(values@),
            i <= values.len(),
            found == vs.take(i as int).contains(value@),
        decreases values.len() - i,
    {
        assert(vs.take(i + 1) =~= vs.take(i as int).push(vs[i as int]));
        if same_text(values[i].as_str(), value.as_str()) {
            assert(vs.take(i + 1).contains(value@)) by {
                assert(vs.take(i + 1)[i as int] == value@);
            }
            found = true;
        }
        i = i + 1;
    }
    assert(vs.take(values.len() as int) =~= vs);
    if found {
        let mut kept: Vec<String> = Vec::new();
        let mut j: usize = 0;
        while j < values.len()
            invariant
                vs == texts(values@),
                j <= values.len(),
                texts(kept@) == vs.take(j as int).filter(differs_from(value@)),
            decreases values.len() - j,
        {
            assert(vs.take(j + 1) =~= vs.take(j as int).push(vs[j as int]));
            proof {
                vs.take(j as int).lemma_filter_push(vs[j as int], differs_from(value@));
            }
            let keep = !same_text(values[j].as_str(), value.as_str());
            if keep {
                kept.push(values[j].clone());
                assert(texts(kept@) =~= vs.take(j as int).filter(differs_from(value@)).push(vs[j as int]));
            }
            j = j + 1;
        }
        assert(vs.take(values.len() as int) =~= vs);
        *values = kept;
    } else {
        values.push(value.clone());
        assert(texts(values@) =~= vs.push(value@));
    }
}

/// Clicking a checkbox twice puts its value back to where it was checked or
/// not, and leaves every other value as it was.
pub proof fn lemma_toggle_twice_restores_membership(values: Seq<Seq<char>>, value: Seq<char>, other: Seq<char>)
    ensures
        toggled(values, value).contains(value) == !values.contains(value),
        toggled(toggled(values, value), value).contains(value) == values.contains(value),
        other != value ==> (toggled(values, value).contains(other) == values.contains(other)),
{
    broadcast use vstd::seq_lib::group_filter_ensures, Seq::lemma_filter_contains_rev;

    let t = toggled(values, value);
    if values.contains(value) {
        assert(!t.contains(value)) by {
            if t.contains(value) {
                let k = choose|k: int| 0 <= k < t.len() && t[k] == value;
                assert(t[k] != value);
            }
        }
        assert(toggled(t, value) == t.push(value));
        assert(t.push(value)[t.len() as int] == value);
        if other != value && values.contains(other) {
            let k = choose|k: int| 0 <= k < values.len() && values[k] == other;
            assert(t.contains(values[k]));
        }
        if t.contains(other) {
            values.lemma_filter_contains_rev(differs_from(value), other);
        }
    } else {
        assert(t == values.push(value));
        assert(t[values.len() as int] == value);
        let u = toggled(t, value);
        assert(!u.contains(value)) by {
            if u.contains(value) {
                let k = choose|k: int| 0 <= k < u.len() && u[k] == value;
                assert(u[k] != value);
            }
        }
        if other != value && t.contains(other) {
            let k = choose|k: int| 0 <= k < t.len() && t[k] == other;
            assert(k < values.len());
            assert(values[k] == other);
        }
        if values.contains(other) {
            let k = choose|k: int| 0 <= k < values.len() && values[k] == other;
            assert(t[k] == other);
        }
    }
}


fn empty_fields() -> (res: ProvisionFields)
    ensures
        fields_cleared(res),
{
    ProvisionFields {
        first_name: String::new(),
        last_name: String::new(),
        email: String::new(),
        phone: String::new(),
        date_of_birth: String::new(),
        external_id: String::new(),
        grade_level: String::new(),
        enrollment_date: String::new(),
        academic_year: String::new(),
        department: String::new(),
        hire_date: String::new(),
        qualifications: String::new(),
        student_class_id: String::new(),
        student_parent_user_id: String::new(),
        teacher_class_ids: Vec::new(),
        teacher_subject_ids: Vec::new(),
        parent_student_user_ids: Vec::new(),
    }
}

/// Every field of the form is empty.
pub open spec fn fields_cleared(f: ProvisionFields) -> bool {
    &&& f.first_name@.len() == 0 && f.last_name@.len() == 0 && f.email@.len() == 0
    &&& f.phone@.len() == 0 && f.date_of_birth@.len() == 0 && f.external_id@.len() == 0
    &&& f.grade_level@.len() == 0 && f.enrollment_date@.len() == 0 && f.academic_year@.len() == 0
    &&& f.department@.len() == 0 && f.hire_date@.len() == 0 && f.qualifications@.len() == 0
    &&& f.student_class_id@.len() == 0 && f.student_parent_user_id@.len() == 0
    &&& f.teacher_class_ids@.len() == 0 && f.teacher_subject_ids@.len() == 0
    &&& f.parent_student_user_ids@.len() == 0
}

/// The account-creation form: its fields, whether a creation is under way,
/// the error line, and the one-time credential of the last created account
/// with whether it is shown.
pub struct ProvisioningForm {
    pub fields: ProvisionFields,
    pub submitting: bool,
    pub error: Option<String>,
    pub temporary_password: Option<String>,
    pub reveal_password: bool,
}

/// What the credential box shows: the credential when revealed, else a mask.
pub open spec fn credential_display_text(password: Seq<char>, revealed: bool) -> Seq<char> {
    if revealed {
        password
    } else {
        "••••••••••••••••"@
    }
}

impl ProvisioningForm {
    pub fn new() -> (res: Self)
        ensures
            fields_cleared(res.fields),
            !res.submitting && res.error.is_none() && res.temporary_password.is_none() && !res.reveal_password,
    {
        ProvisioningForm {
            fields: empty_fields(),
            submitting: false,
            error: None,
            temporary_password: None,
            reveal_password: false,
        }
    }

    /// The form submitted for `role`: nothing while a creation is under
    /// way; a missing field is reported; else the request goes out, the
    /// previous credential is dropped and hidden.
    pub fn submit(&mut self, role: &str) -> (res: Option<ProvisionRequest>)
        ensures
            old(self).submitting ==> res.is_none() && final(self).submitting && final(self).error == old(self).error
                && final(self).temporary_password == old(self).temporary_password
                && final(self).reveal_password == old(self).reveal_password,
            !old(self).submitting ==> match provision_check(role_of(role@), old(self).fields) {
                Some(e) => final(self).error matches Some(m) && m@ == provision_error_text(e) && res.is_none()
                    && !final(self).submitting && final(self).temporary_password == old(self).temporary_password,
                None => res matches Some(r) && request_matches(r, role@, old(self).fields) && final(self).submitting
                    && final(self).error.is_none() && final(self).temporary_password.is_none()
                    && !final(self).reveal_password,
            },
            final(self).fields == old(self).fields,
    {
        if self.submitting {
            return None;
        }
        match build_provision_request(role, &self.fields) {
            Err(e) => {
                self.error = Some(e.message());
                None
            },
            Ok(r) => {
                self.submitting = true;
                self.error = None;
                self.temporary_password = None;
                self.reveal_password = false;
                Some(r)
            },
        }
    }

    /// The server's answer: the one-time credential of the created account
    /// (the form empties), or its error text (shown as a fixed message).
    pub fn finished(&mut self, result: Result<String, String>)
        ensures
            !final(self).submitting,
            match result {
                Ok(p) => final(self).temporary_password matches Some(q) && q@ == p@ && fields_cleared(final(self).fields)
                    && final(self).error == old(self).error && final(self).reveal_password == old(self).reveal_password,
                Err(raw) => final(self).error matches Some(m) && m@ == user_error_text(raw@) && final(self).fields
                    == old(self).fields && final(self).temporary_password == old(self).temporary_password,
            },
    {
        match result {
            Ok(p) => {
                self.temporary_password = Some(p);
                self.fields = empty_fields();
            },
            Err(raw) => {
                self.error = Some(user_error_message(raw.as_str()));
            },
        }
        self.submitting = false;
    }

    /// "Reveal once" / "Hide".
    pub fn toggle_reveal(&mut self)
        ensures
            final(self).reveal_password == !old(self).reveal_password,
            final(self).temporary_password == old(self).temporary_password,
            final(self).fields == old(self).fields,
    {
        self.reveal_password = !self.reveal_password;
    }

    /// What the credential box shows, if a credential is held.
    pub fn credential_display(&self) -> (res: Option<String>)
        ensures
            match self.temporary_password {
                Some(p) => res matches Some(d) && d@ == credential_display_text(p@, self.reveal_password),
                None => res.is_none(),
            },
    {
        match &self.temporary_password {
            Some(p) => Some(if self.reveal_password {
                p.clone()
            } else {
                proof {
                    reveal_strlit("••••••••••••••••");
                }
                "••••••••••••••••".to_owned()
            }),
            None => None,
        }
    }
}

/// The label of a class option: `name · subject`.
pub fn class_option_label(name: &str, subject_name: &str) -> (res: String)
    ensures
        res@ == name@ + " · "@ + subject_name@,
{
    let mut s = name.to_owned();
    push_str(&mut s, " · ");
    push_str(&mut s, subject_name);
    proof {
        reveal_strlit(" · ");
    }
    s
}

/// The label of a subject option: `name (code)`.
pub fn subject_option_label(name: &str, code: &str) -> (res: String)
    ensures
        res@ == name@ + " ("@ + code@ + ")"@,
{
    let mut s = name.to_owned();
    push_str(&mut s, " (");
    push_str(&mut s, code);
    push_str(&mut s, ")");
    proof {
        reveal_strlit(" (");
        reveal_strlit(")");
    }
    s
}

/// The label of a user option: `name · email`.
pub fn user_option_label(name: &str, email: &str) -> (res: String)
    ensures
        res@ == name@ + " · "@ + email@,
{
    class_option_label(name, email)
}

/// ASCII upper-case letters lowered, spaces turned into hyphens.
pub open spec fn id_char(c: char) -> char {
    if 'A' <= c <= 'Z' {
        ((c as u32) + 32) as char
    } else if c == ' ' {
        '-'
    } else {
        c
    }
}

/// The id of a form input: `provision-` and the label in lower case with
/// hyphens for spaces.
pub open spec fn input_id_text(label: Seq<char>) -> Seq<char> {
    "provision-"@ + label.map_values(|c: char| id_char(c))
}

pub fn input_id(label: &str) -> (res: String)
    ensures
        res@ == input_id_text(label@),
{
    let cs = crate::text::chars_of(label);
    let mut s = "provision-".to_owned();
    proof {
        reveal_strlit("provision-");
    }
    let mut i: usize = 0;
    while i < cs.len()
        invariant
            cs@ == label@,
            i <= cs.len(),
            s@ == "provision-"@ + label@.take(i as int).map_values(|c: char| id_char(c)),
        decreases cs.len() - i,
    {
        let c = cs[i];
        let d = if 'A' <= c && c <= 'Z' {
            ((c as u32) + 32) as u8 as char
        } else if c == ' ' {
            '-'
        } else {
            c
        };
        assert(d == id_char(c)) by {
            if 'A' <= c <= 'Z' {
                assert(((c as u32) + 32) as u8 as char == ((c as u32) + 32) as char);
            }
        }
        push_char(&mut s, d);
        assert(label@.take(i + 1).map_values(|c: char| id_char(c)) =~= label@.take(i as int).map_values(
            |c: char| id_char(c),
        ).push(id_char(c)));
        i = i + 1;
    }
    assert(label@.take(cs.len() as int) =~= label@);
    s
}

/// The guide beside the form: title and text for the role.
pub fn guide_text(role: ProvisionRole) -> (res: (&'static str, &'static str))
    ensures
        (res.0@, res.1@) == match role {
            ProvisionRole::Teacher => ("Teacher provisioning guide"@, "Choose the subjects the teacher can teach and, if classes already exist, assign those classes. The server validates every class before creating the account."@),
            ProvisionRole::Parent => ("Parent provisioning guide"@, "Create the student first, then link one or more active students here. The parent will only see students explicitly linked within this school."@),
            _ => ("Student provisioning guide"@, "You may enroll the new student in an existing class and optionally link an existing parent. Leaving either relationship empty does not create placeholder data."@),
        },
{
    proof {
        reveal_strlit("Teacher provisioning guide");
        reveal_strlit("Parent provisioning guide");
        reveal_strlit("Student provisioning guide");
        reveal_strlit("Choose the subjects the teacher can teach and, if classes already exist, assign those classes. The server validates every class before creating the account.");
        reveal_strlit("Create the student first, then link one or more active students here. The parent will only see students explicitly linked within this school.");
        reveal_strlit("You may enroll the new student in an existing class and optionally link an existing parent. Leaving either relationship empty does not create placeholder data.");
    }
    match role {
        ProvisionRole::Teacher => (
            "Teacher provisioning guide",
            "Choose the subjects the teacher can teach and, if classes already exist, assign those classes. The server validates every class before creating the account.",
        ),
        ProvisionRole::Parent => (
            "Parent provisioning guide",
            "Create the student first, then link one or more active students here. The parent will only see students explicitly linked within this school.",
        ),
        _ => (
            "Student provisioning guide",
            "You may enroll the new student in an existing class and optionally link an existing parent. Leaving either relationship empty does not create placeholder data.",
        ),
    }
}

} // verus!
