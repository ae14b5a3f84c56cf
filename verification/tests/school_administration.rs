use edutalent::class_management::{
    detail_title, teacher_label, validate_class_form, ClassForm, ClassFormError, EnrollmentError, EnrollmentPanel,
};
use edutalent::provisioning::{
    build_provision_request, guide_text, input_id, parse_role, toggle_value, user_error_message, ProvisionError,
    ProvisionFields, ProvisionRole, ProvisioningForm,
};
use edutalent::user_directory::{
    avatar_initial, date_part, directory_query, load_error_message, user_action_message, UserEditor, UserFilters,
};

#[test]
fn class_form_reports_the_first_missing_field() {
    assert_eq!(validate_class_form(" ", "s", "t"), Some(ClassFormError::NameRequired));
    assert_eq!(validate_class_form("7A", "", "t"), Some(ClassFormError::SubjectRequired));
    assert_eq!(validate_class_form("7A", "s", "  "), Some(ClassFormError::TermRequired));
    assert_eq!(validate_class_form("7A", "s", "2026"), None);
    assert_eq!(ClassFormError::TermRequired.key(), Some("school_manager.classes.errors.term_required"));
    assert_eq!(ClassFormError::CreateFailed.key(), None);
}

#[test]
fn creating_a_class_sends_the_fields_as_entered_and_resets_the_form() {
    let mut form = ClassForm::new();
    form.open_dialog();
    form.name = " 7A ".to_string();
    form.subject_id = "math".to_string();
    form.term = "Fall".to_string();
    let request = form.submit().unwrap();
    assert_eq!(request.name, " 7A ");
    assert!(form.submitting);
    form.close_dialog();
    assert!(form.open);
    form.creation_finished(true, false, false);
    assert!(!form.open && form.name.is_empty());
    assert_eq!(
        form.notice,
        Some((false, "Class was created, but the class list could not be refreshed. Try again.".to_string()))
    );
}

#[test]
fn a_refused_class_keeps_the_form() {
    let mut form = ClassForm::new();
    form.name = "7A".to_string();
    form.subject_id = "math".to_string();
    form.term = "Fall".to_string();
    form.submit();
    form.creation_finished(false, false, true);
    assert_eq!(form.error, Some(ClassFormError::CreateFailed));
    assert_eq!(form.name, "7A");
}

#[test]
fn enrolment_requires_a_student_and_reports_server_errors() {
    let mut panel = EnrollmentPanel::new();
    assert!(panel.enroll().is_none());
    assert_eq!(panel.error, Some(EnrollmentError::SelectStudent));
    panel.selected_student = "st1".to_string();
    assert_eq!(panel.enroll(), Some("st1".to_string()));
    assert!(panel.loading);
    assert!(panel.finished(false, None));
    assert!(panel.selected_student.is_empty());
    panel.start_removal();
    assert!(!panel.finished(true, Some("gone".to_string())));
    assert_eq!(panel.error, Some(EnrollmentError::RemoveFailed));
    assert_eq!(panel.server_error, "gone");
    assert_eq!(EnrollmentError::EnrollFailed.key(), "school_manager.classes.errors.enroll_failed");
}

#[test]
fn class_titles_and_teachers() {
    assert_eq!(detail_title("Class {class} details", "7A"), "Class 7A details");
    assert_eq!(teacher_label(&None), "—");
    assert_eq!(teacher_label(&Some("Ms. K".to_string())), "Ms. K");
}

fn fields() -> ProvisionFields {
    ProvisionFields {
        first_name: " Sara ".to_string(),
        last_name: "Ahmadi".to_string(),
        email: " sara@example.com ".to_string(),
        phone: "0912".to_string(),
        date_of_birth: "2012-01-01".to_string(),
        external_id: "S-1".to_string(),
        grade_level: "8".to_string(),
        enrollment_date: "2026-09-01".to_string(),
        academic_year: "2026–2027".to_string(),
        department: String::new(),
        hire_date: String::new(),
        qualifications: String::new(),
        student_class_id: "c1".to_string(),
        student_parent_user_id: String::new(),
        teacher_class_ids: vec!["c9".to_string()],
        teacher_subject_ids: vec![],
        parent_student_user_ids: vec![],
    }
}

#[test]
fn student_accounts_carry_only_student_relationships() {
    let request = build_provision_request("Student", &fields()).ok().unwrap();
    assert_eq!(request.name, "Sara Ahmadi");
    assert_eq!(request.email, "sara@example.com");
    assert_eq!(request.student_class_id, Some("c1".to_string()));
    assert_eq!(request.student_parent_user_id, None);
    assert!(request.teacher_class_ids.is_empty());
    assert_eq!(request.metadata[2], ("student_id".to_string(), "S-1".to_string()));
    assert_eq!(request.metadata.len(), 6);
}

#[test]
fn each_role_has_its_required_fields() {
    assert!(matches!(build_provision_request("Teacher", &fields()), Err(ProvisionError::TeacherRequired)));
    assert!(matches!(build_provision_request("Parent", &fields()), Err(ProvisionError::ParentRequired)));
    let mut missing = fields();
    missing.email = "   ".to_string();
    assert!(matches!(build_provision_request("Student", &missing), Err(ProvisionError::Required)));
    let mut teacher = fields();
    teacher.department = "Science".to_string();
    teacher.hire_date = "2020-01-01".to_string();
    teacher.teacher_subject_ids = vec!["math".to_string()];
    let request = build_provision_request("Teacher", &teacher).ok().unwrap();
    assert_eq!(request.teacher_class_ids, vec!["c9".to_string()]);
    assert_eq!(request.student_class_id, None);
    assert_eq!(parse_role("Admin"), ProvisionRole::Other);
    assert_eq!(ProvisionError::ParentRequired.message(), "Phone, parent ID, and at least one associated student are required for a parent.");
}

#[test]
fn server_refusals_become_fixed_messages() {
    assert_eq!(user_error_message("error: user.duplicate_email"), "That email is already in use.");
    assert_eq!(
        user_error_message("user.subject_invalid"),
        "One of the selected relationships is no longer available for this school. Refresh and try again."
    );
    assert_eq!(
        user_error_message("internal: stack trace"),
        "The account could not be created. Refresh the available school relationships and try again."
    );
}

#[test]
fn the_credential_is_shown_once_and_masked_until_revealed() {
    let mut form = ProvisioningForm::new();
    form.fields = fields();
    assert!(form.submit("Student").is_some());
    assert!(form.submit("Student").is_none());
    form.finished(Ok("Temp#123".to_string()));
    assert!(form.fields.first_name.is_empty());
    assert_eq!(form.credential_display(), Some("••••••••••••••••".to_string()));
    form.toggle_reveal();
    assert_eq!(form.credential_display(), Some("Temp#123".to_string()));
    form.fields = fields();
    form.submit("Student");
    assert_eq!(form.credential_display(), None);
    assert!(!form.reveal_password);
}

#[test]
fn checkbox_toggling_adds_and_removes_every_copy() {
    let mut values = vec!["a".to_string(), "b".to_string(), "a".to_string()];
    toggle_value(&mut values, &"a".to_string());
    assert_eq!(values, vec!["b".to_string()]);
    toggle_value(&mut values, &"c".to_string());
    assert_eq!(values, vec!["b".to_string(), "c".to_string()]);
    toggle_value(&mut values, &"c".to_string());
    assert_eq!(values, vec!["b".to_string()]);
}

#[test]
fn form_ids_and_guides() {
    assert_eq!(input_id("Date of birth"), "provision-date-of-birth");
    assert_eq!(guide_text(ProvisionRole::Parent).0, "Parent provisioning guide");
}

#[test]
fn directory_filters_become_a_server_query() {
    let initial = UserFilters::initial(None);
    let query = directory_query(&initial);
    assert_eq!((query.role, query.status, query.query), (None, None, None));
    let filters = UserFilters { role: "Teacher".to_string(), status: "Active".to_string(), query: "sa".to_string() };
    let query = directory_query(&filters);
    assert_eq!(query.role, Some("Teacher".to_string()));
    assert_eq!(query.status, Some("active".to_string()));
    assert_eq!(query.query, Some("sa".to_string()));
    assert!(filters.matches(&UserFilters::initial(Some(&filters))));
    assert!(!filters.matches(&initial));
}

#[test]
fn directory_rows_and_messages() {
    assert_eq!(date_part("2026-03-01T10:00:00Z"), "2026-03-01");
    assert_eq!(date_part("no time"), "no time");
    assert_eq!(avatar_initial("Reza"), 'R');
    assert_eq!(avatar_initial(""), 'U');
    assert_eq!(user_action_message("Failed: ", Some("timeout")), "Failed: timeout");
    assert_eq!(load_error_message("Could not load ({e})", "503"), "Could not load (503)");
    let mut editor = UserEditor::open("u1", "Old", "old@x");
    editor.name = "New".to_string();
    assert_eq!(editor.save(), ("u1".to_string(), "New".to_string(), "old@x".to_string()));
    assert!(!editor.save_finished(Some("bad".to_string())));
    assert!(editor.save_finished(None));
}
