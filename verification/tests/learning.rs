use edutalent::class_views::{card_accent, dialog_title, enrolled_count_text, material_link, material_look, total_classes};
use edutalent::student_assignments::StudentAssignmentPresentationState::{Graded, Overdue, Pending, Submitted};
use edutalent::student_assignments::{
    assignment_action_key, assignment_action_label, assignment_matches_filter, detail_state, pending_count,
    points_text, upcoming, visible_assignments, AssignmentSummary, StudentAssignmentPresentationState, WorkEditor,
    WorkError,
};

#[test]
fn filters_use_the_canonical_presentation_state() {
    assert!(assignment_matches_filter(StudentAssignmentPresentationState::Pending, "pending"));
    assert!(assignment_matches_filter(StudentAssignmentPresentationState::Overdue, "overdue"));
    assert!(!assignment_matches_filter(StudentAssignmentPresentationState::Overdue, "pending"));
    assert!(assignment_matches_filter(StudentAssignmentPresentationState::Submitted, "submitted"));
    assert!(assignment_matches_filter(StudentAssignmentPresentationState::Graded, "graded"));
}

#[test]
fn every_state_shows_under_all_and_its_own_filter_only() {
    let names = ["pending", "overdue", "submitted", "graded"];
    for (i, state) in [Pending, Overdue, Submitted, Graded].into_iter().enumerate() {
        assert!(assignment_matches_filter(state, "all"));
        assert!(!assignment_matches_filter(state, "archived"));
        for (j, name) in names.iter().enumerate() {
            assert_eq!(assignment_matches_filter(state, name), i == j);
        }
    }
}

#[test]
fn late_work_uses_the_late_submission_action() {
    assert_eq!(assignment_action_key(StudentAssignmentPresentationState::Overdue), "student.assignments.action_late");
    assert_eq!(
        assignment_action_label(StudentAssignmentPresentationState::Overdue, Some("Submit late")),
        "Submit late"
    );
    assert_eq!(
        assignment_action_label(StudentAssignmentPresentationState::Graded, None),
        "student.assignments.action_feedback"
    );
}

fn item(id: &str, state: StudentAssignmentPresentationState) -> AssignmentSummary {
    AssignmentSummary {
        id: id.to_string(),
        title: format!("Task {id}"),
        due_date: "2026-05-01".to_string(),
        points: None,
        grade: None,
        presentation_state: state,
    }
}

#[test]
fn upcoming_queue_excludes_submitted_and_graded_work() {
    let items = vec![
        item("1", Submitted),
        item("2", Pending),
        item("3", Overdue),
        item("4", Pending),
        item("5", Graded),
        item("6", Pending),
        item("7", Pending),
        item("8", Pending),
        item("9", Pending),
    ];
    let queue = upcoming(&items);
    assert_eq!(queue.iter().map(|a| a.id.as_str()).collect::<Vec<_>>(), vec!["2", "4", "6", "7", "8"]);
    assert_eq!(pending_count(&items), 7);
    assert_eq!(visible_assignments(&items, "overdue").len(), 1);
    assert_eq!(visible_assignments(&items, "all").len(), 9);
    assert!(visible_assignments(&items, "nonsense").is_empty());
}

#[test]
fn graded_submissions_show_as_graded() {
    assert_eq!(detail_state(Submitted, true), Graded);
    assert_eq!(detail_state(Pending, false), Pending);
    assert_eq!(points_text(&Some("20".to_string()), "points", "unspecified"), "20 points");
    assert_eq!(points_text(&None, "points", "Points not specified"), "Points not specified");
}

#[test]
fn the_work_editor_loads_once_and_submits_trimmed_work() {
    let mut editor = WorkEditor::open("as1");
    editor.existing_loaded(Some(Some("draft".to_string())));
    editor.edit("  my answer ".to_string());
    editor.existing_loaded(Some(Some("server copy".to_string())));
    assert_eq!(editor.content, "  my answer ");
    assert_eq!(editor.submit(), Some(("as1".to_string(), "my answer".to_string())));
    assert!(!editor.can_close());
    assert!(!editor.finished(false));
    assert_eq!(editor.error, Some(WorkError::SaveFailed));
    editor.edit("   ".to_string());
    assert!(editor.submit().is_none());
    assert_eq!(editor.error, Some(WorkError::EnterWork));
    assert_eq!(WorkError::EnterWork.key(), "student.assignments.enter_work");
}

#[test]
fn class_cards_and_materials() {
    assert_eq!(card_accent("Math"), ("from-blue-600", "to-blue-400"));
    assert_eq!(card_accent("Art"), ("from-amber-600", "to-orange-400"));
    assert_eq!(material_look("video"), ("play_circle", "text-red-500"));
    assert_eq!(material_look("zip"), ("folder", "text-gray-500"));
    assert_eq!(material_link(&None, &Some("https://x".to_string())), Some("https://x".to_string()));
    assert_eq!(material_link(&None, &None), None);
    assert_eq!(dialog_title("7A", "Grades"), "7A - Grades");
    assert_eq!(total_classes(&vec![2, 3, 0]), 5);
    assert_eq!(enrolled_count_text(Some(12)), "12");
    assert_eq!(enrolled_count_text(None), "—");
}
