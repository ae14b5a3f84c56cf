//! A student's assignments: the presentation states and their filters,
//! the overview's counts, the detail and work dialogs, and the submission
//! editor.

use vstd::prelude::*;
use crate::text::{is_blank, push_str, same_text, trim, trimmed};

verus! {

/// Where an assignment stands for the student, as the server presents it.
#[derive(PartialEq, Eq, Structural, Clone, Copy, Debug)]
pub enum StudentAssignmentPresentationState {
    Pending,
    Overdue,
    Submitted,
    Graded,
}

/// Whether an assignment in `state` is shown under the filter `filter`:
/// every one under `all`, those in the named state under a state's name,
/// none under an unknown filter.
pub open spec fn matches_filter(state: StudentAssignmentPresentationState, filter: Seq<char>) -> bool {
    if filter == "all"@ {
        true
    } else if filter == "pending"@ {
        state == StudentAssignmentPresentationState::Pending
    } else if filter == "overdue"@ {
        state == StudentAssignmentPresentationState::Overdue
    } else if filter == "submitted"@ {
        state == StudentAssignmentPresentationState::Submitted
    } else if filter == "graded"@ {
        state == StudentAssignmentPresentationState::Graded
    } else {
        false
    }
}

pub fn assignment_matches_filter(state: StudentAssignmentPresentationState, filter: &str) -> (res: bool)
    ensures
        res == matches_filter(state, filter@),
{
    if same_text(filter, "all") {
        true
    } else if same_text(filter, "pending") {
        state == StudentAssignmentPresentationState::Pending
    } else if same_text(filter, "overdue") {
        state == StudentAssignmentPresentationState::Overdue
    } else if same_text(filter, "submitted") {
        state == StudentAssignmentPresentationState::Submitted
    } else if same_text(filter, "graded") {
        state == StudentAssignmentPresentationState::Graded
    } else {
        false
    }
}

/// The filter named after a state.
pub open spec fn state_filter(state: StudentAssignmentPresentationState) -> Seq<char> {
    match state {
        StudentAssignmentPresentationState::Pending => "pending"@,
        StudentAssignmentPresentationState::Overdue => "overdue"@,
        StudentAssignmentPresentationState::Submitted => "submitted"@,
        StudentAssignmentPresentationState::Graded => "graded"@,
    }
}

/// The filters partition the assignments: `all` shows every one, and of
/// the four state filters each assignment is shown under exactly the one
/// named after its state.
pub proof fn lemma_filters_partition(state: StudentAssignmentPresentationState, other: StudentAssignmentPresentationState)
    ensures
        matches_filter(state, "all"@),
        matches_filter(state, state_filter(state)),
        other != state ==> !matches_filter(state, state_filter(other)),
{
    reveal_strlit("all");
    reveal_strlit("pending");
    reveal_strlit("overdue");
    reveal_strlit("submitted");
    reveal_strlit("graded");
    lemma_filter_names_differ();
}

proof fn lemma_filter_names_differ()
    ensures
        "pending"@ != "all"@,
        "overdue"@ != "all"@ && "overdue"@ != "pending"@,
        "submitted"@ != "all"@ && "submitted"@ != "pending"@ && "submitted"@ != "overdue"@,
        "graded"@ != "all"@ && "graded"@ != "pending"@ && "graded"@ != "overdue"@ && "graded"@ != "submitted"@,
{
    reveal_strlit("all");
    reveal_strlit("pending");
    reveal_strlit("overdue");
    reveal_strlit("submitted");
    reveal_strlit("graded");
    assert("pending"@.len() != "all"@.len());
    assert("overdue"@[0] != "pending"@[0]);
    assert("graded"@.len() != "pending"@.len());
    assert("submitted"@.len() != "pending"@.len());
    assert("submitted"@.len() != "overdue"@.len());
    assert("graded"@.len() != "submitted"@.len());
    assert("graded"@.len() != "overdue"@.len());
    assert("graded"@.len() != "all"@.len());
    assert("overdue"@.len() != "all"@.len());
    assert("submitted"@.len() != "all"@.len());
}

/// The translation key of a card's action: start, submit late, view the
/// submission, view the feedback.
pub open spec fn action_key(state: StudentAssignmentPresentationState) -> Seq<char> {
    match state {
        StudentAssignmentPresentationState::Pending => "student.assignments.action_start"@,
        StudentAssignmentPresentationState::Overdue => "student.assignments.action_late"@,
        StudentAssignmentPresentationState::Submitted => "student.assignments.action_submission"@,
        StudentAssignmentPresentationState::Graded => "student.assignments.action_feedback"@,
    }
}

pub fn assignment_action_key(state: StudentAssignmentPresentationState) -> (res: &'static str)
    ensures
        res@ == action_key(state),
{
    proof {
        reveal_strlit("student.assignments.action_start");
        reveal_strlit("student.assignments.action_late");
        reveal_strlit("student.assignments.action_submission");
        reveal_strlit("student.assignments.action_feedback");
    }
    match state {
        StudentAssignmentPresentationState::Pending => "student.assignments.action_start",
        StudentAssignmentPresentationState::Overdue => "student.assignments.action_late",
        StudentAssignmentPresentationState::Submitted => "student.assignments.action_submission",
        StudentAssignmentPresentationState::Graded => "student.assignments.action_feedback",
    }
}

/// A translated text, or its key where the table has none.
pub fn localized_or_key(translation: Option<&str>, key: &str) -> (res: String)
    ensures
        res@ == match translation {
            Some(t) => t@,
            None => key@,
        },
{
    match translation {
        Some(t) => t.to_owned(),
        None => key.to_owned(),
    }
}

/// A card's action label: the translation of its key, or the key itself.
pub fn assignment_action_label(state: StudentAssignmentPresentationState, translation: Option<&str>) -> (res: String)
    ensures
        res@ == match translation {
            Some(t) => t@,
            None => action_key(state),
        },
{
    localized_or_key(translation, assignment_action_key(state))
}

/// An assignment as the student's list shows it.
pub struct AssignmentSummary {
    pub id: String,
    pub title: String,
    pub due_date: String,
    pub points: Option<String>,
    pub grade: Option<String>,
    pub presentation_state: StudentAssignmentPresentationState,
}

impl AssignmentSummary {
    pub fn duplicate(&self) -> (res: Self)
        ensures
            res == *self,
    {
        AssignmentSummary {
            id: self.id.clone(),
            title: self.title.clone(),
            due_date: self.due_date.clone(),
            points: crate::knowledge_edit::copy_optional(&self.points),
            grade: crate::knowledge_edit::copy_optional(&self.grade),
            presentation_state: self.presentation_state,
        }
    }
}

/// The assignments a filter shows, in order.
pub open spec fn visible_spec(items: Seq<AssignmentSummary>, filter: Seq<char>) -> Seq<AssignmentSummary>
    decreases items.len(),
{
    if items.len() == 0 {
        Seq::empty()
    } else {
        let rest = visible_spec(items.drop_last(), filter);
        if matches_filter(items.last().presentation_state, filter) {
            rest.push(items.last())
        } else {
            rest
        }
    }
}

pub fn visible_assignments(items: &Vec<AssignmentSummary>, filter: &str) -> (res: Vec<AssignmentSummary>)
    ensures
        res@ == visible_spec(items@, filter@),
{
    let mut out: Vec<AssignmentSummary> = Vec::new();
    let mut i: usize = 0;
    while i < items.len()
        invariant
            i <= items.len(),
            out@ == visible_spec(items@.take(i as int), filter@),
        decreases items.len() - i,
    {
        assert(items@.take(i + 1).drop_last() =~= items@.take(i as int));
        if assignment_matches_filter(items[i].presentation_state, filter) {
            out.push(items[i].duplicate());
        }
        i = i + 1;
    }
    assert(items@.take(items.len() as int) =~= items@);
    out
}

/// Assignments still owed: pending or overdue.
pub open spec fn owed_count(items: Seq<AssignmentSummary>) -> nat
    decreases items.len(),
{
    if items.len() == 0 {
        0
    } else {
        owed_count(items.drop_last()) + if items.last().presentation_state == StudentAssignmentPresentationState::Pending
            || items.last().presentation_state == StudentAssignmentPresentationState::Overdue {
            1nat
        } else {
            0nat
        }
    }
}

/// The overview's count of assignments still owed.
pub fn pending_count(items: &Vec<AssignmentSummary>) -> (res: usize)
    ensures
        res == owed_count(items@),
{
    let mut n: usize = 0;
    let mut i: usize = 0;
    while i < items.len()
        invariant
            i <= items.len(),
            n == owed_count(items@.take(i as int)),
            n <= i,
        decreases items.len() - i,
    {
        assert(items@.take(i + 1).drop_last() =~= items@.take(i as int));
        let s = items[i].presentation_state;
        if s == StudentAssignmentPresentationState::Pending || s == StudentAssignmentPresentationState::Overdue {
            n = n + 1;
        }
        i = i + 1;
    }
    assert(items@.take(items.len() as int) =~= items@);
    n
}

/// The overview's upcoming queue: the first five pending assignments, in
/// order; submitted, graded and overdue work is not in it.
pub open spec fn upcoming_spec(items: Seq<AssignmentSummary>) -> Seq<AssignmentSummary> {
    let pending = visible_spec(items, "pending"@);
    if pending.len() <= 5 {
        pending
    } else {
        pending.take(5)
    }
}

pub fn upcoming(items: &Vec<AssignmentSummary>) -> (res: Vec<AssignmentSummary>)
    ensures
        res@ == upcoming_spec(items@),
        res@.len() <= 5,
        forall|i: int| 0 <= i < res@.len() ==> #[trigger] res@[i].presentation_state == StudentAssignmentPresentationState::Pending,
{
    let pending = visible_assignments(items, "pending");
    proof {
        reveal_strlit("pending");
        lemma_filter_names_differ();
        lemma_visible_states(items@, "pending"@);
        assert forall|i: int| 0 <= i < pending@.len() implies #[trigger] pending@[i].presentation_state
            == StudentAssignmentPresentationState::Pending by {
            assert(matches_filter(pending@[i].presentation_state, "pending"@));
        }
    }
    if pending.len() <= 5 {
        pending
    } else {
        let mut out: Vec<AssignmentSummary> = Vec::new();
        let mut i: usize = 0;
        while i < 5
            invariant
                pending@.len() > 5,
                i <= 5,
                out@ == pending@.take(i as int),
                forall|k: int| 0 <= k < pending@.len() ==> #[trigger] pending@[k].presentation_state
                    == StudentAssignmentPresentationState::Pending,
            decreases 5 - i,
        {
            out.push(pending[i].duplicate());
            i = i + 1;
            assert(out@ =~= pending@.take(i as int));
        }
        out
    }
}

/// Everything a filter shows matches it.
pub proof fn lemma_visible_states(items: Seq<AssignmentSummary>, filter: Seq<char>)
    ensures
        forall|i: int| 0 <= i < visible_spec(items, filter).len() ==> matches_filter(
            #[trigger] visible_spec(items, filter)[i].presentation_state,
            filter,
        ),
        visible_spec(items, filter).len() <= items.len(),
    decreases items.len(),
{
    if items.len() > 0 {
        lemma_visible_states(items.drop_last(), filter);
    }
}

/// The state the detail dialog shows: graded once the latest submission
/// carries a grade, else the listed state.
pub fn detail_state(listed: StudentAssignmentPresentationState, submission_graded: bool) -> (res: StudentAssignmentPresentationState)
    ensures
        res == if submission_graded { StudentAssignmentPresentationState::Graded } else { listed },
{
    if submission_graded {
        StudentAssignmentPresentationState::Graded
    } else {
        listed
    }
}

/// The points line of a card: the points with their label, or the
/// translated "unspecified" text; no number is invented.
pub fn points_text(points: &Option<String>, points_label: &str, unspecified: &str) -> (res: String)
    ensures
        res@ == match points {
            Some(p) => p@ + " "@ + points_label@,
            None => unspecified@,
        },
{
    match points {
        Some(p) => {
            let mut s = p.clone();
            push_str(&mut s, " ");
            push_str(&mut s, points_label);
            proof {
                reveal_strlit(" ");
            }
            s
        },
        None => unspecified.to_owned(),
    }
}

/// Which dialog the assignments page has open.
pub enum AssignmentModal {
    Closed,
    Details(String, StudentAssignmentPresentationState),
    Work(String),
}

/// Why a submission was refused.
#[derive(PartialEq, Eq, Structural, Clone, Copy, Debug)]
pub enum WorkError {
    /// The work is blank.
    EnterWork,
    /// The server did not store it.
    SaveFailed,
}

impl WorkError {
    pub fn key(&self) -> (res: &'static str)
        ensures
            res@ == match *self {
                WorkError::EnterWork => "student.assignments.enter_work"@,
                WorkError::SaveFailed => "student.assignments.save_failed"@,
            },
    {
        proof {
            reveal_strlit("student.assignments.enter_work");
            reveal_strlit("student.assignments.save_failed");
        }
        match self {
            WorkError::EnterWork => "student.assignments.enter_work",
            WorkError::SaveFailed => "student.assignments.save_failed",
        }
    }
}

/// The submission editor of one assignment.
pub struct WorkEditor {
    pub assignment_id: String,
    pub content: String,
    /// The saved submission (if any) has been loaded into the editor.
    pub initialized: bool,
    pub busy: bool,
    pub error: Option<WorkError>,
}

impl WorkEditor {
    pub fn open(assignment_id: &str) -> (res: Self)
        ensures
            res.assignment_id@ == assignment_id@,
            res.content@.len() == 0 && !res.initialized && !res.busy && res.error.is_none(),
    {
        WorkEditor { assignment_id: assignment_id.to_owned(), content: String::new(), initialized: false, busy: false, error: None }
    }

    /// The saved submission arrived (`Some(None)`: there is none). It fills
    /// the editor once; later arrivals leave the typed work alone.
    pub fn existing_loaded(&mut self, existing: Option<Option<String>>)
        ensures
            existing matches Some(Some(c)) ==> !old(self).initialized ==> final(self).content@ == c@ && final(self).initialized,
            existing matches Some(None) ==> !old(self).initialized ==> final(self).content == old(self).content && final(self).initialized,
            old(self).initialized || existing.is_none() ==> final(self).content == old(self).content
                && final(self).initialized == old(self).initialized,
            final(self).busy == old(self).busy && final(self).error == old(self).error,
    {
        if self.initialized {
            return;
        }
        match existing {
            Some(Some(c)) => {
                self.content = c;
                self.initialized = true;
            },
            Some(None) => {
                self.initialized = true;
            },
            None => {},
        }
    }

    /// Typing (the field is disabled while submitting).
    pub fn edit(&mut self, text: String)
        ensures
            final(self).content@ == if old(self).busy { old(self).content@ } else { text@ },
            final(self).busy == old(self).busy,
    {
        if !self.busy {
            self.content = text;
        }
    }

    /// "Submit": nothing while busy; blank work is refused; else the
    /// trimmed work goes out.
    pub fn submit(&mut self) -> (res: Option<(String, String)>)
        ensures
            old(self).busy ==> res.is_none() && final(self).error == old(self).error && final(self).busy,
            !old(self).busy && is_blank(old(self).content@) ==> res.is_none() && final(self).error == Some(
                WorkError::EnterWork,
            ) && !final(self).busy,
            !old(self).busy && !is_blank(old(self).content@) ==> (res matches Some((id, text)) && id@
                == old(self).assignment_id@ && text@ == trimmed(old(self).content@) && final(self).busy
                && final(self).error.is_none()),
            final(self).content == old(self).content,
    {
        if self.busy {
            return None;
        }
        let text = trim(self.content.as_str());
        if text.is_empty() {
            self.error = Some(WorkError::EnterWork);
            return None;
        }
        self.busy = true;
        self.error = None;
        Some((self.assignment_id.clone(), text.to_owned()))
    }

    /// The server's answer. Returns whether the dialog closes (and the list
    /// reloads); a failure keeps the work for another try.
    pub fn finished(&mut self, ok: bool) -> (close: bool)
        ensures
            close == ok,
            !ok ==> final(self).error == Some(WorkError::SaveFailed) && !final(self).busy && final(self).content
                == old(self).content,
    {
        if !ok {
            self.error = Some(WorkError::SaveFailed);
            self.busy = false;
        }
        ok
    }

    /// Whether the dialog may close now: not while submitting.
    pub fn can_close(&self) -> (res: bool)
        ensures
            res == !self.busy,
    {
        !self.busy
    }
}

} // verus!
