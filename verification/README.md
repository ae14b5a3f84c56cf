# edutalent

The decision logic of the EduTalent school portal's web front end, written in
Verus: every function in `src/` carries a `requires`/`ensures` contract that
Verus proves, and the laws the portal relies on stand as public proof
functions next to the code they speak of.

## Layout

- `src/` — the verified library.
  - `knowledge_edit.rs`, `knowledge_review.rs`, `knowledge_status.rs`,
    `knowledge_upload.rs`, `knowledge_submissions.rs`: the knowledge-asset
    editor, OCR review, lifecycle actions, uploads and submissions, as state
    machines whose events map one abstract state to the next.
  - `class_management.rs`, `class_views.rs`, `provisioning.rs`,
    `user_directory.rs`: school administration forms and listings.
  - `login.rs`, `settings.rs`, `guards.rs`, `navigation.rs`,
    `notifications.rs`, `student_assignments.rs`: the account, routing and
    student-facing views.
  - `tables.rs`, `forms.rs`, `layout.rs`, `errors.rs`, `submission_files.rs`:
    shared presentation pieces.
  - `text.rs`, `json_doc.rs`: text helpers and the JSON reading the editor
    needs, with the calls into `std`, `serde_json`, `chrono`, `sha2` and
    `uuid` behind small trusted wrappers whose contracts are documented where
    they stand.
- `tests/` — executable tests of the library.
- `app/` — the browser side: DOM access, uploads over HTTP, JSON payloads and
  chart geometry, which Verus does not see.
