//! The school manager's editor for existing knowledge assets: drafts of an
//! asset's metadata, which edits touch retrieval, how a save and a source
//! replacement are prepared, and how their outcomes are reported.

use vstd::prelude::*;
use crate::json_doc::{json_document, parse_json, same_json, same_json_value, JsonDoc};
use crate::text::{concat, contains, is_blank, same_text, trim, trimmed};

verus! {

/// An asset as the editor receives it from the server.
pub struct KnowledgeAssetEditState {
    pub id: String,
    pub title: String,
    pub description: Option<String>,
    pub subject: Option<String>,
    pub grade: Option<String>,
    pub language: String,
    pub template_type: Option<String>,
    /// The tags/classification document, in its compact JSON rendering.
    pub tags: String,
    pub status: String,
    pub asset_revision: i64,
    pub current_source_file_id: Option<String>,
    pub current_source_filename: Option<String>,
    pub current_source_sha256: Option<String>,
}

/// The editable form of an asset's metadata.
pub struct KnowledgeEditDraft {
    pub title: String,
    pub description: String,
    pub subject: String,
    pub grade: String,
    pub language: String,
    pub template_type: String,
    pub tags_json: String,
}

/// The text of an optional field, empty when absent.
pub open spec fn text_or_empty(o: Option<String>) -> Seq<char> {
    match o {
        Some(s) => s@,
        None => Seq::<char>::empty(),
    }
}

/// The indented rendering of a tags document, `{}` when none is written.
pub open spec fn pretty_tags(tags: Seq<char>) -> Seq<char> {
    match json_document(tags) {
        Some(d) => match d.2 {
            Some(p) => p,
            None => "{}"@,
        },
        None => "{}"@,
    }
}

/// The fields of a draft as plain texts.
pub open spec fn draft_fields(d: KnowledgeEditDraft) -> Seq<Seq<char>> {
    seq![d.title@, d.description@, d.subject@, d.grade@, d.language@, d.template_type@, d.tags_json@]
}

/// The draft an asset opens with: its fields, absent ones empty, and its
/// tags indented.
pub open spec fn draft_of(a: KnowledgeAssetEditState) -> Seq<Seq<char>> {
    seq![
        a.title@,
        text_or_empty(a.description),
        text_or_empty(a.subject),
        text_or_empty(a.grade),
        a.language@,
        text_or_empty(a.template_type),
        pretty_tags(a.tags@),
    ]
}

/// A copy of an optional text.
pub fn copy_optional(o: &Option<String>) -> (res: Option<String>)
    ensures
        res == *o,
{
    match o {
        Some(s) => Some(s.clone()),
        None => None,
    }
}

fn text_or_empty_of(o: &Option<String>) -> (res: String)
    ensures
        res@ == text_or_empty(*o),
{
    match o {
        Some(s) => s.clone(),
        None => String::new(),
    }
}

impl KnowledgeAssetEditState {
    /// A copy of the asset.
    pub fn duplicate(&self) -> (res: Self)
        ensures
            res == *self,
    {
        KnowledgeAssetEditState {
            id: self.id.clone(),
            title: self.title.clone(),
            description: copy_optional(&self.description),
            subject: copy_optional(&self.subject),
            grade: copy_optional(&self.grade),
            language: self.language.clone(),
            template_type: copy_optional(&self.template_type),
            tags: self.tags.clone(),
            status: self.status.clone(),
            asset_revision: self.asset_revision,
            current_source_file_id: copy_optional(&self.current_source_file_id),
            current_source_filename: copy_optional(&self.current_source_filename),
            current_source_sha256: copy_optional(&self.current_source_sha256),
        }
    }
}

impl KnowledgeEditDraft {
    /// An empty draft.
    pub fn empty() -> (res: Self)
        ensures
            draft_fields(res) == empty_draft(),
    {
        let res = KnowledgeEditDraft {
            title: String::new(),
            description: String::new(),
            subject: String::new(),
            grade: String::new(),
            language: String::new(),
            template_type: String::new(),
            tags_json: String::new(),
        };
        assert(draft_fields(res) =~~= empty_draft());
        res
    }

    /// The draft an asset opens with.
    pub fn from_asset(asset: &KnowledgeAssetEditState) -> (res: Self)
        ensures
            draft_fields(res) == draft_of(*asset),
    {
        let parsed = parse_json(asset.tags.as_str());
        let tags_json = match parsed {
            Some(doc) => match doc.pretty {
                Some(p) => p,
                None => "{}".to_owned(),
            },
            None => "{}".to_owned(),
        };
        proof {
            reveal_strlit("{}");
        }
        let res = KnowledgeEditDraft {
            title: asset.title.clone(),
            description: text_or_empty_of(&asset.description),
            subject: text_or_empty_of(&asset.subject),
            grade: text_or_empty_of(&asset.grade),
            language: asset.language.clone(),
            template_type: text_or_empty_of(&asset.template_type),
            tags_json,
        };
        assert(draft_fields(res) =~= draft_of(*asset));
        res
    }

    /// A copy of the draft.
    pub fn duplicate(&self) -> (res: Self)
        ensures
            res == *self,
    {
        KnowledgeEditDraft {
            title: self.title.clone(),
            description: self.description.clone(),
            subject: self.subject.clone(),
            grade: self.grade.clone(),
            language: self.language.clone(),
            template_type: self.template_type.clone(),
            tags_json: self.tags_json.clone(),
        }
    }

    /// Whether two drafts hold the same texts.
    pub fn same_as(&self, other: &Self) -> (res: bool)
        ensures
            res == (draft_fields(*self) == draft_fields(*other)),
    {
        let r = same_text(self.title.as_str(), other.title.as_str())
            && same_text(self.description.as_str(), other.description.as_str())
            && same_text(self.subject.as_str(), other.subject.as_str())
            && same_text(self.grade.as_str(), other.grade.as_str())
            && same_text(self.language.as_str(), other.language.as_str())
            && same_text(self.template_type.as_str(), other.template_type.as_str())
            && same_text(self.tags_json.as_str(), other.tags_json.as_str());
        proof {
            if !r {
                assert(draft_fields(*self) != draft_fields(*other)) by {
                    if draft_fields(*self) == draft_fields(*other) {
                        assert(forall|i: int| 0 <= i < 7 ==> draft_fields(*self)[i] == draft_fields(*other)[i]);
                        assert(draft_fields(*self)[0] == self.title@);
                    }
                }
            } else {
                assert(draft_fields(*self) =~= draft_fields(*other));
            }
        }
        r
    }
}

/// Whether an edit changes what retrieval indexes: the trimmed title,
/// subject, grade, language or template/type, or the tags document (as a
/// JSON value: texts that differ but read as equal values are unchanged).
/// The description alone is presentation and is not.
/// `draft` holds the draft's fields in the order of `draft_fields`.
pub open spec fn retrieval_sensitive(
    asset: KnowledgeAssetEditState,
    draft: Seq<Seq<char>>,
    tags: Seq<char>,
) -> bool {
    ||| trimmed(asset.title@) != trimmed(draft[0])
    ||| trimmed(text_or_empty(asset.subject)) != trimmed(draft[2])
    ||| trimmed(text_or_empty(asset.grade)) != trimmed(draft[3])
    ||| trimmed(asset.language@) != trimmed(draft[4])
    ||| trimmed(text_or_empty(asset.template_type)) != trimmed(draft[5])
    ||| (asset.tags@ != tags && !same_json_value(asset.tags@, tags))
}

fn trimmed_differ(a: &str, b: &str) -> (res: bool)
    ensures
        res == (trimmed(a@) != trimmed(b@)),
{
    !same_text(trim(a), trim(b))
}

fn optional_trimmed_differ(a: &Option<String>, b: &str) -> (res: bool)
    ensures
        res == (trimmed(text_or_empty(*a)) != trimmed(b@)),
{
    proof {
        reveal_strlit("");
    }
    let t: &str = match a {
        Some(s) => s.as_str(),
        None => "",
    };
    assert(t@ == text_or_empty(*a));
    trimmed_differ(t, b)
}

/// Whether saving `draft`, with its tags read as the compact rendering
/// `tags`, changes metadata that retrieval depends on.
pub fn retrieval_sensitive_changed(
    asset: &KnowledgeAssetEditState,
    draft: &KnowledgeEditDraft,
    tags: &String,
) -> (res: bool)
    ensures
        res == retrieval_sensitive(*asset, draft_fields(*draft), tags@),
{
    proof {
        reveal_strlit("");
        assert(text_or_empty(None::<String>) == ""@);
    }
    trimmed_differ(asset.title.as_str(), draft.title.as_str())
        || optional_trimmed_differ(&asset.subject, draft.subject.as_str())
        || optional_trimmed_differ(&asset.grade, draft.grade.as_str())
        || trimmed_differ(asset.language.as_str(), draft.language.as_str())
        || optional_trimmed_differ(&asset.template_type, draft.template_type.as_str())
        || (!same_text(asset.tags.as_str(), tags.as_str()) && !same_json(asset.tags.as_str(), tags.as_str()))
}


/// The trimmed text, or nothing when it is blank.
pub open spec fn normalized_optional_spec(s: Seq<char>) -> Option<Seq<char>> {
    if trimmed(s).len() == 0 {
        None
    } else {
        Some(trimmed(s))
    }
}

/// The trimmed text of a field, or nothing when it is blank.
pub fn normalized_optional(value: &str) -> (res: Option<String>)
    ensures
        match res {
            Some(s) => normalized_optional_spec(value@) == Some(s@),
            None => normalized_optional_spec(value@).is_none(),
        },
{
    let t = trim(value);
    if t.is_empty() {
        None
    } else {
        Some(t.to_owned())
    }
}

/// What the editor reports in its notice line.
#[derive(PartialEq, Eq, Structural, Clone, Copy, Debug)]
pub enum EditorMessage {
    /// Title or language left blank.
    Required,
    /// The tags are not a JSON object.
    InvalidJson,
    /// Saved; the server withdrew the asset for reprocessing.
    SavedWithdrawn,
    /// Saved; source and lifecycle untouched.
    SavedKept,
    /// The asset changed on the server while it was edited.
    Conflict,
    /// The save failed for another reason.
    SaveFailed,
    /// Archived assets take no new source revision.
    Archived,
    /// The replacement PDF was registered.
    ReplacementDone,
    /// The upload service answered with this non-success status.
    ReplacementRejected(u16),
    /// The upload could not reach storage.
    StorageUnavailable,
    /// The upload form could not be read.
    ReplacementNotPrepared,
}

/// A notice: whether it reports success, and what it says.
pub type EditorNotice = (bool, EditorMessage);

/// A metadata update as sent to the server.
pub struct UpdateMetadataRequest {
    pub asset_id: String,
    pub expected_revision: i64,
    pub title: String,
    pub description: Option<String>,
    pub subject: Option<String>,
    pub grade: Option<String>,
    pub language: String,
    pub template_type: Option<String>,
    /// The tags document in its compact rendering.
    pub tags: String,
}

/// A metadata update, as plain texts.
pub struct MetadataRequestView {
    pub asset_id: Seq<char>,
    pub expected_revision: i64,
    pub title: Seq<char>,
    pub description: Option<Seq<char>>,
    pub subject: Option<Seq<char>>,
    pub grade: Option<Seq<char>>,
    pub language: Seq<char>,
    pub template_type: Option<Seq<char>>,
    pub tags: Seq<char>,
}

pub open spec fn opt_view(o: Option<String>) -> Option<Seq<char>> {
    match o {
        Some(s) => Some(s@),
        None => None,
    }
}

impl View for UpdateMetadataRequest {
    type V = MetadataRequestView;

    open spec fn view(&self) -> MetadataRequestView {
        MetadataRequestView {
            asset_id: self.asset_id@,
            expected_revision: self.expected_revision,
            title: self.title@,
            description: opt_view(self.description),
            subject: opt_view(self.subject),
            grade: opt_view(self.grade),
            language: self.language@,
            template_type: opt_view(self.template_type),
            tags: self.tags@,
        }
    }
}

/// The update a draft becomes: trimmed title and language, optional fields
/// trimmed or left out when blank, the tags in compact rendering.
pub open spec fn metadata_request(
    asset: KnowledgeAssetEditState,
    draft: Seq<Seq<char>>,
    tags: Seq<char>,
) -> MetadataRequestView {
    MetadataRequestView {
        asset_id: asset.id@,
        expected_revision: asset.asset_revision,
        title: trimmed(draft[0]),
        description: normalized_optional_spec(draft[1]),
        subject: normalized_optional_spec(draft[2]),
        grade: normalized_optional_spec(draft[3]),
        language: trimmed(draft[4]),
        template_type: normalized_optional_spec(draft[5]),
        tags,
    }
}

/// What pressing "Save" leads to.
pub enum SavePlan {
    /// Nothing happens (busy, or no asset open).
    Ignore,
    /// The draft is refused with this message.
    Reject(EditorMessage),
    /// The update is sent; `sensitive` asks for the retrieval warning first.
    Send { request: UpdateMetadataRequest, sensitive: bool },
}

pub enum SavePlanView {
    Ignore,
    Reject(EditorMessage),
    Send(MetadataRequestView, bool),
}

impl View for SavePlan {
    type V = SavePlanView;

    open spec fn view(&self) -> SavePlanView {
        match self {
            SavePlan::Ignore => SavePlanView::Ignore,
            SavePlan::Reject(m) => SavePlanView::Reject(*m),
            SavePlan::Send { request, sensitive } => SavePlanView::Send(request@, *sensitive),
        }
    }
}

/// What the server answered to a metadata update.
pub enum SaveOutcome {
    Saved { vectors_invalidated: bool },
    Failed { error: String },
}

/// What the upload service answered to a source replacement.
pub enum ReplaceOutcome {
    /// An HTTP response with this status.
    Responded(u16),
    /// The request was sent but storage could not be reached.
    StorageUnavailable,
    /// The request could not be prepared from the form.
    NotPrepared,
}

/// The asset a source replacement targets, at the revision it was read at.
pub struct ReplacementTarget {
    pub asset_id: String,
    pub expected_revision: i64,
}

/// What pressing "Replace source document" leads to.
pub enum ReplacePlan {
    Ignore,
    Reject(EditorMessage),
    /// The replacement needs the user's confirmation, then goes to `target`.
    Confirm(ReplacementTarget),
}

/// The asset editor: the open asset, its draft, whether a request is in
/// flight, the notice line and the source-form generation.
///
/// Its `plan_save` checks the required fields before the tags, gives one
/// message for tags that are not a JSON object, and reads a conflict from
/// an error naming "changed while". The asset-details form checks the tags
/// first, with separate messages for text that is not JSON and JSON that is
/// not an object, and reads a conflict only from the whole phrase "changed
/// while you were editing": `plan_details_save_with`, `details_message`,
/// `details_save_failure` and `details_replacement_error_message`.
pub struct AssetEditor {
    pub selected: Option<KnowledgeAssetEditState>,
    pub draft: KnowledgeEditDraft,
    pub busy: bool,
    pub notice: Option<EditorNotice>,
    pub source_epoch: u64,
}

/// The editor as plain values.
pub struct EditorView {
    pub selected: Option<KnowledgeAssetEditState>,
    pub draft: Seq<Seq<char>>,
    pub busy: bool,
    pub notice: Option<EditorNotice>,
    pub source_epoch: nat,
}

impl View for AssetEditor {
    type V = EditorView;

    open spec fn view(&self) -> EditorView {
        EditorView {
            selected: self.selected,
            draft: draft_fields(self.draft),
            busy: self.busy,
            notice: self.notice,
            source_epoch: self.source_epoch as nat,
        }
    }
}

/// The draft of no asset: seven empty fields.
pub open spec fn empty_draft() -> Seq<Seq<char>> {
    Seq::new(7, |i: int| Seq::<char>::empty())
}

/// The open draft differs from the asset it was opened from.
pub open spec fn is_dirty_spec(v: EditorView) -> bool {
    match v.selected {
        Some(a) => v.draft != draft_of(a),
        None => false,
    }
}

/// Opening `asset`: refused while busy, and while unsaved edits exist
/// unless the user confirmed discarding them.
pub open spec fn select_model(v: EditorView, asset: KnowledgeAssetEditState, confirmed: bool) -> EditorView {
    if v.busy || (is_dirty_spec(v) && !confirmed) {
        v
    } else {
        EditorView { selected: Some(asset), draft: draft_of(asset), notice: None, ..v }
    }
}

/// Which field of the draft an input edits.
#[derive(PartialEq, Eq, Structural, Clone, Copy, Debug)]
pub enum DraftField {
    Title,
    Description,
    Subject,
    Grade,
    Language,
    TemplateType,
    Tags,
}

pub open spec fn field_index(f: DraftField) -> int {
    match f {
        DraftField::Title => 0,
        DraftField::Description => 1,
        DraftField::Subject => 2,
        DraftField::Grade => 3,
        DraftField::Language => 4,
        DraftField::TemplateType => 5,
        DraftField::Tags => 6,
    }
}

pub open spec fn edit_model(v: EditorView, f: DraftField, text: Seq<char>) -> EditorView {
    EditorView { draft: v.draft.update(field_index(f), text), ..v }
}

/// Closing the editor: as opening another asset, but to nothing.
pub open spec fn cancel_model(v: EditorView, confirmed: bool) -> EditorView {
    if v.busy || (is_dirty_spec(v) && !confirmed) {
        v
    } else {
        EditorView { selected: None, draft: empty_draft(), notice: None, ..v }
    }
}

/// The save a draft leads to, given what the tags text parses to.
pub open spec fn save_plan_model(
    v: EditorView,
    parsed: Option<(bool, Seq<char>, Option<Seq<char>>)>,
) -> SavePlanView {
    match v.selected {
        None => SavePlanView::Ignore,
        Some(a) => if v.busy {
            SavePlanView::Ignore
        } else if is_blank(v.draft[0]) || is_blank(v.draft[4]) {
            SavePlanView::Reject(EditorMessage::Required)
        } else {
            match parsed {
                None => SavePlanView::Reject(EditorMessage::InvalidJson),
                Some(d) => if !d.0 {
                    SavePlanView::Reject(EditorMessage::InvalidJson)
                } else {
                    SavePlanView::Send(metadata_request(a, v.draft, d.1), retrieval_sensitive(a, v.draft, d.1))
                },
            }
        },
    }
}

/// Acting on a save plan; `confirmed` is the answer to the retrieval
/// warning, asked only for a sensitive change.
pub open spec fn start_save_model(v: EditorView, plan: SavePlanView, confirmed: bool) -> (EditorView, Option<MetadataRequestView>) {
    match plan {
        SavePlanView::Ignore => (v, None),
        SavePlanView::Reject(m) => (EditorView { notice: Some((false, m)), ..v }, None),
        SavePlanView::Send(r, sensitive) => if sensitive && !confirmed {
            (v, None)
        } else {
            (EditorView { busy: true, notice: None, ..v }, Some(r))
        },
    }
}

/// The server's error for an edit made against a stale revision.
pub open spec fn is_conflict_text(error: Seq<char>) -> bool {
    crate::text::contains_seq(error, "changed while"@)
}

pub open spec fn finish_save_model(v: EditorView, saved: Option<bool>, error: Seq<char>) -> EditorView {
    match saved {
        Some(invalidated) => EditorView {
            notice: Some((true, if invalidated { EditorMessage::SavedWithdrawn } else { EditorMessage::SavedKept })),
            selected: None,
            draft: empty_draft(),
            busy: false,
            ..v
        },
        None => EditorView {
            notice: Some((false, if is_conflict_text(error) { EditorMessage::Conflict } else { EditorMessage::SaveFailed })),
            busy: false,
            ..v
        },
    }
}

/// The replacement a press of the button leads to: none while busy or with
/// nothing open, a refusal for an archived asset, else a confirmation.
pub open spec fn replace_plan_model(v: EditorView) -> Option<Option<(Seq<char>, i64)>> {
    match v.selected {
        None => None,
        Some(a) => if v.busy {
            None
        } else if a.status@ == "archived"@ {
            Some(None)
        } else {
            Some(Some((a.id@, a.asset_revision)))
        },
    }
}

/// Whether an upload status is a success (2xx).
pub open spec fn is_success_status(status: u16) -> bool {
    200 <= status < 300
}

pub open spec fn finish_replace_model(v: EditorView, outcome: ReplaceOutcome) -> EditorView {
    match outcome {
        ReplaceOutcome::Responded(s) => if is_success_status(s) {
            EditorView {
                notice: Some((true, EditorMessage::ReplacementDone)),
                source_epoch: v.source_epoch + 1,
                selected: None,
                draft: empty_draft(),
                busy: false,
                ..v
            }
        } else {
            EditorView { notice: Some((false, EditorMessage::ReplacementRejected(s))), busy: false, ..v }
        },
        ReplaceOutcome::StorageUnavailable => EditorView {
            notice: Some((false, EditorMessage::StorageUnavailable)),
            busy: false,
            ..v
        },
        ReplaceOutcome::NotPrepared => EditorView {
            notice: Some((false, EditorMessage::ReplacementNotPrepared)),
            busy: false,
            ..v
        },
    }
}


impl AssetEditor {
    /// An editor with nothing open.
    pub fn new() -> (res: Self)
        ensures
            res@.selected.is_none(),
            res@.draft == empty_draft(),
            !res@.busy,
            res@.notice.is_none(),
            res@.source_epoch == 0,
    {
        let res = AssetEditor {
            selected: None,
            draft: KnowledgeEditDraft::empty(),
            busy: false,
            notice: None,
            source_epoch: 0,
        };
        res
    }

    /// Whether the open draft differs from the asset it was opened from.
    pub fn is_dirty(&self) -> (res: bool)
        ensures
            res == is_dirty_spec(self@),
    {
        match &self.selected {
            Some(asset) => {
                let original = KnowledgeEditDraft::from_asset(asset);
                !self.draft.same_as(&original)
            },
            None => false,
        }
    }

    /// Opens `asset` for editing; `confirmed` is the user's answer to the
    /// discard warning shown while unsaved edits exist.
    pub fn select(&mut self, asset: &KnowledgeAssetEditState, confirmed: bool)
        ensures
            final(self)@ == select_model(old(self)@, *asset, confirmed),
    {
        if self.busy || (self.is_dirty() && !confirmed) {
            return;
        }
        self.draft = KnowledgeEditDraft::from_asset(asset);
        self.selected = Some(asset.duplicate());
        self.notice = None;
    }

    /// Replaces one field of the draft with what the user typed.
    pub fn edit(&mut self, field: DraftField, text: String)
        ensures
            final(self)@ == edit_model(old(self)@, field, text@),
    {
        match field {
            DraftField::Title => self.draft.title = text,
            DraftField::Description => self.draft.description = text,
            DraftField::Subject => self.draft.subject = text,
            DraftField::Grade => self.draft.grade = text,
            DraftField::Language => self.draft.language = text,
            DraftField::TemplateType => self.draft.template_type = text,
            DraftField::Tags => self.draft.tags_json = text,
        }
        assert(final(self)@.draft =~= edit_model(old(self)@, field, text@).draft);
    }

    /// Closes the editor; `confirmed` answers the discard warning.
    pub fn cancel(&mut self, confirmed: bool)
        ensures
            final(self)@ == cancel_model(old(self)@, confirmed),
    {
        if self.busy || (self.is_dirty() && !confirmed) {
            return;
        }
        self.selected = None;
        self.draft = KnowledgeEditDraft::empty();
        self.notice = None;
    }

    /// The save that pressing "Save" leads to, given the parse of the tags
    /// text (trimmed).
    pub fn plan_save_with(&self, parsed: Option<JsonDoc>) -> (res: SavePlan)
        ensures
            res@ == save_plan_model(
                self@,
                match parsed {
                    Some(d) => Some(
                        (
                            d.is_object,
                            d.canonical@,
                            match d.pretty {
                                Some(p) => Some(p@),
                                None => None,
                            },
                        ),
                    ),
                    None => None,
                },
            ),
    {
        let asset = match &self.selected {
            Some(a) => a,
            None => return SavePlan::Ignore,
        };
        if self.busy {
            return SavePlan::Ignore;
        }
        let title = trim(self.draft.title.as_str());
        let language = trim(self.draft.language.as_str());
        if title.is_empty() || language.is_empty() {
            return SavePlan::Reject(EditorMessage::Required);
        }
        let doc = match parsed {
            Some(d) => d,
            None => return SavePlan::Reject(EditorMessage::InvalidJson),
        };
        if !doc.is_object {
            return SavePlan::Reject(EditorMessage::InvalidJson);
        }
        let sensitive = retrieval_sensitive_changed(asset, &self.draft, &doc.canonical);
        let request = UpdateMetadataRequest {
            asset_id: asset.id.clone(),
            expected_revision: asset.asset_revision,
            title: title.to_owned(),
            description: normalized_optional(self.draft.description.as_str()),
            subject: normalized_optional(self.draft.subject.as_str()),
            grade: normalized_optional(self.draft.grade.as_str()),
            language: language.to_owned(),
            template_type: normalized_optional(self.draft.template_type.as_str()),
            tags: doc.canonical,
        };
        SavePlan::Send { request, sensitive }
    }

    /// The save that pressing "Save" leads to: the tags text, trimmed, is
    /// read as JSON and the draft is checked against the open asset.
    pub fn plan_save(&self) -> (res: SavePlan)
        ensures
            res@ == save_plan_model(self@, json_document(trimmed(self.draft.tags_json@))),
    {
        let parsed = parse_json(trim(self.draft.tags_json.as_str()));
        self.plan_save_with(parsed)
    }

    /// Acts on a save plan. `confirmed` is the answer to the retrieval
    /// warning, which is asked only when the plan marks the change sensitive.
    /// Returns the update to send, if any.
    pub fn start_save(&mut self, plan: SavePlan, confirmed: bool) -> (res: Option<UpdateMetadataRequest>)
        ensures
            ({
                let (next, sent) = start_save_model(old(self)@, plan@, confirmed);
                &&& final(self)@ == next
                &&& match res {
                    Some(r) => sent == Some(r@),
                    None => sent.is_none(),
                }
            }),
    {
        match plan {
            SavePlan::Ignore => None,
            SavePlan::Reject(m) => {
                self.notice = Some((false, m));
                None
            },
            SavePlan::Send { request, sensitive } => {
                if sensitive && !confirmed {
                    None
                } else {
                    self.busy = true;
                    self.notice = None;
                    Some(request)
                }
            },
        }
    }

    /// Takes in the server's answer to a metadata update.
    pub fn finish_save(&mut self, outcome: SaveOutcome)
        ensures
            final(self)@ == match outcome {
                SaveOutcome::Saved { vectors_invalidated } => finish_save_model(
                    old(self)@,
                    Some(vectors_invalidated),
                    Seq::<char>::empty(),
                ),
                SaveOutcome::Failed { error } => finish_save_model(old(self)@, None, error@),
            },
    {
        match outcome {
            SaveOutcome::Saved { vectors_invalidated } => {
                self.notice = Some((
                    true,
                    if vectors_invalidated {
                        EditorMessage::SavedWithdrawn
                    } else {
                        EditorMessage::SavedKept
                    },
                ));
                self.selected = None;
                self.draft = KnowledgeEditDraft::empty();
            },
            SaveOutcome::Failed { error } => {
                let conflict = contains(error.as_str(), "changed while");
                self.notice = Some((
                    false,
                    if conflict {
                        EditorMessage::Conflict
                    } else {
                        EditorMessage::SaveFailed
                    },
                ));
            },
        }
        self.busy = false;
    }

    /// The replacement that pressing "Replace source document" leads to.
    pub fn plan_replacement(&self) -> (res: ReplacePlan)
        ensures
            match replace_plan_model(self@) {
                None => res is Ignore,
                Some(None) => res matches ReplacePlan::Reject(m) && m == EditorMessage::Archived,
                Some(Some((id, revision))) => res matches ReplacePlan::Confirm(t) && t.asset_id@ == id
                    && t.expected_revision == revision,
            },
    {
        let asset = match &self.selected {
            Some(a) => a,
            None => return ReplacePlan::Ignore,
        };
        if self.busy {
            return ReplacePlan::Ignore;
        }
        if same_text(asset.status.as_str(), "archived") {
            return ReplacePlan::Reject(EditorMessage::Archived);
        }
        ReplacePlan::Confirm(ReplacementTarget { asset_id: asset.id.clone(), expected_revision: asset.asset_revision })
    }

    /// Acts on a replacement plan; `confirmed` answers the replacement
    /// warning. Returns the target to upload to, if the upload goes ahead.
    pub fn start_replacement(&mut self, plan: ReplacePlan, confirmed: bool) -> (res: Option<ReplacementTarget>)
        ensures
            match plan {
                ReplacePlan::Ignore => final(self)@ == old(self)@ && res.is_none(),
                ReplacePlan::Reject(m) => final(self)@ == (EditorView { notice: Some((false, m)), ..old(self)@ })
                    && res.is_none(),
                ReplacePlan::Confirm(t) => if confirmed {
                    final(self)@ == (EditorView { busy: true, notice: None, ..old(self)@ }) && res == Some(t)
                } else {
                    final(self)@ == old(self)@ && res.is_none()
                },
            },
    {
        match plan {
            ReplacePlan::Ignore => None,
            ReplacePlan::Reject(m) => {
                self.notice = Some((false, m));
                None
            },
            ReplacePlan::Confirm(t) => {
                if confirmed {
                    self.busy = true;
                    self.notice = None;
                    Some(t)
                } else {
                    None
                }
            },
        }
    }

    /// Takes in the upload service's answer to a source replacement.
    pub fn finish_replacement(&mut self, outcome: ReplaceOutcome)
        requires
            outcome matches ReplaceOutcome::Responded(s) && is_success_status(s) ==> old(self).source_epoch < u64::MAX,
        ensures
            final(self)@ == finish_replace_model(old(self)@, outcome),
    {
        match outcome {
            ReplaceOutcome::Responded(status) => {
                if 200 <= status && status < 300 {
                    self.notice = Some((true, EditorMessage::ReplacementDone));
                    self.source_epoch = self.source_epoch + 1;
                    self.selected = None;
                    self.draft = KnowledgeEditDraft::empty();
                } else {
                    self.notice = Some((false, EditorMessage::ReplacementRejected(status)));
                }
            },
            ReplaceOutcome::StorageUnavailable => {
                self.notice = Some((false, EditorMessage::StorageUnavailable));
            },
            ReplaceOutcome::NotPrepared => {
                self.notice = Some((false, EditorMessage::ReplacementNotPrepared));
            },
        }
        self.busy = false;
    }
}


/// The editor's inputs, as the page delivers them.
pub enum EditorEvent {
    /// "Edit" pressed on an asset; the flag answers the discard warning.
    Select(KnowledgeAssetEditState, bool),
    /// A field typed into.
    Edit(DraftField, Seq<char>),
    /// "Cancel" pressed; the flag answers the discard warning.
    Cancel(bool),
    /// "Save" pressed with this plan; the flag answers the retrieval warning.
    StartSave(SavePlanView, bool),
    /// The server saved the metadata (flag: vectors were invalidated).
    SaveSucceeded(bool),
    /// The server refused the metadata with this error text.
    SaveFailed(Seq<char>),
    /// "Replace" pressed with this plan; the flag answers its warning.
    StartReplacement(ReplacePlan, bool),
    /// The upload service answered.
    ReplacementFinished(ReplaceOutcome),
}

pub open spec fn start_replace_model(v: EditorView, plan: ReplacePlan, confirmed: bool) -> EditorView {
    match plan {
        ReplacePlan::Ignore => v,
        ReplacePlan::Reject(m) => EditorView { notice: Some((false, m)), ..v },
        ReplacePlan::Confirm(_) => if confirmed {
            EditorView { busy: true, notice: None, ..v }
        } else {
            v
        },
    }
}

/// The editor after one input.
pub open spec fn editor_step(v: EditorView, ev: EditorEvent) -> EditorView {
    match ev {
        EditorEvent::Select(a, c) => select_model(v, a, c),
        EditorEvent::Edit(f, t) => edit_model(v, f, t),
        EditorEvent::Cancel(c) => cancel_model(v, c),
        EditorEvent::StartSave(p, c) => start_save_model(v, p, c).0,
        EditorEvent::SaveSucceeded(inv) => finish_save_model(v, Some(inv), Seq::<char>::empty()),
        EditorEvent::SaveFailed(e) => finish_save_model(v, None, e),
        EditorEvent::StartReplacement(p, c) => start_replace_model(v, p, c),
        EditorEvent::ReplacementFinished(o) => finish_replace_model(v, o),
    }
}

/// The inputs after which the open draft may be gone: a confirmed switch or
/// cancel, a successful save, a successful replacement.
pub open spec fn may_discard(ev: EditorEvent) -> bool {
    match ev {
        EditorEvent::Select(_, c) => c,
        EditorEvent::Cancel(c) => c,
        EditorEvent::SaveSucceeded(_) => true,
        EditorEvent::ReplacementFinished(ReplaceOutcome::Responded(s)) => is_success_status(s),
        _ => false,
    }
}

/// Unsaved edits are never lost silently: while the draft differs from its
/// asset, every input other than a confirmed switch or cancel, a successful
/// save or a successful source replacement keeps the asset open and keeps
/// every field of the draft that the input does not itself type into.
pub proof fn lemma_unsaved_edits_survive(v: EditorView, ev: EditorEvent)
    requires
        is_dirty_spec(v),
        v.draft.len() == 7,
        !may_discard(ev),
    ensures
        editor_step(v, ev).selected == v.selected,
        editor_step(v, ev).draft.len() == 7,
        forall|k: int|
            0 <= k < 7 && !(ev matches EditorEvent::Edit(f, _) && field_index(f) == k) ==> #[trigger] editor_step(
                v,
                ev,
            ).draft[k] == v.draft[k],
{
}

/// A metadata update goes out only for a draft with a title and a language
/// whose tags parse as a JSON object, and it carries that object; a change
/// that retrieval depends on goes out only once the warning was confirmed.
pub proof fn lemma_sent_updates_are_valid(
    v: EditorView,
    parsed: Option<(bool, Seq<char>, Option<Seq<char>>)>,
    confirmed: bool,
)
    requires
        v.draft.len() == 7,
        start_save_model(v, save_plan_model(v, parsed), confirmed).1.is_some(),
    ensures
        ({
            let r = start_save_model(v, save_plan_model(v, parsed), confirmed).1.unwrap();
            let a = v.selected.unwrap();
            &&& v.selected.is_some()
            &&& !v.busy
            &&& trimmed(v.draft[0]).len() > 0 && r.title == trimmed(v.draft[0])
            &&& trimmed(v.draft[4]).len() > 0 && r.language == trimmed(v.draft[4])
            &&& parsed matches Some(d) && d.0 && r.tags == d.1
            &&& r.asset_id == a.id@ && r.expected_revision == a.asset_revision
            &&& retrieval_sensitive(a, v.draft, r.tags) ==> confirmed
            &&& start_save_model(v, save_plan_model(v, parsed), confirmed).0.busy
        }),
{
}


/// The text of a failed source replacement, by the upload status.
pub open spec fn replacement_error_text(status: u16, fa: bool) -> Seq<char> {
    if status == 409 {
        if fa { "این منبع هم‌زمان تغییر کرده است؛ فهرست را تازه کنید."@ } else { "This asset changed concurrently; refresh the asset list."@ }
    } else if status == 413 {
        if fa { "PDF از حد ۲۰ MiB بزرگ‌تر است."@ } else { "The PDF exceeds the 20 MiB limit."@ }
    } else if status == 415 {
        if fa { "فایل انتخاب‌شده PDF کامل نیست."@ } else { "The selected file is not a complete PDF."@ }
    } else {
        if fa { "نسخهٔ جدید منبع ثبت نشد؛ دوباره تلاش کنید."@ } else { "The new source revision was not registered; refresh and try again."@ }
    }
}

/// The text of a failed source replacement: a conflict, an oversized or
/// incomplete PDF, or a generic failure for any other status.
pub fn replacement_error_message(status: u16, fa: bool) -> (res: String)
    ensures
        res@ == replacement_error_text(status, fa),
{
    let (fa_text, en_text) = if status == 409 {
        ("این منبع هم‌زمان تغییر کرده است؛ فهرست را تازه کنید.", "This asset changed concurrently; refresh the asset list.")
    } else if status == 413 {
        ("PDF از حد ۲۰ MiB بزرگ‌تر است.", "The PDF exceeds the 20 MiB limit.")
    } else if status == 415 {
        ("فایل انتخاب‌شده PDF کامل نیست.", "The selected file is not a complete PDF.")
    } else {
        ("نسخهٔ جدید منبع ثبت نشد؛ دوباره تلاش کنید.", "The new source revision was not registered; refresh and try again.")
    };
    pick(fa, fa_text, en_text)
}

/// The Persian or the English text.
pub fn pick(fa: bool, fa_text: &str, en_text: &str) -> (res: String)
    ensures
        res@ == if fa { fa_text@ } else { en_text@ },
{
    if fa {
        fa_text.to_owned()
    } else {
        en_text.to_owned()
    }
}

/// The text of an editor notice.
pub open spec fn editor_message_text(m: EditorMessage, fa: bool) -> Seq<char> {
    match m {
        EditorMessage::Required => if fa { "عنوان و زبان الزامی هستند."@ } else { "Title and language are required."@ },
        EditorMessage::InvalidJson => if fa { "برچسب‌ها/طبقه‌بندی باید یک شیء JSON معتبر باشد."@ } else { "Tags/classification must be a valid JSON object."@ },
        EditorMessage::SavedWithdrawn => if fa { "فراداده ذخیره شد. منبع برای پردازش مجدد از انتشار خارج شد."@ } else { "Metadata saved. The asset was withdrawn for reprocessing."@ },
        EditorMessage::SavedKept => if fa { "فراداده با همان منبع و وضعیت چرخهٔ عمر ذخیره شد."@ } else { "Metadata saved with the existing source and lifecycle state."@ },
        EditorMessage::Conflict => if fa { "این منبع هم‌زمان تغییر کرده است. فهرست را تازه کنید."@ } else { "This asset changed while you were editing. Refresh the list and try again."@ },
        EditorMessage::SaveFailed => if fa { "ذخیرهٔ تغییرات ممکن نشد. داده‌ها را بررسی کنید."@ } else { "The changes could not be saved. Check the values and refresh the asset list."@ },
        EditorMessage::Archived => if fa { "منبع بایگانی‌شده پایانی است و نسخهٔ منبع جدید نمی‌پذیرد."@ } else { "Archived is terminal; no new source revision can be appended."@ },
        EditorMessage::ReplacementDone => if fa { "نسخهٔ جدید PDF ثبت شد. منبع برای بررسی و پردازش مجدد آماده است."@ } else { "New PDF source revision registered. The asset is ready for governed review and reprocessing."@ },
        EditorMessage::ReplacementRejected(s) => replacement_error_text(s, fa),
        EditorMessage::StorageUnavailable => if fa { "سرویس ذخیره‌سازی در دسترس نیست؛ نسخهٔ فعلی تغییر نکرده است."@ } else { "Storage is unavailable; the current source revision was not changed."@ },
        EditorMessage::ReplacementNotPrepared => if fa { "فرم جایگزینی PDF خوانده نشد."@ } else { "The replacement upload could not be prepared."@ },
    }
}

/// The text of an editor notice, in Persian or English.
pub fn editor_message(m: EditorMessage, fa: bool) -> (res: String)
    ensures
        res@ == editor_message_text(m, fa),
{
    match m {
        EditorMessage::Required => pick(fa, "عنوان و زبان الزامی هستند.", "Title and language are required."),
        EditorMessage::InvalidJson => pick(fa, "برچسب‌ها/طبقه‌بندی باید یک شیء JSON معتبر باشد.", "Tags/classification must be a valid JSON object."),
        EditorMessage::SavedWithdrawn => pick(fa, "فراداده ذخیره شد. منبع برای پردازش مجدد از انتشار خارج شد.", "Metadata saved. The asset was withdrawn for reprocessing."),
        EditorMessage::SavedKept => pick(fa, "فراداده با همان منبع و وضعیت چرخهٔ عمر ذخیره شد.", "Metadata saved with the existing source and lifecycle state."),
        EditorMessage::Conflict => pick(fa, "این منبع هم‌زمان تغییر کرده است. فهرست را تازه کنید.", "This asset changed while you were editing. Refresh the list and try again."),
        EditorMessage::SaveFailed => pick(fa, "ذخیرهٔ تغییرات ممکن نشد. داده‌ها را بررسی کنید.", "The changes could not be saved. Check the values and refresh the asset list."),
        EditorMessage::Archived => pick(fa, "منبع بایگانی‌شده پایانی است و نسخهٔ منبع جدید نمی‌پذیرد.", "Archived is terminal; no new source revision can be appended."),
        EditorMessage::ReplacementDone => pick(fa, "نسخهٔ جدید PDF ثبت شد. منبع برای بررسی و پردازش مجدد آماده است.", "New PDF source revision registered. The asset is ready for governed review and reprocessing."),
        EditorMessage::ReplacementRejected(s) => replacement_error_message(s, fa),
        EditorMessage::StorageUnavailable => pick(fa, "سرویس ذخیره‌سازی در دسترس نیست؛ نسخهٔ فعلی تغییر نکرده است.", "Storage is unavailable; the current source revision was not changed."),
        EditorMessage::ReplacementNotPrepared => pick(fa, "فرم جایگزینی PDF خوانده نشد.", "The replacement upload could not be prepared."),
    }
}

/// The asset-details form's text of a failed source replacement, which
/// also names invalid requests (400) and missing permission (401, 403).
pub open spec fn details_replacement_text(status: u16, fa: bool) -> Seq<char> {
    if status == 400 {
        if fa { "فایل یا نسخهٔ منبع نامعتبر است."@ } else { "The file or asset revision is invalid."@ }
    } else if status == 401 || status == 403 {
        if fa { "اجازهٔ جایگزینی این منبع را ندارید."@ } else { "You are not allowed to replace this asset source."@ }
    } else if status == 409 || status == 413 || status == 415 {
        replacement_error_text(status, fa)
    } else {
        if fa { "نسخهٔ جدید منبع ثبت نشد؛ نسخهٔ جاری را تازه کنید و دوباره تلاش کنید."@ } else { "The new source revision was not registered; refresh the asset and try again."@ }
    }
}

/// The asset-details form's text of a failed source replacement.
pub fn details_replacement_error_message(status: u16, fa: bool) -> (res: String)
    ensures
        res@ == details_replacement_text(status, fa),
{
    if status == 400 {
        pick(fa, "فایل یا نسخهٔ منبع نامعتبر است.", "The file or asset revision is invalid.")
    } else if status == 401 || status == 403 {
        pick(fa, "اجازهٔ جایگزینی این منبع را ندارید.", "You are not allowed to replace this asset source.")
    } else if status == 409 || status == 413 || status == 415 {
        replacement_error_message(status, fa)
    } else {
        pick(fa, "نسخهٔ جدید منبع ثبت نشد؛ نسخهٔ جاری را تازه کنید و دوباره تلاش کنید.", "The new source revision was not registered; refresh the asset and try again.")
    }
}

/// Why the asset-details form refuses a draft: it reads the tags before it
/// checks the required fields.
#[derive(PartialEq, Eq, Structural, Clone, Copy, Debug)]
pub enum DetailsRejection {
    /// The tags are not JSON.
    InvalidJson,
    /// The tags are JSON but not an object.
    NotObject,
    /// Title or language is blank.
    Required,
}

pub open spec fn details_check_spec(
    draft: Seq<Seq<char>>,
    parsed: Option<(bool, Seq<char>, Option<Seq<char>>)>,
) -> Option<DetailsRejection> {
    match parsed {
        None => Some(DetailsRejection::InvalidJson),
        Some(d) => if !d.0 {
            Some(DetailsRejection::NotObject)
        } else if is_blank(draft[0]) || is_blank(draft[4]) {
            Some(DetailsRejection::Required)
        } else {
            None
        },
    }
}

/// The asset-details form's check of a draft, given the parse of its
/// trimmed tags text: the tags first, then title and language.
pub fn details_check(draft: &KnowledgeEditDraft, parsed: &Option<JsonDoc>) -> (res: Option<DetailsRejection>)
    ensures
        res == details_check_spec(
            draft_fields(*draft),
            match parsed {
                Some(d) => Some(
                    (
                        d.is_object,
                        d.canonical@,
                        match d.pretty {
                            Some(p) => Some(p@),
                            None => None,
                        },
                    ),
                ),
                None => None,
            },
        ),
{
    match parsed {
        None => Some(DetailsRejection::InvalidJson),
        Some(d) => {
            if !d.is_object {
                Some(DetailsRejection::NotObject)
            } else if trim(draft.title.as_str()).is_empty() || trim(draft.language.as_str()).is_empty() {
                Some(DetailsRejection::Required)
            } else {
                None
            }
        },
    }
}


/// A notice or question of the asset-details form.
#[derive(PartialEq, Eq, Structural, Clone, Copy, Debug)]
pub enum DetailsMessage {
    /// The tags text is not JSON.
    InvalidJson,
    /// The tags are JSON but not an object.
    NotObject,
    /// Title or language left blank.
    Required,
    /// The question asked before a retrieval-sensitive save.
    RetrievalWarning,
    /// Saved; the asset was withdrawn for reprocessing.
    SavedWithdrawn,
    /// Saved; source and lifecycle untouched.
    SavedKept,
    /// The asset changed on the server while it was edited.
    Conflict,
    /// The save failed for another reason.
    SaveFailed,
    /// The question asked before unsaved edits are dropped.
    DiscardWarning,
    /// The question asked before another asset replaces unsaved edits.
    SwitchWarning,
    /// An archived asset takes no new source revision.
    Archived,
    /// The question asked before a source replacement.
    ReplacementWarning,
    /// The replacement form could not be read.
    FormUnreadable,
    /// The replacement PDF was registered.
    ReplacementDone,
    /// The upload could not reach storage.
    StorageUnavailable,
    /// The upload request could not be prepared.
    NotPrepared,
    /// The upload service answered with this non-success status.
    ReplacementRejected(u16),
}

/// The text of an asset-details notice.
pub open spec fn details_message_text(m: DetailsMessage, fa: bool) -> Seq<char> {
    match m {
        DetailsMessage::InvalidJson => if fa { "برچسب‌ها/طبقه‌بندی باید یک شیء JSON معتبر باشد."@ } else { "Tags/classification must be a valid JSON object."@ },
        DetailsMessage::NotObject => if fa { "برچسب‌ها/طبقه‌بندی باید یک شیء JSON باشد."@ } else { "Tags/classification must be a JSON object."@ },
        DetailsMessage::Required => if fa { "عنوان و زبان الزامی هستند."@ } else { "Title and language are required."@ },
        DetailsMessage::RetrievalWarning => if fa { "این تغییر روی بازیابی/بردارها اثر می‌گذارد. اگر منبع پردازش یا منتشر شده باشد، انتشار لغو می‌شود و برای پردازش مجدد بازمی‌گردد. ادامه می‌دهید؟"@ } else { "This change affects retrieval metadata. If the asset is embedded or published, it will be withdrawn and returned for reprocessing. Continue?"@ },
        DetailsMessage::SavedWithdrawn => if fa { "فراداده ذخیره شد. منبع برای پردازش مجدد از انتشار خارج شد."@ } else { "Metadata saved. The asset was withdrawn for reprocessing."@ },
        DetailsMessage::SavedKept => if fa { "فراداده با همان منبع و چرخهٔ عمر ذخیره شد."@ } else { "Metadata saved with the existing source and lifecycle state."@ },
        DetailsMessage::Conflict => if fa { "این منبع هم‌زمان تغییر کرده است. فهرست را تازه کنید و دوباره تلاش کنید."@ } else { "This asset changed while you were editing. Refresh the list and try again."@ },
        DetailsMessage::SaveFailed => if fa { "ذخیرهٔ تغییرات ممکن نشد. داده‌ها را بررسی و فهرست را تازه کنید."@ } else { "The changes could not be saved. Check the values and refresh the asset list."@ },
        DetailsMessage::DiscardWarning => if fa { "تغییرات ذخیره‌نشده کنار گذاشته شوند؟"@ } else { "Discard your unsaved changes?"@ },
        DetailsMessage::SwitchWarning => if fa { "تغییرات ذخیره‌نشده کنار گذاشته و منبع دیگری باز شود؟"@ } else { "Discard unsaved changes and edit another asset?"@ },
        DetailsMessage::Archived => if fa { "منبع بایگانی‌شده نسخهٔ منبع جدید نمی‌پذیرد."@ } else { "Archived assets cannot receive a new source revision."@ },
        DetailsMessage::ReplacementWarning => if fa { "جایگزینی PDF یک نسخهٔ منبع تغییرناپذیر جدید می‌سازد، OCR/بردارهای قبلی را از حالت جاری خارج می‌کند و انتشار را لغو می‌کند. ادامه می‌دهید؟"@ } else { "Replacing the PDF creates a new immutable source revision, retires current OCR/vectors, and withdraws publication. Continue?"@ },
        DetailsMessage::FormUnreadable => if fa { "فرم جایگزینی PDF خوانده نشد. صفحه را تازه کنید."@ } else { "The replacement form could not be read. Refresh the page."@ },
        DetailsMessage::ReplacementDone => if fa { "نسخهٔ جدید PDF ثبت شد. منبع برای بررسی و پردازش مجدد آماده است."@ } else { "New PDF source revision registered. The asset is ready for governed review and reprocessing."@ },
        DetailsMessage::StorageUnavailable => if fa { "سرویس ذخیره‌سازی در دسترس نیست؛ نسخهٔ فعلی تغییر نکرده است."@ } else { "Storage is unavailable; the current source revision was not changed."@ },
        DetailsMessage::NotPrepared => if fa { "آماده‌سازی فایل جایگزین ممکن نشد."@ } else { "The replacement upload could not be prepared."@ },
        DetailsMessage::ReplacementRejected(s) => details_replacement_text(s, fa),
    }
}

/// The text of an asset-details notice, in Persian or English.
pub fn details_message(m: DetailsMessage, fa: bool) -> (res: String)
    ensures
        res@ == details_message_text(m, fa),
{
    match m {
        DetailsMessage::InvalidJson => pick(fa, "برچسب‌ها/طبقه‌بندی باید یک شیء JSON معتبر باشد.", "Tags/classification must be a valid JSON object."),
        DetailsMessage::NotObject => pick(fa, "برچسب‌ها/طبقه‌بندی باید یک شیء JSON باشد.", "Tags/classification must be a JSON object."),
        DetailsMessage::Required => pick(fa, "عنوان و زبان الزامی هستند.", "Title and language are required."),
        DetailsMessage::RetrievalWarning => pick(fa, "این تغییر روی بازیابی/بردارها اثر می‌گذارد. اگر منبع پردازش یا منتشر شده باشد، انتشار لغو می‌شود و برای پردازش مجدد بازمی‌گردد. ادامه می‌دهید؟", "This change affects retrieval metadata. If the asset is embedded or published, it will be withdrawn and returned for reprocessing. Continue?"),
        DetailsMessage::SavedWithdrawn => pick(fa, "فراداده ذخیره شد. منبع برای پردازش مجدد از انتشار خارج شد.", "Metadata saved. The asset was withdrawn for reprocessing."),
        DetailsMessage::SavedKept => pick(fa, "فراداده با همان منبع و چرخهٔ عمر ذخیره شد.", "Metadata saved with the existing source and lifecycle state."),
        DetailsMessage::Conflict => pick(fa, "این منبع هم‌زمان تغییر کرده است. فهرست را تازه کنید و دوباره تلاش کنید.", "This asset changed while you were editing. Refresh the list and try again."),
        DetailsMessage::SaveFailed => pick(fa, "ذخیرهٔ تغییرات ممکن نشد. داده‌ها را بررسی و فهرست را تازه کنید.", "The changes could not be saved. Check the values and refresh the asset list."),
        DetailsMessage::DiscardWarning => pick(fa, "تغییرات ذخیره‌نشده کنار گذاشته شوند؟", "Discard your unsaved changes?"),
        DetailsMessage::SwitchWarning => pick(fa, "تغییرات ذخیره‌نشده کنار گذاشته و منبع دیگری باز شود؟", "Discard unsaved changes and edit another asset?"),
        DetailsMessage::Archived => pick(fa, "منبع بایگانی‌شده نسخهٔ منبع جدید نمی‌پذیرد.", "Archived assets cannot receive a new source revision."),
        DetailsMessage::ReplacementWarning => pick(fa, "جایگزینی PDF یک نسخهٔ منبع تغییرناپذیر جدید می‌سازد، OCR/بردارهای قبلی را از حالت جاری خارج می‌کند و انتشار را لغو می‌کند. ادامه می‌دهید؟", "Replacing the PDF creates a new immutable source revision, retires current OCR/vectors, and withdraws publication. Continue?"),
        DetailsMessage::FormUnreadable => pick(fa, "فرم جایگزینی PDF خوانده نشد. صفحه را تازه کنید.", "The replacement form could not be read. Refresh the page."),
        DetailsMessage::ReplacementDone => pick(fa, "نسخهٔ جدید PDF ثبت شد. منبع برای بررسی و پردازش مجدد آماده است.", "New PDF source revision registered. The asset is ready for governed review and reprocessing."),
        DetailsMessage::StorageUnavailable => pick(fa, "سرویس ذخیره‌سازی در دسترس نیست؛ نسخهٔ فعلی تغییر نکرده است.", "Storage is unavailable; the current source revision was not changed."),
        DetailsMessage::NotPrepared => pick(fa, "آماده‌سازی فایل جایگزین ممکن نشد.", "The replacement upload could not be prepared."),
        DetailsMessage::ReplacementRejected(s) => details_replacement_error_message(s, fa),
    }
}

/// The notice for a refused draft of the asset-details form.
pub open spec fn rejection_message(r: DetailsRejection) -> DetailsMessage {
    match r {
        DetailsRejection::InvalidJson => DetailsMessage::InvalidJson,
        DetailsRejection::NotObject => DetailsMessage::NotObject,
        DetailsRejection::Required => DetailsMessage::Required,
    }
}

/// The notice for a refused draft of the asset-details form.
pub fn details_rejection_message(r: DetailsRejection) -> (res: DetailsMessage)
    ensures
        res == rejection_message(r),
{
    match r {
        DetailsRejection::InvalidJson => DetailsMessage::InvalidJson,
        DetailsRejection::NotObject => DetailsMessage::NotObject,
        DetailsRejection::Required => DetailsMessage::Required,
    }
}

/// The notice for a failed save of the asset-details form: a conflict when
/// the server's error names the whole phrase "changed while you were
/// editing", any other failure otherwise.
pub fn details_save_failure(error: &str) -> (res: DetailsMessage)
    ensures
        res == if crate::text::contains_seq(error@, "changed while you were editing"@) {
            DetailsMessage::Conflict
        } else {
            DetailsMessage::SaveFailed
        },
{
    if contains(error, "changed while you were editing") {
        DetailsMessage::Conflict
    } else {
        DetailsMessage::SaveFailed
    }
}


/// The parse of a tags text as the plain values the plans read.
pub open spec fn doc_view(parsed: Option<JsonDoc>) -> Option<(bool, Seq<char>, Option<Seq<char>>)> {
    match parsed {
        Some(d) => Some(
            (
                d.is_object,
                d.canonical@,
                match d.pretty {
                    Some(p) => Some(p@),
                    None => None,
                },
            ),
        ),
        None => None,
    }
}

/// What pressing "Save" on the asset-details form leads to.
pub enum DetailsSavePlan {
    /// Nothing happens (busy, or no asset open).
    Ignore,
    /// The draft is refused with this notice.
    Reject(DetailsMessage),
    /// The update is sent; `sensitive` asks for the retrieval warning first.
    Send { request: UpdateMetadataRequest, sensitive: bool },
}

pub enum DetailsSavePlanView {
    Ignore,
    Reject(DetailsMessage),
    Send(MetadataRequestView, bool),
}

impl View for DetailsSavePlan {
    type V = DetailsSavePlanView;

    open spec fn view(&self) -> DetailsSavePlanView {
        match self {
            DetailsSavePlan::Ignore => DetailsSavePlanView::Ignore,
            DetailsSavePlan::Reject(m) => DetailsSavePlanView::Reject(*m),
            DetailsSavePlan::Send { request, sensitive } => DetailsSavePlanView::Send(request@, *sensitive),
        }
    }
}

/// The save the asset-details form leads to, given what the trimmed tags
/// text parses to: the tags are checked first, then title and language;
/// an accepted draft sends the same update as the editor's save.
pub open spec fn details_save_plan_model(
    v: EditorView,
    parsed: Option<(bool, Seq<char>, Option<Seq<char>>)>,
) -> DetailsSavePlanView {
    match v.selected {
        None => DetailsSavePlanView::Ignore,
        Some(a) => if v.busy {
            DetailsSavePlanView::Ignore
        } else {
            match details_check_spec(v.draft, parsed) {
                Some(r) => DetailsSavePlanView::Reject(rejection_message(r)),
                None => DetailsSavePlanView::Send(
                    metadata_request(a, v.draft, parsed.unwrap().1),
                    retrieval_sensitive(a, v.draft, parsed.unwrap().1),
                ),
            }
        },
    }
}

impl AssetEditor {
    /// The save that pressing "Save" on the asset-details form leads to,
    /// given the parse of the trimmed tags text.
    pub fn plan_details_save_with(&self, parsed: Option<JsonDoc>) -> (res: DetailsSavePlan)
        ensures
            res@ == details_save_plan_model(self@, doc_view(parsed)),
    {
        let asset = match &self.selected {
            Some(a) => a,
            None => return DetailsSavePlan::Ignore,
        };
        if self.busy {
            return DetailsSavePlan::Ignore;
        }
        match details_check(&self.draft, &parsed) {
            Some(r) => DetailsSavePlan::Reject(details_rejection_message(r)),
            None => {
                let doc = match parsed {
                    Some(d) => d,
                    None => return DetailsSavePlan::Ignore,
                };
                let sensitive = retrieval_sensitive_changed(asset, &self.draft, &doc.canonical);
                let request = UpdateMetadataRequest {
                    asset_id: asset.id.clone(),
                    expected_revision: asset.asset_revision,
                    title: trim(self.draft.title.as_str()).to_owned(),
                    description: normalized_optional(self.draft.description.as_str()),
                    subject: normalized_optional(self.draft.subject.as_str()),
                    grade: normalized_optional(self.draft.grade.as_str()),
                    language: trim(self.draft.language.as_str()).to_owned(),
                    template_type: normalized_optional(self.draft.template_type.as_str()),
                    tags: doc.canonical,
                };
                DetailsSavePlan::Send { request, sensitive }
            },
        }
    }

    /// The save that pressing "Save" on the asset-details form leads to: the
    /// tags text, trimmed, is read as JSON and checked before the draft.
    pub fn plan_details_save(&self) -> (res: DetailsSavePlan)
        ensures
            res@ == details_save_plan_model(self@, json_document(trimmed(self.draft.tags_json@))),
    {
        let parsed = parse_json(trim(self.draft.tags_json.as_str()));
        self.plan_details_save_with(parsed)
    }
}

/// Each field retrieval indexes makes a save sensitive when it changes:
/// a title, subject, grade, language or template/type that differs from
/// the asset's after trimming, or tags that read as a different JSON
/// value, each on its own asks for the retrieval warning. An edit that
/// keeps all of them (after trimming) and the asset's own tags does not.
pub proof fn lemma_each_indexed_field_is_sensitive(
    asset: KnowledgeAssetEditState,
    draft: Seq<Seq<char>>,
    tags: Seq<char>,
)
    requires
        draft.len() == 7,
    ensures
        trimmed(asset.title@) != trimmed(draft[0]) ==> retrieval_sensitive(asset, draft, tags),
        trimmed(text_or_empty(asset.subject)) != trimmed(draft[2]) ==> retrieval_sensitive(asset, draft, tags),
        trimmed(text_or_empty(asset.grade)) != trimmed(draft[3]) ==> retrieval_sensitive(asset, draft, tags),
        trimmed(asset.language@) != trimmed(draft[4]) ==> retrieval_sensitive(asset, draft, tags),
        trimmed(text_or_empty(asset.template_type)) != trimmed(draft[5]) ==> retrieval_sensitive(asset, draft, tags),
        (asset.tags@ != tags && !same_json_value(asset.tags@, tags)) ==> retrieval_sensitive(asset, draft, tags),
        (trimmed(asset.title@) == trimmed(draft[0]) && trimmed(text_or_empty(asset.subject)) == trimmed(draft[2])
            && trimmed(text_or_empty(asset.grade)) == trimmed(draft[3]) && trimmed(asset.language@) == trimmed(draft[4])
            && trimmed(text_or_empty(asset.template_type)) == trimmed(draft[5]) && tags == asset.tags@)
            ==> !retrieval_sensitive(asset, draft, tags),
{
}

/// A description-only edit does not touch retrieval: a draft that differs
/// from the one its asset opened with in the description alone, saved with
/// the asset's own tags, is never retrieval-sensitive.
pub proof fn lemma_description_only_is_not_sensitive(asset: KnowledgeAssetEditState, draft: Seq<Seq<char>>)
    requires
        draft.len() == 7,
        forall|k: int| 0 <= k < 6 && k != 1 ==> draft[k] == #[trigger] draft_of(asset)[k],
    ensures
        !retrieval_sensitive(asset, draft, asset.tags@),
{
    assert(draft[0] == draft_of(asset)[0]);
    assert(draft[2] == draft_of(asset)[2]);
    assert(draft[3] == draft_of(asset)[3]);
    assert(draft[4] == draft_of(asset)[4]);
    assert(draft[5] == draft_of(asset)[5]);
}

} // verus!
