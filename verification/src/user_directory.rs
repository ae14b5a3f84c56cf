//! The school's user directory: its filters and the query they become, the
//! cached result they match, row formatting, and the messages of the
//! activation and edit actions.

use vstd::prelude::*;
use crate::text::{ascii_lower, concat, lowercase_of, replace_all, replace_text, same_text, to_lowercase};

verus! {

/// The directory's filters, also the key of its cached result.
pub struct UserFilters {
    pub role: String,
    pub status: String,
    pub query: String,
}

impl View for UserFilters {
    type V = (Seq<char>, Seq<char>, Seq<char>);

    open spec fn view(&self) -> (Seq<char>, Seq<char>, Seq<char>) {
        (self.role@, self.status@, self.query@)
    }
}

impl UserFilters {
    /// The filters a directory opens with: the cached ones when a result is
    /// cached, else every role, every status, no search.
    pub fn initial(cached: Option<&UserFilters>) -> (res: Self)
        ensures
            match cached {
                Some(c) => res@ == c@,
                None => res@ == ("All"@, "All"@, Seq::<char>::empty()),
            },
    {
        match cached {
            Some(c) => UserFilters { role: c.role.clone(), status: c.status.clone(), query: c.query.clone() },
            None => {
                proof {
                    reveal_strlit("All");
                }
                UserFilters { role: "All".to_owned(), status: "All".to_owned(), query: String::new() }
            },
        }
    }

    /// Whether a cached result was read with these very filters.
    pub fn matches(&self, other: &UserFilters) -> (res: bool)
        ensures
            res == (self@ == other@),
    {
        same_text(self.role.as_str(), other.role.as_str()) && same_text(self.status.as_str(), other.status.as_str())
            && same_text(self.query.as_str(), other.query.as_str())
    }
}

/// The server query the filters become: no role filter for "All", no
/// status filter for "All" (else the status in lower case), no search for
/// an empty query (else the query as typed).
pub struct DirectoryQuery {
    pub role: Option<String>,
    pub status: Option<String>,
    pub query: Option<String>,
}

pub open spec fn opt_view(o: Option<String>) -> Option<Seq<char>> {
    match o {
        Some(s) => Some(s@),
        None => None,
    }
}

pub open spec fn directory_query_spec(f: (Seq<char>, Seq<char>, Seq<char>)) -> (Option<Seq<char>>, Option<Seq<char>>, Option<Seq<char>>) {
    (
        if f.0 == "All"@ { None } else { Some(f.0) },
        if f.1 == "All"@ { None } else { Some(lowercase_of(f.1)) },
        if f.2.len() == 0 { None } else { Some(f.2) },
    )
}

/// The server query for the filters.
pub fn directory_query(f: &UserFilters) -> (res: DirectoryQuery)
    ensures
        (opt_view(res.role), opt_view(res.status), opt_view(res.query)) == directory_query_spec(f@),
{
    DirectoryQuery {
        role: if same_text(f.role.as_str(), "All") { None } else { Some(f.role.clone()) },
        status: if same_text(f.status.as_str(), "All") { None } else { Some(to_lowercase(f.status.as_str())) },
        query: if f.query.as_str().is_empty() { None } else { Some(f.query.clone()) },
    }
}

/// Where the directory's users come from.
pub enum DirectoryLoad {
    /// The cached users, read with these very filters.
    Cached,
    /// A server read with this query; its users are then cached with the
    /// filters when it succeeds.
    Fetch(DirectoryQuery),
}

/// Where the directory's users come from for the current filters: the
/// cache when it holds users read with the same filters, else the server
/// with the filters' query.
pub fn directory_load(cached: Option<&UserFilters>, current: &UserFilters) -> (res: DirectoryLoad)
    ensures
        match res {
            DirectoryLoad::Cached => cached matches Some(c) && c@ == current@,
            DirectoryLoad::Fetch(q) => !(cached matches Some(c) && c@ == current@) && (
                opt_view(q.role),
                opt_view(q.status),
                opt_view(q.query),
            ) == directory_query_spec(current@),
        },
{
    match cached {
        Some(c) => {
            if c.matches(current) {
                return DirectoryLoad::Cached;
            }
        },
        None => {},
    }
    DirectoryLoad::Fetch(directory_query(current))
}

/// The date part of a timestamp: everything before the first `T`.
pub open spec fn date_part_text(ts: Seq<char>) -> Seq<char>
    decreases ts.len(),
{
    if ts.len() == 0 || ts[0] == 'T' {
        Seq::<char>::empty()
    } else {
        seq![ts[0]] + date_part_text(ts.drop_first())
    }
}

/// The "joined" column: the date part of the creation timestamp.
pub fn date_part(created_at: &str) -> (res: String)
    ensures
        res@ == date_part_text(created_at@),
{
    let cs = crate::text::chars_of(created_at);
    let mut i: usize = 0;
    while i < cs.len() && cs[i] != 'T'
        invariant
            cs@ == created_at@,
            i <= cs.len(),
            forall|k: int| 0 <= k < i ==> cs@[k] != 'T',
        decreases cs.len() - i,
    {
        i = i + 1;
    }
    let mut out = String::new();
    let mut j: usize = 0;
    while j < i
        invariant
            cs@ == created_at@,
            i <= cs.len(),
            j <= i,
            forall|k: int| 0 <= k < i ==> cs@[k] != 'T',
            out@ == created_at@.take(j as int),
        decreases i - j,
    {
        crate::text::push_char(&mut out, cs[j]);
        j = j + 1;
        assert(out@ =~= created_at@.take(j as int));
    }
    proof {
        lemma_date_part_prefix(created_at@, i as int);
    }
    out
}

proof fn lemma_date_part_prefix(ts: Seq<char>, i: int)
    requires
        0 <= i <= ts.len(),
        forall|k: int| 0 <= k < i ==> ts[k] != 'T',
        i == ts.len() || ts[i] == 'T',
    ensures
        date_part_text(ts) == ts.take(i),
    decreases i,
{
    if i == 0 {
        assert(ts.take(0) =~= Seq::<char>::empty());
    } else {
        lemma_date_part_prefix(ts.drop_first(), i - 1);
        assert(ts.take(i) =~= seq![ts[0]] + ts.drop_first().take(i - 1));
    }
}

/// The letter of a row's avatar: the name's first character, `U` for none.
pub fn avatar_initial(name: &str) -> (res: char)
    ensures
        res == (if name@.len() > 0 { name@[0] } else { 'U' }),
{
    let cs = crate::text::chars_of(name);
    if cs.len() > 0 {
        cs[0]
    } else {
        'U'
    }
}

/// The outcome of an account action in the directory.
#[derive(PartialEq, Eq, Structural, Clone, Copy, Debug)]
pub enum UserAction {
    Deactivate,
    Reactivate,
    Update,
}

/// The translation key of an action's success or failure message.
pub open spec fn user_action_key(action: UserAction, ok: bool) -> Seq<char> {
    match (action, ok) {
        (UserAction::Deactivate, true) => "school_manager.users.messages.deactivate_success"@,
        (UserAction::Deactivate, false) => "school_manager.users.messages.deactivate_fail"@,
        (UserAction::Reactivate, true) => "school_manager.users.messages.reactivate_success"@,
        (UserAction::Reactivate, false) => "school_manager.users.messages.reactivate_fail"@,
        (UserAction::Update, true) => "school_manager.users.messages.update_success"@,
        (UserAction::Update, false) => "school_manager.users.messages.update_fail"@,
    }
}

pub fn user_action_message_key(action: UserAction, ok: bool) -> (res: &'static str)
    ensures
        res@ == user_action_key(action, ok),
{
    proof {
        reveal_strlit("school_manager.users.messages.deactivate_success");
        reveal_strlit("school_manager.users.messages.deactivate_fail");
        reveal_strlit("school_manager.users.messages.reactivate_success");
        reveal_strlit("school_manager.users.messages.reactivate_fail");
        reveal_strlit("school_manager.users.messages.update_success");
        reveal_strlit("school_manager.users.messages.update_fail");
    }
    match (action, ok) {
        (UserAction::Deactivate, true) => "school_manager.users.messages.deactivate_success",
        (UserAction::Deactivate, false) => "school_manager.users.messages.deactivate_fail",
        (UserAction::Reactivate, true) => "school_manager.users.messages.reactivate_success",
        (UserAction::Reactivate, false) => "school_manager.users.messages.reactivate_fail",
        (UserAction::Update, true) => "school_manager.users.messages.update_success",
        (UserAction::Update, false) => "school_manager.users.messages.update_fail",
    }
}

/// The message after an action: the translated success text, or the
/// translated failure text followed by the server's error.
pub fn user_action_message(translated: &str, server_error: Option<&str>) -> (res: String)
    ensures
        res@ == match server_error {
            Some(e) => translated@ + e@,
            None => translated@,
        },
{
    match server_error {
        Some(e) => concat(translated, e),
        None => translated.to_owned(),
    }
}

/// The load-error line: the translated template with `{e}` replaced by the
/// error.
pub fn load_error_message(template: &str, error: &str) -> (res: String)
    ensures
        res@ == replace_all(template@, "{e}"@, error@),
{
    proof {
        reveal_strlit("{e}");
    }
    replace_text(template, "{e}", error)
}

/// A summary card's count, or `...` while it loads.
pub fn count_display(count: &Option<String>) -> (res: String)
    ensures
        res@ == match count {
            Some(c) => c@,
            None => "..."@,
        },
{
    match count {
        Some(c) => c.clone(),
        None => "...".to_owned(),
    }
}

/// Which dialog the directory's action bar has open.
#[derive(PartialEq, Eq, Structural, Clone, Copy, Debug)]
pub enum UserActionModal {
    Closed,
    Import,
    Export,
}

/// The export dialog's choices. Exporting itself is not offered yet: its
/// button stays disabled.
pub struct ExportOptions {
    pub format_json: bool,
    pub include_inactive: bool,
}

impl ExportOptions {
    pub fn new() -> (res: Self)
        ensures
            !res.format_json && !res.include_inactive,
    {
        ExportOptions { format_json: false, include_inactive: false }
    }

    /// The format's text: `csv` or `json`.
    pub fn format_text(&self) -> (res: &'static str)
        ensures
            res@ == if self.format_json { "json"@ } else { "csv"@ },
    {
        proof {
            reveal_strlit("json");
            reveal_strlit("csv");
        }
        if self.format_json {
            "json"
        } else {
            "csv"
        }
    }

    pub fn export_enabled(&self) -> (res: bool)
        ensures
            !res,
    {
        false
    }
}

/// The edit dialog of one user: the name and email being edited.
pub struct UserEditor {
    pub user_id: String,
    pub name: String,
    pub email: String,
    pub saving: bool,
    /// The server's error after a failed save.
    pub error: Option<String>,
}

impl UserEditor {
    /// The dialog for a user, with the current name and email.
    pub fn open(user_id: &str, name: &str, email: &str) -> (res: Self)
        ensures
            res.user_id@ == user_id@ && res.name@ == name@ && res.email@ == email@,
            !res.saving && res.error.is_none(),
    {
        UserEditor {
            user_id: user_id.to_owned(),
            name: name.to_owned(),
            email: email.to_owned(),
            saving: false,
            error: None,
        }
    }

    /// "Save": the update of name and email, as typed, goes out.
    pub fn save(&mut self) -> (res: (String, String, String))
        ensures
            res.0@ == old(self).user_id@ && res.1@ == old(self).name@ && res.2@ == old(self).email@,
            final(self).saving && final(self).error.is_none(),
            final(self).name == old(self).name && final(self).email == old(self).email,
    {
        self.saving = true;
        self.error = None;
        (self.user_id.clone(), self.name.clone(), self.email.clone())
    }

    /// The server's answer; on success the dialog is to close.
    pub fn save_finished(&mut self, failure: Option<String>) -> (close: bool)
        ensures
            close == failure.is_none(),
            !final(self).saving,
            final(self).error == failure,
    {
        let close = failure.is_none();
        self.error = failure;
        self.saving = false;
        close
    }
}

} // verus!
