//! The school manager's settings: the tabs, general display preferences,
//! in-app notification preferences, the profile form, and the notice shown
//! where password changes are not offered.

use vstd::prelude::*;
use crate::text::{contains, contains_seq, same_text};

verus! {

/// A settings tab.
#[derive(PartialEq, Eq, Structural, Clone, Copy, Debug)]
pub enum SettingsTab {
    Profile,
    Security,
    General,
    Notifications,
}

/// The tab an id selects; unknown ids show the profile.
pub open spec fn settings_tab_of(id: Seq<char>) -> SettingsTab {
    if id == "security"@ {
        SettingsTab::Security
    } else if id == "general"@ {
        SettingsTab::General
    } else if id == "notifications"@ {
        SettingsTab::Notifications
    } else {
        SettingsTab::Profile
    }
}

pub fn settings_tab(id: &str) -> (res: SettingsTab)
    ensures
        res == settings_tab_of(id@),
{
    if same_text(id, "security") {
        SettingsTab::Security
    } else if same_text(id, "general") {
        SettingsTab::General
    } else if same_text(id, "notifications") {
        SettingsTab::Notifications
    } else {
        SettingsTab::Profile
    }
}

/// The display preferences of the general tab.
pub struct GeneralPreferences {
    pub timezone: String,
    pub language: String,
    pub date_format: String,
    pub time_format: String,
}

impl View for GeneralPreferences {
    type V = (Seq<char>, Seq<char>, Seq<char>, Seq<char>);

    open spec fn view(&self) -> (Seq<char>, Seq<char>, Seq<char>, Seq<char>) {
        (self.timezone@, self.language@, self.date_format@, self.time_format@)
    }
}

impl GeneralPreferences {
    /// The preferences before the saved ones arrive: UTC, the current
    /// language, ISO dates, a 24-hour clock.
    pub fn defaults(language: &str) -> (res: Self)
        ensures
            res@ == ("UTC"@, language@, "YYYY-MM-DD"@, "24h"@),
    {
        proof {
            reveal_strlit("UTC");
            reveal_strlit("YYYY-MM-DD");
            reveal_strlit("24h");
        }
        GeneralPreferences {
            timezone: "UTC".to_owned(),
            language: language.to_owned(),
            date_format: "YYYY-MM-DD".to_owned(),
            time_format: "24h".to_owned(),
        }
    }

    pub fn duplicate(&self) -> (res: Self)
        ensures
            res@ == self@,
    {
        GeneralPreferences {
            timezone: self.timezone.clone(),
            language: self.language.clone(),
            date_format: self.date_format.clone(),
            time_format: self.time_format.clone(),
        }
    }
}

/// The message for refused general preferences, by the code in the error.
pub open spec fn preference_error_text(raw: Seq<char>) -> Seq<char> {
    if contains_seq(raw, "language_unsupported"@) {
        "That language is not supported by this release."@
    } else if contains_seq(raw, "timezone_unsupported"@) {
        "That timezone is not supported by this release."@
    } else if contains_seq(raw, "date_format_unsupported"@) || contains_seq(raw, "time_format_unsupported"@) {
        "That display format is not supported by this release."@
    } else {
        "Preferences could not be saved. Refresh and try again."@
    }
}

pub fn preference_error(raw: &str) -> (res: String)
    ensures
        res@ == preference_error_text(raw@),
{
    let t = if contains(raw, "language_unsupported") {
        "That language is not supported by this release."
    } else if contains(raw, "timezone_unsupported") {
        "That timezone is not supported by this release."
    } else if contains(raw, "date_format_unsupported") || contains(raw, "time_format_unsupported") {
        "That display format is not supported by this release."
    } else {
        "Preferences could not be saved. Refresh and try again."
    };
    t.to_owned()
}

/// The time zones offered.
pub open spec fn timezone_list() -> Seq<Seq<char>> {
    seq![
        "UTC"@,
        "Asia/Tehran"@,
        "Asia/Dubai"@,
        "Asia/Tokyo"@,
        "Europe/London"@,
        "Europe/Paris"@,
        "America/New_York"@,
        "America/Chicago"@,
        "America/Denver"@,
        "America/Los_Angeles"@,
        "Australia/Sydney"@,
    ]
}

/// The time zone options: each zone as its own value and label.
pub fn timezone_options() -> (res: Vec<(String, String)>)
    ensures
        res@.len() == timezone_list().len(),
        forall|i: int| 0 <= i < res@.len() ==> #[trigger] res@[i].0@ == timezone_list()[i] && res@[i].1@ == timezone_list()[i],
{
    let zones: [&str; 11] = [
        "UTC",
        "Asia/Tehran",
        "Asia/Dubai",
        "Asia/Tokyo",
        "Europe/London",
        "Europe/Paris",
        "America/New_York",
        "America/Chicago",
        "America/Denver",
        "America/Los_Angeles",
        "Australia/Sydney",
    ];
    proof {
        reveal_strlit("UTC");
        reveal_strlit("Asia/Tehran");
        reveal_strlit("Asia/Dubai");
        reveal_strlit("Asia/Tokyo");
        reveal_strlit("Europe/London");
        reveal_strlit("Europe/Paris");
        reveal_strlit("America/New_York");
        reveal_strlit("America/Chicago");
        reveal_strlit("America/Denver");
        reveal_strlit("America/Los_Angeles");
        reveal_strlit("Australia/Sydney");
        assert(zones@.map_values(|z: &str| z@) =~= timezone_list());
    }
    let mut out: Vec<(String, String)> = Vec::new();
    let mut i: usize = 0;
    while i < 11
        invariant
            i <= 11,
            zones@.map_values(|z: &str| z@) == timezone_list(),
            out@.len() == i,
            forall|k: int| 0 <= k < i ==> #[trigger] out@[k].0@ == timezone_list()[k] && out@[k].1@ == timezone_list()[k],
        decreases 11 - i,
    {
        let z = zones[i];
        assert(z@ == timezone_list()[i as int]);
        out.push((z.to_owned(), z.to_owned()));
        i = i + 1;
    }
    out
}

/// The date format options: (value, label with an example).
pub fn date_format_options() -> (res: Vec<(String, String)>)
    ensures
        res@.len() == 4,
        res@[0].0@ == "YYYY-MM-DD"@ && res@[0].1@ == "YYYY-MM-DD (2026-08-22)"@,
        res@[1].0@ == "MM/DD/YYYY"@ && res@[1].1@ == "MM/DD/YYYY (08/22/2026)"@,
        res@[2].0@ == "DD/MM/YYYY"@ && res@[2].1@ == "DD/MM/YYYY (22/08/2026)"@,
        res@[3].0@ == "DD.MM.YYYY"@ && res@[3].1@ == "DD.MM.YYYY (22.08.2026)"@,
{
    let mut out: Vec<(String, String)> = Vec::new();
    out.push(("YYYY-MM-DD".to_owned(), "YYYY-MM-DD (2026-08-22)".to_owned()));
    out.push(("MM/DD/YYYY".to_owned(), "MM/DD/YYYY (08/22/2026)".to_owned()));
    out.push(("DD/MM/YYYY".to_owned(), "DD/MM/YYYY (22/08/2026)".to_owned()));
    out.push(("DD.MM.YYYY".to_owned(), "DD.MM.YYYY (22.08.2026)".to_owned()));
    out
}

/// A preference form's load and save state and its notice.
pub struct PreferenceStatus {
    pub loading: bool,
    pub load_failed: bool,
    pub saving: bool,
    pub notice: Option<(bool, String)>,
}

impl PreferenceStatus {
    pub fn new() -> (res: Self)
        ensures
            res.loading && !res.load_failed && !res.saving && res.notice.is_none(),
    {
        PreferenceStatus { loading: true, load_failed: false, saving: false, notice: None }
    }

    /// The saved preferences arrived (or could not be read).
    pub fn loaded(&mut self, ok: bool)
        ensures
            !final(self).loading,
            final(self).load_failed == !ok,
            final(self).saving == old(self).saving && final(self).notice == old(self).notice,
    {
        self.load_failed = !ok;
        self.loading = false;
    }

    /// "Save": refused while saving; else saving, notice cleared.
    pub fn start_save(&mut self) -> (started: bool)
        ensures
            started == !old(self).saving,
            final(self).saving,
            started ==> final(self).notice.is_none(),
            !started ==> final(self).notice == old(self).notice,
            final(self).loading == old(self).loading && final(self).load_failed == old(self).load_failed,
    {
        if self.saving {
            return false;
        }
        self.saving = true;
        self.notice = None;
        true
    }

    fn finish(&mut self, ok: bool, message: String)
        ensures
            !final(self).saving,
            final(self).notice matches Some((s, m)) && s == ok && m@ == message@,
            final(self).loading == old(self).loading && final(self).load_failed == old(self).load_failed,
    {
        self.notice = Some((ok, message));
        self.saving = false;
    }
}

/// The general tab.
pub struct GeneralSettingsForm {
    pub prefs: GeneralPreferences,
    pub status: PreferenceStatus,
}

impl GeneralSettingsForm {
    pub fn new(language: &str) -> (res: Self)
        ensures
            res.prefs@ == ("UTC"@, language@, "YYYY-MM-DD"@, "24h"@),
            res.status.loading,
    {
        GeneralSettingsForm { prefs: GeneralPreferences::defaults(language), status: PreferenceStatus::new() }
    }

    /// The saved preferences arrived; they replace the shown ones.
    pub fn loaded(&mut self, saved: Option<GeneralPreferences>)
        ensures
            match saved {
                Some(p) => final(self).prefs@ == p@ && !final(self).status.load_failed,
                None => final(self).prefs@ == old(self).prefs@ && final(self).status.load_failed,
            },
            !final(self).status.loading,
    {
        let ok = saved.is_some();
        if let Some(p) = saved {
            self.prefs = p;
        }
        self.status.loaded(ok);
    }

    /// "Save": the shown preferences go out, unless a save is under way.
    pub fn save(&mut self) -> (res: Option<GeneralPreferences>)
        ensures
            match res {
                Some(r) => !old(self).status.saving && r@ == old(self).prefs@,
                None => old(self).status.saving,
            },
            final(self).status.saving,
            final(self).prefs@ == old(self).prefs@,
    {
        if !self.status.start_save() {
            return None;
        }
        Some(self.prefs.duplicate())
    }

    /// The server's answer: the preferences it stored, or its error text.
    pub fn save_finished(&mut self, result: Result<GeneralPreferences, String>)
        ensures
            !final(self).status.saving,
            match result {
                Ok(p) => final(self).status.notice matches Some((s, m)) && s && m@ == "Preferences saved."@
                    && final(self).prefs@ == p@,
                Err(e) => final(self).status.notice matches Some((s, m)) && !s && m@ == preference_error_text(e@)
                    && final(self).prefs@ == old(self).prefs@,
            },
    {
        match result {
            Ok(p) => {
                self.prefs = p;
                proof {
                    reveal_strlit("Preferences saved.");
                }
                self.status.finish(true, "Preferences saved.".to_owned());
            },
            Err(e) => {
                let m = preference_error(e.as_str());
                self.status.finish(false, m);
            },
        }
    }
}

/// The in-app notification preferences that this release offers.
#[derive(PartialEq, Eq, Structural, Clone, Copy, Debug)]
pub struct NotificationChoices {
    pub in_app: bool,
    pub user_registered: bool,
    pub class_created: bool,
    pub assignment_submitted: bool,
    pub profile_change: bool,
    pub announcements: bool,
}

/// Which switch.
#[derive(PartialEq, Eq, Structural, Clone, Copy, Debug)]
pub enum NotificationSwitch {
    InApp,
    UserRegistered,
    ClassCreated,
    AssignmentSubmitted,
    ProfileChange,
    Announcements,
}

/// A notification preferences update as sent to the server.
#[derive(PartialEq, Eq, Structural, Clone, Copy, Debug)]
pub struct NotificationUpdate {
    pub email_notifications: bool,
    pub push_notifications: bool,
    pub in_app_notifications: bool,
    pub notify_user_registered: bool,
    pub notify_class_created: bool,
    pub notify_assignment_submitted: bool,
    pub notify_report_generated: bool,
    pub notify_profile_change: bool,
    pub notify_system_announcements: bool,
}

impl NotificationChoices {
    /// Every switch on, as the form shows before the saved choices arrive.
    pub fn all_on() -> (res: Self)
        ensures
            res.in_app && res.user_registered && res.class_created && res.assignment_submitted
                && res.profile_change && res.announcements,
    {
        NotificationChoices {
            in_app: true,
            user_registered: true,
            class_created: true,
            assignment_submitted: true,
            profile_change: true,
            announcements: true,
        }
    }

    /// Flips one switch.
    pub fn toggle(&mut self, switch: NotificationSwitch)
        ensures
            final(self).in_app == (if switch == NotificationSwitch::InApp { !old(self).in_app } else { old(self).in_app }),
            final(self).user_registered == (if switch == NotificationSwitch::UserRegistered { !old(self).user_registered } else { old(self).user_registered }),
            final(self).class_created == (if switch == NotificationSwitch::ClassCreated { !old(self).class_created } else { old(self).class_created }),
            final(self).assignment_submitted == (if switch == NotificationSwitch::AssignmentSubmitted { !old(self).assignment_submitted } else { old(self).assignment_submitted }),
            final(self).profile_change == (if switch == NotificationSwitch::ProfileChange { !old(self).profile_change } else { old(self).profile_change }),
            final(self).announcements == (if switch == NotificationSwitch::Announcements { !old(self).announcements } else { old(self).announcements }),
    {
        match switch {
            NotificationSwitch::InApp => self.in_app = !self.in_app,
            NotificationSwitch::UserRegistered => self.user_registered = !self.user_registered,
            NotificationSwitch::ClassCreated => self.class_created = !self.class_created,
            NotificationSwitch::AssignmentSubmitted => self.assignment_submitted = !self.assignment_submitted,
            NotificationSwitch::ProfileChange => self.profile_change = !self.profile_change,
            NotificationSwitch::Announcements => self.announcements = !self.announcements,
        }
    }

    /// The update these choices become. Channels this release does not
    /// deliver (email, push, report alerts) are always sent switched off.
    pub fn to_update(&self) -> (res: NotificationUpdate)
        ensures
            update_of_choices(res, *self),
    {
        NotificationUpdate {
            email_notifications: false,
            push_notifications: false,
            in_app_notifications: self.in_app,
            notify_user_registered: self.user_registered,
            notify_class_created: self.class_created,
            notify_assignment_submitted: self.assignment_submitted,
            notify_report_generated: false,
            notify_profile_change: self.profile_change,
            notify_system_announcements: self.announcements,
        }
    }
}

/// The update a set of choices becomes: email, push and report alerts
/// switched off, and the six in-app switches as chosen.
pub open spec fn update_of_choices(u: NotificationUpdate, c: NotificationChoices) -> bool {
    &&& !u.email_notifications && !u.push_notifications && !u.notify_report_generated
    &&& u.in_app_notifications == c.in_app
    &&& u.notify_user_registered == c.user_registered
    &&& u.notify_class_created == c.class_created
    &&& u.notify_assignment_submitted == c.assignment_submitted
    &&& u.notify_profile_change == c.profile_change
    &&& u.notify_system_announcements == c.announcements
}

/// The email digest frequency sent with every update: never.
pub fn email_digest_frequency() -> (res: &'static str)
    ensures
        res@ == "never"@,
{
    proof {
        reveal_strlit("never");
    }
    "never"
}

/// The notice after saving notification preferences.
pub open spec fn notification_saved_text(ok: bool) -> Seq<char> {
    if ok {
        "In-app notification preferences saved."@
    } else {
        "Notification preferences could not be saved. Refresh and try again."@
    }
}

/// The notifications tab.
pub struct NotificationSettingsForm {
    pub choices: NotificationChoices,
    pub status: PreferenceStatus,
}

impl NotificationSettingsForm {
    pub fn new() -> (res: Self)
        ensures
            res.choices == NotificationChoices::all_on_spec(),
            res.status.loading,
    {
        NotificationSettingsForm { choices: NotificationChoices::all_on(), status: PreferenceStatus::new() }
    }

    pub fn loaded(&mut self, saved: Option<NotificationChoices>)
        ensures
            match saved {
                Some(c) => final(self).choices == c && !final(self).status.load_failed,
                None => final(self).choices == old(self).choices && final(self).status.load_failed,
            },
            !final(self).status.loading,
    {
        let ok = saved.is_some();
        if let Some(c) = saved {
            self.choices = c;
        }
        self.status.loaded(ok);
    }

    /// "Save": the update goes out unless a save is under way.
    pub fn save(&mut self) -> (res: Option<NotificationUpdate>)
        ensures
            match res {
                Some(u) => !old(self).status.saving && update_of_choices(u, old(self).choices)
                    && final(self).status.notice.is_none(),
                None => old(self).status.saving && final(self).status.notice == old(self).status.notice,
            },
            final(self).status.saving,
            final(self).status.loading == old(self).status.loading,
            final(self).status.load_failed == old(self).status.load_failed,
            final(self).choices == old(self).choices,
    {
        if !self.status.start_save() {
            return None;
        }
        Some(self.choices.to_update())
    }

    pub fn save_finished(&mut self, ok: bool)
        ensures
            !final(self).status.saving,
            final(self).status.notice matches Some((s, m)) && s == ok && m@ == notification_saved_text(ok),
            final(self).choices == old(self).choices,
    {
        let m = if ok {
            "In-app notification preferences saved."
        } else {
            "Notification preferences could not be saved. Refresh and try again."
        };
        proof {
            reveal_strlit("In-app notification preferences saved.");
            reveal_strlit("Notification preferences could not be saved. Refresh and try again.");
        }
        self.status.finish(ok, m.to_owned());
    }
}

impl NotificationChoices {
    pub open spec fn all_on_spec() -> Self {
        NotificationChoices {
            in_app: true,
            user_registered: true,
            class_created: true,
            assignment_submitted: true,
            profile_change: true,
            announcements: true,
        }
    }
}

/// The administrator's profile as the profile tab edits it.
pub struct AdminProfile {
    pub name: String,
    pub email: String,
    pub phone_number: String,
    pub office_location: String,
    pub work_hours: String,
    pub emergency_contact: String,
}

/// The profile update: the name, and the contact fields, as typed.
pub open spec fn profile_update_pairs(p: AdminProfile) -> Seq<(Seq<char>, Seq<char>)> {
    seq![
        ("phone_number"@, p.phone_number@),
        ("office_location"@, p.office_location@),
        ("work_hours"@, p.work_hours@),
        ("emergency_contact"@, p.emergency_contact@),
    ]
}

impl AdminProfile {
    /// The name and the contact fields an update sends; the email is not
    /// editable here and is not sent.
    pub fn update_fields(&self) -> (res: (String, Vec<(String, String)>))
        ensures
            res.0@ == self.name@,
            res.1@.len() == 4,
            forall|i: int| 0 <= i < 4 ==> (#[trigger] res.1@[i]).0@ == profile_update_pairs(*self)[i].0
                && res.1@[i].1@ == profile_update_pairs(*self)[i].1,
    {
        let mut v: Vec<(String, String)> = Vec::new();
        v.push(("phone_number".to_owned(), self.phone_number.clone()));
        v.push(("office_location".to_owned(), self.office_location.clone()));
        v.push(("work_hours".to_owned(), self.work_hours.clone()));
        v.push(("emergency_contact".to_owned(), self.emergency_contact.clone()));
        proof {
            reveal_strlit("phone_number");
            reveal_strlit("office_location");
            reveal_strlit("work_hours");
            reveal_strlit("emergency_contact");
        }
        (self.name.clone(), v)
    }
}

/// The profile card's letter: the upper case of the name's first character,
/// `A` for an empty name.
pub fn profile_initial(name: &str) -> (res: String)
    ensures
        res@ == crate::text::uppercase_of(if name@.len() > 0 { name@[0] } else { 'A' }),
{
    let cs = crate::text::chars_of(name);
    let c = if cs.len() > 0 { cs[0] } else { 'A' };
    crate::text::uppercase_char(c)
}

/// The notice where the password change would be: (title, text), in
/// Persian for right-to-left locales.
pub fn password_change_notice(rtl: bool) -> (res: (String, String))
    ensures
        res.0@ == if rtl { "تغییر رمز عبور در این نسخه در دسترس نیست"@ } else { "Password change is unavailable in this release"@ },
        res.1@ == if rtl { "تا زمانی که احراز مجدد رمز فعلی از طریق ارائه‌دهنده هویت به‌صورت کامل پیاده‌سازی نشود، تغییر رمز از داخل EduTalent غیرفعال است. برای راهنمایی با مدیر سیستم تماس بگیرید."@ } else { "EduTalent will not change a password until current-password reauthentication is fully wired through the configured identity provider. Contact your system administrator for the supported recovery path."@ },
{
    if rtl {
        ("تغییر رمز عبور در این نسخه در دسترس نیست".to_owned(), "تا زمانی که احراز مجدد رمز فعلی از طریق ارائه‌دهنده هویت به‌صورت کامل پیاده‌سازی نشود، تغییر رمز از داخل EduTalent غیرفعال است. برای راهنمایی با مدیر سیستم تماس بگیرید.".to_owned())
    } else {
        ("Password change is unavailable in this release".to_owned(), "EduTalent will not change a password until current-password reauthentication is fully wired through the configured identity provider. Contact your system administrator for the supported recovery path.".to_owned())
    }
}

/// The text of the profile tab's password dialog, in Persian for
/// right-to-left locales.
pub fn password_modal_message(rtl: bool) -> (res: &'static str)
    ensures
        res@ == if rtl { "تغییر رمز عبور در این نسخه در دسترس نیست و باید از طریق ارائه‌دهنده احراز هویت پیکربندی‌شده انجام شود."@ } else { "Password changes are unavailable in this release and must be handled by the configured authentication provider."@ },
{
    proof {
        reveal_strlit("تغییر رمز عبور در این نسخه در دسترس نیست و باید از طریق ارائه‌دهنده احراز هویت پیکربندی‌شده انجام شود.");
        reveal_strlit("Password changes are unavailable in this release and must be handled by the configured authentication provider.");
    }
    if rtl {
        "تغییر رمز عبور در این نسخه در دسترس نیست و باید از طریق ارائه‌دهنده احراز هویت پیکربندی‌شده انجام شود."
    } else {
        "Password changes are unavailable in this release and must be handled by the configured authentication provider."
    }
}

/// The profile tab: the profile being edited, whether it is still loading,
/// and which dialog is open.
pub struct ProfileSettingsForm {
    pub profile: AdminProfile,
    pub loading: bool,
    pub show_request_form: bool,
    pub show_password_modal: bool,
}

impl ProfileSettingsForm {
    pub fn new() -> (res: Self)
        ensures
            res.loading && !res.show_request_form && !res.show_password_modal,
            res.profile.name@.len() == 0 && res.profile.email@.len() == 0,
    {
        ProfileSettingsForm {
            profile: AdminProfile {
                name: String::new(),
                email: String::new(),
                phone_number: String::new(),
                office_location: String::new(),
                work_hours: String::new(),
                emergency_contact: String::new(),
            },
            loading: true,
            show_request_form: false,
            show_password_modal: false,
        }
    }

    /// The stored profile arrived; when it could not be read the form keeps
    /// loading.
    pub fn loaded(&mut self, profile: Option<AdminProfile>)
        ensures
            match profile {
                Some(p) => final(self).profile == p && !final(self).loading,
                None => final(self).profile == old(self).profile && final(self).loading == old(self).loading,
            },
    {
        if let Some(p) = profile {
            self.profile = p;
            self.loading = false;
        }
    }

    /// The server stored the update (or not).
    pub fn saved(&mut self, ok: bool)
        ensures
            final(self).loading == (old(self).loading && !ok),
            final(self).profile == old(self).profile,
    {
        if ok {
            self.loading = false;
        }
    }
}

} // verus!
