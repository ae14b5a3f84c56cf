//! The notification bell: its badge, the relative times of its entries,
//! and the mark-as-read actions.

use vstd::prelude::*;
use crate::text::{decimal, decimal_string, push_decimal, push_str, replace_all, replace_text};

verus! {

/// An integer as text, with a minus sign when negative.
pub open spec fn int_text(n: int) -> Seq<char> {
    if n < 0 {
        "-"@ + decimal((-n) as nat)
    } else {
        decimal(n as nat)
    }
}

pub fn int_string(n: i64) -> (res: String)
    ensures
        res@ == int_text(n as int),
{
    if n < 0 {
        let mut s = "-".to_owned();
        let m: u64 = if n == i64::MIN { 9223372036854775808u64 } else { (-n) as u64 };
        push_decimal(&mut s, m);
        proof {
            reveal_strlit("-");
        }
        s
    } else {
        decimal_string(n as u64)
    }
}

/// The bell's badge: the unread count, capped at `99+`.
pub open spec fn badge_text_spec(count: int) -> Seq<char> {
    if count > 99 {
        "99+"@
    } else {
        int_text(count)
    }
}

pub fn badge_text(unread_count: i64) -> (res: String)
    ensures
        res@ == badge_text_spec(unread_count as int),
{
    if unread_count > 99 {
        proof {
            reveal_strlit("99+");
        }
        "99+".to_owned()
    } else {
        int_string(unread_count)
    }
}

/// The badge and the "mark all read" action appear only with unread
/// notifications.
pub fn has_unread(unread_count: i64) -> (res: bool)
    ensures
        res == (unread_count > 0),
{
    unread_count > 0
}

/// The translated templates of relative times; `{0}` stands for the count.
pub struct TimeAgoTexts {
    pub days_ago: String,
    pub hours_ago: String,
    pub minutes_ago: String,
    pub just_now: String,
}

/// Whole units in `secs` seconds, rounded toward zero (as `TimeDelta`'s
/// `num_days`, `num_hours` and `num_minutes` do).
pub open spec fn whole_units(secs: int, unit: int) -> int {
    if secs >= 0 {
        secs / unit
    } else {
        -((-secs) / unit)
    }
}

/// The relative time of an entry `elapsed` seconds old: in days when a day
/// has passed, else hours, else minutes, else "just now".
pub open spec fn time_ago_spec(elapsed: int, t: TimeAgoTexts) -> Seq<char> {
    if whole_units(elapsed, 86400) > 0 {
        replace_all(t.days_ago@, "{0}"@, int_text(whole_units(elapsed, 86400)))
    } else if whole_units(elapsed, 3600) > 0 {
        replace_all(t.hours_ago@, "{0}"@, int_text(whole_units(elapsed, 3600)))
    } else if whole_units(elapsed, 60) > 0 {
        replace_all(t.minutes_ago@, "{0}"@, int_text(whole_units(elapsed, 60)))
    } else {
        t.just_now@
    }
}

/// The relative time of an entry `elapsed_seconds` old.
pub fn time_ago(elapsed_seconds: i64, texts: &TimeAgoTexts) -> (res: String)
    ensures
        res@ == time_ago_spec(elapsed_seconds as int, *texts),
{
    proof {
        reveal_strlit("{0}");
    }
    let days = elapsed_seconds / 86400;
    let hours = elapsed_seconds / 3600;
    let minutes = elapsed_seconds / 60;
    assert(days as int == whole_units(elapsed_seconds as int, 86400));
    assert(hours as int == whole_units(elapsed_seconds as int, 3600));
    assert(minutes as int == whole_units(elapsed_seconds as int, 60));
    if days > 0 {
        let n = int_string(days);
        replace_text(texts.days_ago.as_str(), "{0}", n.as_str())
    } else if hours > 0 {
        let n = int_string(hours);
        replace_text(texts.hours_ago.as_str(), "{0}", n.as_str())
    } else if minutes > 0 {
        let n = int_string(minutes);
        replace_text(texts.minutes_ago.as_str(), "{0}", n.as_str())
    } else {
        texts.just_now.clone()
    }
}

/// Whether `chrono`'s `DateTime::from_timestamp(secs, nanos)` gives an
/// instant: the day must fall from January 1, 262143 BCE (year -262143)
/// to December 31, 262142 CE, the span of chrono's `NaiveDate`, and the
/// nanoseconds must stay below one second, or below two on the last
/// second of a minute (a leap second).
pub open spec fn timestamp_representable(secs: i64, nanos: u32) -> bool {
    &&& -8_334_601_228_800 <= secs <= 8_210_266_876_799
    &&& (nanos < 1_000_000_000 || (nanos < 2_000_000_000 && secs % 60 == 59))
}

/// `chrono`: the whole seconds from the instant `unix_seconds` +
/// `nanos` until now (`Utc::now().signed_duration_since(..).num_seconds()`),
/// or `None` exactly when `DateTime::from_timestamp` gives no instant. How
/// many seconds come back depends on the clock, so nothing more is stated.
#[verifier::external_body]
fn seconds_since(unix_seconds: i64, nanos: u32) -> (res: Option<i64>)
    ensures
        res.is_some() == timestamp_representable(unix_seconds, nanos),
{
    match chrono::DateTime::from_timestamp(unix_seconds, nanos) {
        Some(t) => Some(chrono::Utc::now().signed_duration_since(t).num_seconds()),
        None => None,
    }
}

/// The relative time of an entry created at `unix_seconds` + `nanos`, as
/// of now: the texts of `time_ago` for the seconds that have passed by the
/// clock; "just now" for an instant that cannot be represented.
pub fn format_time_ago(unix_seconds: i64, nanos: u32, texts: &TimeAgoTexts) -> (res: String)
    ensures
        !timestamp_representable(unix_seconds, nanos) ==> res@ == texts.just_now@,
        timestamp_representable(unix_seconds, nanos) ==> exists|elapsed: i64| res@ == time_ago_spec(elapsed as int, *texts),
{
    let elapsed = match seconds_since(unix_seconds, nanos) {
        Some(e) => e,
        None => 0,
    };
    time_ago(elapsed, texts)
}

/// An entry's icon, `notifications` when it names none.
pub fn notification_icon(icon: &Option<String>) -> (res: String)
    ensures
        res@ == match icon {
            Some(i) => i@,
            None => "notifications"@,
        },
{
    match icon {
        Some(i) => i.clone(),
        None => "notifications".to_owned(),
    }
}

/// The bell's dropdown: open or not, the pending "mark all", the entry
/// being marked, and the last action's failure.
pub struct NotificationMenu {
    pub open: bool,
    pub mark_all_pending: bool,
    pub busy_notification: Option<String>,
    /// The last action failed.
    pub action_failed: bool,
}

impl NotificationMenu {
    pub fn new() -> (res: Self)
        ensures
            !res.open && !res.mark_all_pending && res.busy_notification.is_none() && !res.action_failed,
    {
        NotificationMenu { open: false, mark_all_pending: false, busy_notification: None, action_failed: false }
    }

    /// The bell pressed: the failure clears and the dropdown toggles.
    pub fn toggle(&mut self)
        ensures
            final(self).open == !old(self).open,
            !final(self).action_failed,
            final(self).mark_all_pending == old(self).mark_all_pending,
            final(self).busy_notification == old(self).busy_notification,
    {
        self.action_failed = false;
        self.open = !self.open;
    }

    pub fn close(&mut self)
        ensures
            !final(self).open,
            final(self).mark_all_pending == old(self).mark_all_pending,
            final(self).busy_notification == old(self).busy_notification,
            final(self).action_failed == old(self).action_failed,
    {
        self.open = false;
    }

    /// "Mark all read": ignored while one is pending. Returns whether the
    /// request goes out.
    pub fn start_mark_all(&mut self) -> (started: bool)
        ensures
            started == !old(self).mark_all_pending,
            final(self).mark_all_pending,
            started ==> !final(self).action_failed,
            !started ==> final(self).action_failed == old(self).action_failed,
            final(self).busy_notification == old(self).busy_notification && final(self).open == old(self).open,
    {
        if self.mark_all_pending {
            return false;
        }
        self.mark_all_pending = true;
        self.action_failed = false;
        true
    }

    /// The answer to "mark all read". Returns whether to reload.
    pub fn mark_all_finished(&mut self, ok: bool) -> (reload: bool)
        ensures
            reload == ok,
            !final(self).mark_all_pending,
            final(self).action_failed == (old(self).action_failed || !ok),
            final(self).busy_notification == old(self).busy_notification && final(self).open == old(self).open,
    {
        if !ok {
            self.action_failed = true;
        }
        self.mark_all_pending = false;
        ok
    }

    /// An entry clicked: ignored while another entry is being marked.
    /// Returns the id to mark as read.
    pub fn start_mark_one(&mut self, id: &str) -> (res: Option<String>)
        ensures
            old(self).busy_notification.is_some() ==> res.is_none() && final(self).busy_notification
                == old(self).busy_notification && final(self).action_failed == old(self).action_failed,
            old(self).busy_notification.is_none() ==> (res matches Some(r) && r@ == id@ && !final(self).action_failed),
            old(self).busy_notification.is_none() ==> (final(self).busy_notification matches Some(b) && b@ == id@),
            final(self).mark_all_pending == old(self).mark_all_pending && final(self).open == old(self).open,
    {
        if self.busy_notification.is_some() {
            return None;
        }
        self.busy_notification = Some(id.to_owned());
        self.action_failed = false;
        Some(id.to_owned())
    }

    /// The answer to marking one entry. Returns whether to reload.
    pub fn mark_one_finished(&mut self, ok: bool) -> (reload: bool)
        ensures
            reload == ok,
            final(self).busy_notification.is_none(),
            final(self).action_failed == (old(self).action_failed || !ok),
            final(self).mark_all_pending == old(self).mark_all_pending && final(self).open == old(self).open,
    {
        if !ok {
            self.action_failed = true;
        }
        self.busy_notification = None;
        ok
    }

    /// Whether the entry `id` shows as being marked.
    pub fn is_pending(&self, id: &str) -> (res: bool)
        ensures
            res == (self.busy_notification matches Some(b) && b@ == id@),
    {
        match &self.busy_notification {
            Some(b) => crate::text::same_text(b.as_str(), id),
            None => false,
        }
    }
}

} // verus!
