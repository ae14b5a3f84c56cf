//! The sign-in form: what it checks before a request, and what each
//! answer of the authentication service shows.

use vstd::prelude::*;
use crate::text::{contains_char, is_blank, trim, trimmed};

verus! {

/// Why the email field is refused.
#[derive(PartialEq, Eq, Structural, Clone, Copy, Debug)]
pub enum EmailError {
    Required,
    Invalid,
}

/// The authentication service's answer to a sign-in.
#[derive(PartialEq, Eq, Structural, Clone, Copy, Debug)]
pub enum LoginOutcome {
    Success,
    InvalidCredentials,
    AccountInactive,
    AccountLocked,
    EmailNotConfirmed,
    /// The account still holds its temporary password.
    TemporaryPassword,
    ServerError,
}

/// The translation key of the form error an answer shows; none on success.
pub open spec fn outcome_key(o: LoginOutcome) -> Option<Seq<char>> {
    match o {
        LoginOutcome::Success => None,
        LoginOutcome::InvalidCredentials => Some("auth.invalid_credentials"@),
        LoginOutcome::AccountInactive => Some("auth.account_inactive"@),
        LoginOutcome::AccountLocked => Some("auth.account_locked"@),
        LoginOutcome::EmailNotConfirmed => Some("auth.email_not_confirmed"@),
        LoginOutcome::TemporaryPassword => Some("auth.account_requires_admin"@),
        LoginOutcome::ServerError => Some("auth.service_unavailable"@),
    }
}

impl LoginOutcome {
    /// The translation key of the form error this answer shows.
    pub fn error_key(&self) -> (res: Option<&'static str>)
        ensures
            match res {
                Some(k) => outcome_key(*self) == Some(k@),
                None => outcome_key(*self).is_none(),
            },
    {
        proof {
            reveal_strlit("auth.invalid_credentials");
            reveal_strlit("auth.account_inactive");
            reveal_strlit("auth.account_locked");
            reveal_strlit("auth.email_not_confirmed");
            reveal_strlit("auth.account_requires_admin");
            reveal_strlit("auth.service_unavailable");
        }
        match self {
            LoginOutcome::Success => None,
            LoginOutcome::InvalidCredentials => Some("auth.invalid_credentials"),
            LoginOutcome::AccountInactive => Some("auth.account_inactive"),
            LoginOutcome::AccountLocked => Some("auth.account_locked"),
            LoginOutcome::EmailNotConfirmed => Some("auth.email_not_confirmed"),
            LoginOutcome::TemporaryPassword => Some("auth.account_requires_admin"),
            LoginOutcome::ServerError => Some("auth.service_unavailable"),
        }
    }
}

impl EmailError {
    pub fn key(&self) -> (res: &'static str)
        ensures
            res@ == match *self {
                EmailError::Required => "auth.email_required"@,
                EmailError::Invalid => "auth.email_invalid"@,
            },
    {
        proof {
            reveal_strlit("auth.email_required");
            reveal_strlit("auth.email_invalid");
        }
        match self {
            EmailError::Required => "auth.email_required",
            EmailError::Invalid => "auth.email_invalid",
        }
    }
}

/// The email check: blank is missing; without `@` it is not an address.
pub open spec fn email_check(email: Seq<char>) -> Option<EmailError> {
    if trimmed(email).len() == 0 {
        Some(EmailError::Required)
    } else if !trimmed(email).contains('@') {
        Some(EmailError::Invalid)
    } else {
        None
    }
}

/// The sign-in form.
pub struct LoginForm {
    pub email: String,
    pub password: String,
    pub email_error: Option<EmailError>,
    /// The password was left empty.
    pub password_missing: bool,
    /// The answer of the last attempt, when it was a refusal.
    pub form_error: Option<LoginOutcome>,
    pub loading: bool,
    pub show_forgot_dialog: bool,
}

impl LoginForm {
    pub fn new() -> (res: Self)
        ensures
            res.email@.len() == 0 && res.password@.len() == 0,
            res.email_error.is_none() && !res.password_missing && res.form_error.is_none(),
            !res.loading && !res.show_forgot_dialog,
    {
        LoginForm {
            email: String::new(),
            password: String::new(),
            email_error: None,
            password_missing: false,
            form_error: None,
            loading: false,
            show_forgot_dialog: false,
        }
    }

    /// Typing into the email field clears its error and the form error.
    pub fn edit_email(&mut self, value: String)
        ensures
            final(self).email@ == value@,
            final(self).email_error.is_none() && final(self).form_error.is_none(),
            final(self).password == old(self).password && final(self).password_missing == old(self).password_missing,
            final(self).loading == old(self).loading,
    {
        self.email = value;
        self.email_error = None;
        self.form_error = None;
    }

    /// Typing into the password field clears its error and the form error.
    pub fn edit_password(&mut self, value: String)
        ensures
            final(self).password@ == value@,
            !final(self).password_missing && final(self).form_error.is_none(),
            final(self).email == old(self).email && final(self).email_error == old(self).email_error,
            final(self).loading == old(self).loading,
    {
        self.password = value;
        self.password_missing = false;
        self.form_error = None;
    }

    /// "Sign in": nothing while a sign-in is under way; otherwise the errors
    /// reset, both fields are checked, and only a trimmed email with an `@`
    /// and a non-empty password are sent (the password as typed).
    pub fn submit(&mut self) -> (res: Option<(String, String)>)
        ensures
            old(self).loading ==> res.is_none() && final(self).email_error == old(self).email_error
                && final(self).password_missing == old(self).password_missing && final(self).form_error
                == old(self).form_error && final(self).loading,
            !old(self).loading ==> {
                &&& final(self).email_error == email_check(old(self).email@)
                &&& final(self).password_missing == (old(self).password@.len() == 0)
                &&& final(self).form_error.is_none()
                &&& (email_check(old(self).email@).is_none() && old(self).password@.len() > 0) ==> (res matches Some(
                    (e, p),
                ) && e@ == trimmed(old(self).email@) && p@ == old(self).password@ && final(self).loading)
                &&& !(email_check(old(self).email@).is_none() && old(self).password@.len() > 0) ==> (res.is_none()
                    && !final(self).loading)
            },
            final(self).email == old(self).email && final(self).password == old(self).password,
    {
        if self.loading {
            return None;
        }
        let email = trim(self.email.as_str());
        self.email_error = None;
        self.password_missing = false;
        self.form_error = None;
        let mut invalid = false;
        if email.is_empty() {
            self.email_error = Some(EmailError::Required);
            invalid = true;
        } else if !contains_char(email, '@') {
            self.email_error = Some(EmailError::Invalid);
            invalid = true;
        }
        if self.password.as_str().is_empty() {
            self.password_missing = true;
            invalid = true;
        }
        if invalid {
            return None;
        }
        self.loading = true;
        Some((email.to_owned(), self.password.clone()))
    }

    /// The service's answer. Returns whether to go to the dashboard.
    pub fn finished(&mut self, outcome: LoginOutcome) -> (to_dashboard: bool)
        ensures
            to_dashboard == (outcome == LoginOutcome::Success),
            !final(self).loading,
            outcome == LoginOutcome::Success ==> final(self).form_error == old(self).form_error,
            outcome != LoginOutcome::Success ==> final(self).form_error == Some(outcome),
    {
        self.loading = false;
        if outcome == LoginOutcome::Success {
            true
        } else {
            self.form_error = Some(outcome);
            false
        }
    }

    /// "Forgot password?" (disabled while signing in).
    pub fn open_forgot_dialog(&mut self)
        ensures
            final(self).show_forgot_dialog == (old(self).show_forgot_dialog || !old(self).loading),
            final(self).loading == old(self).loading,
    {
        if !self.loading {
            self.show_forgot_dialog = true;
        }
    }

    pub fn close_forgot_dialog(&mut self)
        ensures
            !final(self).show_forgot_dialog,
            final(self).loading == old(self).loading,
    {
        self.show_forgot_dialog = false;
    }
}

} // verus!
