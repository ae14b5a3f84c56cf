use edutalent::login::{EmailError, LoginForm, LoginOutcome};
use edutalent::settings::{
    email_digest_frequency, password_change_notice, preference_error, profile_initial, settings_tab,
    timezone_options, AdminProfile, GeneralPreferences, GeneralSettingsForm, NotificationChoices,
    NotificationSettingsForm, NotificationSwitch, SettingsTab,
};

#[test]
fn sign_in_checks_fields_before_sending() {
    let mut form = LoginForm::new();
    assert!(form.submit().is_none());
    assert_eq!(form.email_error, Some(EmailError::Required));
    assert!(form.password_missing);
    form.edit_email("  nobody ".to_string());
    form.edit_password("secret".to_string());
    assert!(form.submit().is_none());
    assert_eq!(form.email_error, Some(EmailError::Invalid));
    form.edit_email(" a@b.c ".to_string());
    assert_eq!(form.submit(), Some(("a@b.c".to_string(), "secret".to_string())));
    assert!(form.loading);
    assert!(form.submit().is_none());
    assert!(!form.finished(LoginOutcome::TemporaryPassword));
    assert_eq!(form.form_error.unwrap().error_key(), Some("auth.account_requires_admin"));
    form.submit();
    assert!(form.finished(LoginOutcome::Success));
    assert_eq!(EmailError::Invalid.key(), "auth.email_invalid");
}

#[test]
fn unsupported_delivery_preferences_are_not_exposed() {
    let mut choices = NotificationChoices::all_on();
    choices.toggle(NotificationSwitch::Announcements);
    let update = choices.to_update();
    assert!(!update.email_notifications);
    assert!(!update.push_notifications);
    assert!(!update.notify_report_generated);
    assert!(!update.notify_system_announcements);
    assert!(update.in_app_notifications);
    assert_eq!(email_digest_frequency(), "never");
}

#[test]
fn notification_form_saves_once_at_a_time() {
    let mut form = NotificationSettingsForm::new();
    form.loaded(None);
    assert!(form.status.load_failed);
    assert!(form.save().is_some());
    assert!(form.save().is_none());
    form.save_finished(false);
    assert_eq!(
        form.status.notice,
        Some((false, "Notification preferences could not be saved. Refresh and try again.".to_string()))
    );
}

#[test]
fn general_preferences_round_trip() {
    let mut form = GeneralSettingsForm::new("fa");
    assert_eq!(form.prefs.language, "fa");
    assert_eq!(form.prefs.timezone, "UTC");
    let request = form.save().unwrap();
    assert_eq!(request.date_format, "YYYY-MM-DD");
    form.save_finished(Err("timezone_unsupported".to_string()));
    assert_eq!(form.status.notice, Some((false, "That timezone is not supported by this release.".to_string())));
    form.save();
    let stored = GeneralPreferences {
        timezone: "Asia/Tehran".to_string(),
        language: "fa".to_string(),
        date_format: "DD.MM.YYYY".to_string(),
        time_format: "12h".to_string(),
    };
    form.save_finished(Ok(stored));
    assert_eq!(form.prefs.timezone, "Asia/Tehran");
    assert_eq!(form.status.notice, Some((true, "Preferences saved.".to_string())));
}

#[test]
fn preference_errors_and_options() {
    assert_eq!(preference_error("x time_format_unsupported"), "That display format is not supported by this release.");
    assert_eq!(preference_error("other"), "Preferences could not be saved. Refresh and try again.");
    let zones = timezone_options();
    assert_eq!(zones.len(), 11);
    assert_eq!(zones[1], ("Asia/Tehran".to_string(), "Asia/Tehran".to_string()));
    assert_eq!(settings_tab("general"), SettingsTab::General);
    assert_eq!(settings_tab("bogus"), SettingsTab::Profile);
}

#[test]
fn profile_updates_and_initials() {
    let profile = AdminProfile {
        name: "maryam".to_string(),
        email: "m@x".to_string(),
        phone_number: "1".to_string(),
        office_location: "2".to_string(),
        work_hours: "3".to_string(),
        emergency_contact: "4".to_string(),
    };
    let (name, fields) = profile.update_fields();
    assert_eq!(name, "maryam");
    assert_eq!(fields[3], ("emergency_contact".to_string(), "4".to_string()));
    assert_eq!(profile_initial("maryam"), "M");
    assert_eq!(profile_initial(""), "A");
    assert_eq!(profile_initial("ßen"), "SS");
    assert_eq!(password_change_notice(false).0, "Password change is unavailable in this release");
}
