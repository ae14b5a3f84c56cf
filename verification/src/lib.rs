//! Presentation and workflow decisions of the EduTalent school portal:
//! navigation, guards, lifecycle policies, form validation and the
//! state machines behind its dialogs, each stated over plain values.

pub mod text;
pub mod navigation;
pub mod knowledge_status;
pub mod json_doc;
pub mod knowledge_edit;
pub mod knowledge_review;
pub mod class_management;
pub mod provisioning;
pub mod user_directory;
pub mod login;
pub mod settings;
pub mod knowledge_upload;
pub mod knowledge_submissions;
pub mod student_assignments;
pub mod guards;
pub mod notifications;
pub mod errors;
pub mod tables;
pub mod forms;
pub mod submission_files;
pub mod layout;
pub mod class_views;
