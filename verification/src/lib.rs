//! Core logic of the IdirFéin desktop organiser: notes, tasks, passwords,
//! gallery bookkeeping, sync lists and the first-run setup wizard.

pub mod app_shell;
pub mod config;
pub mod editor;
pub mod faces;
pub mod file_manager;
pub mod gallery;
pub mod gallery_page;
pub mod markdown_lists;
pub mod note_document;
pub mod notes_page;
pub mod notes;
pub mod page;
pub mod sync;
pub mod tasks;
pub mod tasks_page;
pub mod passwords;
pub mod passwords_page;
pub mod path_order;
pub mod paths;
pub mod settings;
pub mod setup_wizard;
pub mod text;
