//! An operating-system image picker: the wizard's navigation state machine,
//! its searchable selection list, and the bookkeeping of a batch of
//! concurrent downloads with checksum verification.

pub mod app;
pub mod arch_selection;
pub mod catalog;
pub mod checksum;
pub mod complete;
pub mod download;
pub mod download_options;
pub mod edition_selection;
pub mod error_display;
pub mod keybinds;
pub mod keys;
pub mod os_selection;
pub mod release_selection;
pub mod searchable_list;
pub mod text;
pub mod url_list;
