//! Iskra's sermon-planning core: the sermon model, its undoable command
//! language, the liturgical calendars and lectionaries, scripture-citation
//! parsing, the Typst export body, library search and the pure parts of the
//! git backup workflow.

pub mod date;
pub mod git_sync;
pub mod text;
pub mod lectionary;
pub mod library;
pub mod model;
pub mod bible;
pub mod commands;
pub mod config;
pub mod rcl;
pub mod sermon_export;
pub mod sermon_templates;
pub mod storage;
pub mod styles;
pub mod palette;
pub mod changelog;
pub mod editing;
