//! Verified core of Oh My Limit, a terminal front end for Codex that can
//! translate prompts before they are sent.

pub mod text;
pub mod translator;
pub mod prompts;
pub mod validate;
pub mod env_file;
pub mod json;
pub mod providers;
pub mod config;
pub mod protocol;
pub mod format;
pub mod events;
pub mod stream;
pub mod slash_popup;
pub mod model_picker;
pub mod wrapping;
pub mod translator_picker;
pub mod textarea;
pub mod bottom_pane;
pub mod chat;
pub mod settings;
pub mod view;
pub mod commands;
pub mod doctor;
pub mod keys;
pub mod transcript;
