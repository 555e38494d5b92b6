//! Session state of a terminal issue browser: selectable lists, an issue
//! cache, the popup / screen / input-mode machine and the key dispatch that
//! drives them, with the text work around them (search parsing, Markdown
//! headings, request paths).

pub mod text;

pub mod args;
pub mod config;
pub mod errors;
pub mod input_mode;
pub mod issue;
pub mod menu_items;
pub mod popup;
pub mod repository;
pub mod screen;
pub mod stateful_list;

pub mod issue_cache;

pub mod app_state;
pub mod controls;
pub mod laws;

pub mod api_requests;
pub mod markdown;
