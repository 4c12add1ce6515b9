//! Core of a single-user desktop information hub: feeds, notes and bookmarks
//! backed by an embedded SQLite store, with a background synchronization
//! subsystem that fetches remote syndication feeds, deduplicates their
//! entries, persists them through a pooled connection, and signals the UI
//! layer to invalidate cached views.

pub mod bookmark_service;
pub mod bookmarks_repository;
pub mod clock;
pub mod log_service;
pub mod logs_repository;
pub mod note_service;
pub mod coordinator;
pub mod scheduler;
pub mod modals;
pub mod models;
pub mod notes_repository;
pub mod rss_service;
pub mod screens;
pub mod store;
pub mod terminal_bridge_service;
pub mod text;
pub mod url;
