//! Plain data models carried between the store, the services and the UI.

use vstd::prelude::*;

verus! {

/// A stored feed item, as listed in the feeds view.
#[derive(Debug, Clone)]
pub struct FeedItem {
    pub id: i32,
    pub title: String,
    pub link: String,
    pub description: String,
    pub pub_date: i64,
}

impl FeedItem {
    pub fn new(id: i32, title: String, link: String, description: String, pub_date: i64) -> (r: Self)
        ensures
            r.id == id,
            r.title == title,
            r.link == link,
            r.description == description,
            r.pub_date == pub_date,
    {
        Self { id, title, link, description, pub_date }
    }
}

/// A note with an optional last-update timestamp.
#[derive(Debug, Clone)]
pub struct Note {
    pub id: i32,
    pub title: String,
    pub details: String,
    pub created_at: i64,
    pub updated_at: Option<i64>,
}

impl Note {
    pub fn new(id: i32, title: String, details: String, created_at: i64, updated_at: Option<i64>) -> (r: Self)
        ensures
            r.id == id,
            r.title == title,
            r.details == details,
            r.created_at == created_at,
            r.updated_at == updated_at,
    {
        Self { id, title, details, created_at, updated_at }
    }
}

/// A bookmark: a named URL or file path.
#[derive(Debug, Clone)]
pub struct Bookmark {
    pub id: i32,
    pub name: String,
    pub path: String,
    pub created_at: String,
}

impl Bookmark {
    pub fn new(id: i32, name: String, path: String, created_at: String) -> (r: Self)
        ensures
            r.id == id,
            r.name == name,
            r.path == path,
            r.created_at == created_at,
    {
        Self { id, name, path, created_at }
    }
}

/// Who authored a chat message.
#[derive(Debug, Clone)]
pub enum MessageRole {
    User,
    Assistant,
}

impl MessageRole {
    /// The wire name of the role.
    pub fn as_str(&self) -> (r: &str)
        ensures
            self is User ==> r@ == "user"@,
            self is Assistant ==> r@ == "assistant"@,
    {
        match self {
            MessageRole::User => "user",
            MessageRole::Assistant => "assistant",
        }
    }
}

/// One message of an assistant conversation.
#[derive(Debug, Clone)]
pub struct ChatMessage {
    pub role: MessageRole,
    pub content: String,
}

impl ChatMessage {
    pub fn new(role: MessageRole, content: String) -> (r: Self)
        ensures
            r.role == role,
            r.content == content,
    {
        Self { role, content }
    }

    pub fn user(content: String) -> (r: Self)
        ensures
            r.role is User,
            r.content == content,
    {
        Self::new(MessageRole::User, content)
    }

    pub fn assistant(content: String) -> (r: Self)
        ensures
            r.role is Assistant,
            r.content == content,
    {
        Self::new(MessageRole::Assistant, content)
    }
}

/// Application configuration, loaded at startup.
#[derive(Debug, Clone)]
pub struct Config {
    pub app_name: String,
    pub version: String,
    pub icon_path: String,
    pub is_vsync_enabled: bool,
}

} // verus!
