//! Notifications of a GoToSocial (Mastodon API) account, as far as the bot
//! reads them. Values that the API leaves free-form (JSON values, floats) are
//! not kept.

use vstd::prelude::*;

verus! {

/// The notifications of one request, newest first.
pub type NotificationList = Vec<Notification>;

#[derive(Default, Debug, Clone, PartialEq)]
pub struct Notification {
    pub id: String,
    pub type_field: String,
    pub created_at: String,
    pub account: Account,
    pub status: Option<Status>,
}

/// The number of seconds since the Unix epoch of an RFC 3339 date-time, as
/// chrono reads it; `None` when the text is not such a date-time.
pub uninterp spec fn rfc3339_timestamp(text: Seq<char>) -> Option<i64>;

/// Reads an RFC 3339 date-time with chrono (`DateTime::parse_from_rfc3339`,
/// then `DateTime::timestamp`). The contract claims only that the result is a
/// function of the text (the name [`rfc3339_timestamp`]); the date grammar and
/// calendar arithmetic are left to chrono.
#[verifier::external_body]
fn parse_rfc3339_timestamp(text: &str) -> (ts: Option<i64>)
    ensures
        ts == rfc3339_timestamp(text@),
{
    chrono::DateTime::parse_from_rfc3339(text).ok().map(|dt| dt.timestamp())
}

/// The creation time of a notification in seconds since the Unix epoch; 0
/// (the epoch, chrono's default date-time) when it cannot be read.
pub open spec fn created_timestamp(n: Notification) -> i64 {
    match rfc3339_timestamp(n.created_at@) {
        Some(ts) => ts,
        None => 0,
    }
}

impl Notification {
    pub fn parse_created_at(&self) -> (ts: i64)
        ensures
            ts == created_timestamp(*self),
    {
        match parse_rfc3339_timestamp(self.created_at.as_str()) {
            Some(ts) => ts,
            None => 0,
        }
    }
}

#[derive(Default, Debug, Clone, PartialEq)]
pub struct Account {
    pub id: String,
    pub username: String,
    pub acct: String,
    pub display_name: String,
    pub locked: bool,
    pub discoverable: bool,
    pub bot: bool,
    pub created_at: String,
    pub note: String,
    pub url: String,
    pub avatar: String,
    pub avatar_static: String,
    pub header: String,
    pub header_static: String,
    pub followers_count: i64,
    pub following_count: i64,
    pub statuses_count: i64,
    pub last_status_at: Option<String>,
    pub fields: Vec<Field>,
}

#[derive(Default, Debug, Clone, PartialEq)]
pub struct Field {
    pub name: String,
    pub value: String,
}

#[derive(Default, Debug, Clone, PartialEq)]
pub struct Status {
    pub id: String,
    pub created_at: String,
    pub in_reply_to_id: Option<String>,
    pub in_reply_to_account_id: Option<String>,
    pub sensitive: bool,
    pub spoiler_text: String,
    pub visibility: String,
    pub language: Option<String>,
    pub uri: String,
    pub url: String,
    pub replies_count: i64,
    pub reblogs_count: i64,
    pub favourites_count: i64,
    pub favourited: bool,
    pub reblogged: bool,
    pub muted: bool,
    pub bookmarked: bool,
    pub pinned: bool,
    pub content: String,
    pub account: Account2,
    pub media_attachments: Vec<MediaAttachment>,
    pub mentions: Vec<Mention>,
    pub tags: Vec<Tag>,
    pub application: Option<Application>,
    pub text: Option<String>,
}

#[derive(Default, Debug, Clone, PartialEq)]
pub struct Account2 {
    pub id: String,
    pub username: String,
    pub acct: String,
    pub display_name: String,
    pub locked: bool,
    pub discoverable: bool,
    pub bot: bool,
    pub created_at: String,
    pub note: String,
    pub url: String,
    pub avatar: String,
    pub avatar_static: String,
    pub header: String,
    pub header_static: String,
    pub followers_count: i64,
    pub following_count: i64,
    pub statuses_count: i64,
    pub last_status_at: String,
    pub fields: Vec<Field2>,
    pub role: Option<Role>,
}

#[derive(Default, Debug, Clone, PartialEq)]
pub struct Field2 {
    pub name: String,
    pub value: String,
}

#[derive(Default, Debug, Clone, PartialEq)]
pub struct Role {
    pub name: String,
}

#[derive(Default, Debug, Clone, PartialEq)]
pub struct MediaAttachment {
    pub id: String,
    pub type_field: String,
    pub url: String,
    pub text_url: String,
    pub preview_url: String,
    pub remote_url: Option<String>,
    pub blurhash: String,
}

#[derive(Default, Debug, Clone, PartialEq)]
pub struct Focus {
    pub x: i64,
    pub y: i64,
}

#[derive(Default, Debug, Clone, PartialEq)]
pub struct Mention {
    pub id: String,
    pub username: String,
    pub url: String,
    pub acct: String,
}

#[derive(Default, Debug, Clone, PartialEq)]
pub struct Tag {
    pub name: String,
    pub url: String,
}

#[derive(Default, Debug, Clone, PartialEq)]
pub struct Application {
    pub name: String,
    pub website: String,
}

} // verus!
