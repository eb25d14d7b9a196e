//! Fetching GoToSocial notifications and turning them into chat messages.

use vstd::prelude::*;

use crate::status_checker::services::{Service, ServiceView};
use crate::text::{decimal, int_to_decimal, str_eq};

pub mod notification;
pub mod updater;

use crate::notification::notification::{Notification, NotificationList, Status};

verus! {

/// Where the notifications of the account are fetched, at most `limit` of them.
pub open spec fn notifications_url(service: ServiceView, limit: i32) -> Seq<char> {
    service.url + "/api/v1/notifications?limit="@ + decimal(limit as int)
}

/// The value of the `Authorization` header for an access token.
pub open spec fn bearer(token: Seq<char>) -> Seq<char> {
    "Bearer "@ + token
}

/// The URL of the notifications request.
pub fn get_notifications_url(go2social: &Service, limit: i32) -> (url: String)
    ensures
        url@ == notifications_url(go2social@, limit),
{
    let mut url = go2social.get_url();
    url.append("/api/v1/notifications?limit=");
    let n = int_to_decimal(limit as i64);
    url.append(n.as_str());
    url
}

/// The `Authorization` header of the notifications request.
pub fn authorization(token: &String) -> (header: String)
    ensures
        header@ == bearer(token@),
{
    String::from_str("Bearer ").concat(token.as_str())
}

/// What reading and decoding the body of a successful reply gave.
pub enum ReplyBody {
    /// The body could not be read as text.
    Unreadable,
    /// The body decoded to a list of notifications.
    Decoded(NotificationList),
    /// The body did not decode; the decoder's message, and the body.
    Malformed { error: String, body: String },
}

/// The result of a notifications request whose reply had a `success` status
/// (shown as `status`) and a body as described by `body`. With `debug`, the
/// message of an undecodable body is followed by the body itself.
pub open spec fn reply_result(
    success: bool,
    status: Seq<char>,
    body: ReplyBody,
    debug: bool,
) -> Result<NotificationList, Seq<char>> {
    if !success {
        Err("Unexpected status code "@ + status)
    } else {
        match body {
            ReplyBody::Unreadable => Err("Failed to load body!"@),
            ReplyBody::Decoded(list) => Ok(list),
            ReplyBody::Malformed { error, body } => if debug {
                Err(error@ + "\nJSON: "@ + body@)
            } else {
                Err(error@)
            },
        }
    }
}

/// The notifications of a reply, or the message that says why there are none.
pub fn parse_body(success: bool, status: &str, body: ReplyBody, debug: bool) -> (res: Result<
    NotificationList,
    String,
>)
    ensures
        match (res, reply_result(success, status@, body, debug)) {
            (Ok(list), Ok(expected)) => list == expected,
            (Err(msg), Err(expected)) => msg@ == expected,
            _ => false,
        },
{
    if !success {
        return Err(String::from_str("Unexpected status code ").concat(status));
    }
    match body {
        ReplyBody::Unreadable => Err(String::from_str("Failed to load body!")),
        ReplyBody::Decoded(list) => Ok(list),
        ReplyBody::Malformed { error, body } => {
            if debug {
                let mut msg = error;
                msg.append("\nJSON: ");
                msg.append(body.as_str());
                Err(msg)
            } else {
                Err(error)
            }
        },
    }
}

/// The text after a notification line that quotes the post, when there is one.
pub open spec fn quoted_post(status: Option<Status>) -> Seq<char> {
    match status {
        Some(s) => "\n<p>"@ + s.content@ + "</p>"@,
        None => Seq::empty(),
    }
}

/// The HTML message of a notification.
pub open spec fn notification_html(n: Notification) -> Seq<char> {
    let name = n.account.display_name@;
    let t = n.type_field@;
    if t == "status"@ {
        "<p>🗨 "@ + name + " posted</p>"@ + quoted_post(n.status)
    } else if t == "mention"@ {
        "<p>🥰 "@ + name + " replied to your post!</p>"@ + quoted_post(n.status)
    } else if t == "favourite"@ {
        "<p>😘 "@ + name + " just liked your post!</p>"@ + quoted_post(n.status)
    } else if t == "follow"@ {
        "<p>😊 "@ + name + " follows you now!</p>"@
    } else if t == "reblog"@ {
        "<p>🔄 "@ + name + " boosted your post!</p>"@
    } else if t == "poll"@ {
        "<p>📊 "@ + name + "'s poll ended!</p>"@
    } else {
        "<p>🙄 Unknown type?!</p>"@
    }
}

/// The plain-text message of a notification.
pub open spec fn notification_plain(n: Notification) -> Seq<char> {
    let name = n.account.display_name@;
    let t = n.type_field@;
    if t == "status"@ {
        "🗨 "@ + name + " just tooted!"@
    } else if t == "mention"@ {
        "🥰 A new comment from "@ + name
    } else if t == "favourite"@ {
        "😘 "@ + name + " just liked your post!"@
    } else if t == "follow"@ {
        "😊 "@ + name + " follows you now!"@
    } else {
        "🙄 Unknown type?!"@
    }
}

/// The plain message of a notification does not depend on its post; the
/// HTML message of a post, mention or favourite is that of the same
/// notification without its post, followed by the post quoted in a paragraph
/// of its own; that of any other kind does not depend on the post.
pub proof fn lemma_messages_and_posts(n: Notification)
    ensures
        notification_plain(n) == notification_plain(Notification { status: None, ..n }),
        (n.type_field@ == "status"@ || n.type_field@ == "mention"@ || n.type_field@ == "favourite"@)
            ==> match n.status {
            Some(st) => notification_html(n) == notification_html(Notification { status: None, ..n })
                + "\n<p>"@ + st.content@ + "</p>"@,
            None => true,
        },
        !(n.type_field@ == "status"@ || n.type_field@ == "mention"@ || n.type_field@ == "favourite"@)
            ==> notification_html(n) == notification_html(Notification { status: None, ..n }),
{
    let bare = Notification { status: None, ..n };
    assert(quoted_post(bare.status) =~= Seq::<char>::empty());
    match n.status {
        Some(st) => {
            let name = n.account.display_name@;
            assert(("<p>🗨 "@ + name + " posted</p>"@ + Seq::<char>::empty()) =~= "<p>🗨 "@ + name
                + " posted</p>"@);
            assert(("<p>🥰 "@ + name + " replied to your post!</p>"@ + Seq::<char>::empty()) =~= "<p>🥰 "@
                + name + " replied to your post!</p>"@);
            assert(("<p>😘 "@ + name + " just liked your post!</p>"@ + Seq::<char>::empty()) =~= "<p>😘 "@
                + name + " just liked your post!</p>"@);
            assert(("<p>🗨 "@ + name + " posted</p>"@ + quoted_post(n.status)) =~= "<p>🗨 "@ + name
                + " posted</p>"@ + "\n<p>"@ + st.content@ + "</p>"@);
            assert(("<p>🥰 "@ + name + " replied to your post!</p>"@ + quoted_post(n.status)) =~= "<p>🥰 "@
                + name + " replied to your post!</p>"@ + "\n<p>"@ + st.content@ + "</p>"@);
            assert(("<p>😘 "@ + name + " just liked your post!</p>"@ + quoted_post(n.status)) =~= "<p>😘 "@
                + name + " just liked your post!</p>"@ + "\n<p>"@ + st.content@ + "</p>"@);
        },
        None => {},
    }
}

/// `prefix`, then `name`, then `suffix`.
fn framed(prefix: &str, name: &String, suffix: &str) -> (s: String)
    ensures
        s@ == prefix@ + name@ + suffix@,
{
    let mut s = String::from_str(prefix);
    s.append(name.as_str());
    s.append(suffix);
    s
}

/// `line`, then the quoted post of `status` when there is one.
fn with_quoted_post(line: String, status: &Option<Status>) -> (s: String)
    ensures
        s@ == line@ + quoted_post(*status),
{
    match status {
        Some(st) => {
            let mut s = line;
            s.append("\n<p>");
            s.append(st.content.as_str());
            s.append("</p>");
            s
        },
        None => {
            assert(line@ + Seq::<char>::empty() =~= line@);
            line
        },
    }
}

pub fn build_notification_html(notification: &Notification) -> (html: String)
    ensures
        html@ == notification_html(*notification),
{
    let display_name = &notification.account.display_name;
    let t = notification.type_field.as_str();
    if str_eq(t, "status") {
        with_quoted_post(framed("<p>🗨 ", display_name, " posted</p>"), &notification.status)
    } else if str_eq(t, "mention") {
        with_quoted_post(
            framed("<p>🥰 ", display_name, " replied to your post!</p>"),
            &notification.status,
        )
    } else if str_eq(t, "favourite") {
        with_quoted_post(
            framed("<p>😘 ", display_name, " just liked your post!</p>"),
            &notification.status,
        )
    } else if str_eq(t, "follow") {
        framed("<p>😊 ", display_name, " follows you now!</p>")
    } else if str_eq(t, "reblog") {
        framed("<p>🔄 ", display_name, " boosted your post!</p>")
    } else if str_eq(t, "poll") {
        framed("<p>📊 ", display_name, "'s poll ended!</p>")
    } else {
        String::from_str("<p>🙄 Unknown type?!</p>")
    }
}

pub fn build_notification_plain(notification: &Notification) -> (plain: String)
    ensures
        plain@ == notification_plain(*notification),
{
    let display_name = &notification.account.display_name;
    let t = notification.type_field.as_str();
    if str_eq(t, "status") {
        framed("🗨 ", display_name, " just tooted!")
    } else if str_eq(t, "mention") {
        let s = framed("🥰 A new comment from ", display_name, "");
        proof {
            reveal_strlit("");
            assert("🥰 A new comment from "@ + display_name@ + ""@ =~= "🥰 A new comment from "@
                + display_name@);
        }
        s
    } else if str_eq(t, "favourite") {
        framed("😘 ", display_name, " just liked your post!")
    } else if str_eq(t, "follow") {
        framed("😊 ", display_name, " follows you now!")
    } else {
        String::from_str("🙄 Unknown type?!")
    }
}

} // verus!
