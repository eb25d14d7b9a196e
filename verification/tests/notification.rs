use ghost::health_monitor::ServiceType;
use ghost::notification::notification::{Account, Notification, Status};
use ghost::notification::updater::{count_fresh, find_gotosocial, notification_token, Fresh, NotificationWatcher};
use ghost::notification::{
    authorization, build_notification_html, build_notification_plain, get_notifications_url, parse_body,
    ReplyBody,
};
use ghost::status_checker::services::Service;

fn notification(kind: &str, name: &str, post: Option<&str>) -> Notification {
    Notification {
        id: "01".to_string(),
        type_field: kind.to_string(),
        created_at: "2024-03-01T12:00:00.000Z".to_string(),
        account: Account { display_name: name.to_string(), ..Default::default() },
        status: post.map(|c| Status { content: c.to_string(), ..Default::default() }),
    }
}

fn at(created_at: &str) -> Notification {
    Notification { created_at: created_at.to_string(), ..Default::default() }
}

#[test]
fn html_messages() {
    assert_eq!(
        build_notification_html(&notification("status", "Ann", Some("hello"))),
        "<p>🗨 Ann posted</p>\n<p>hello</p>"
    );
    assert_eq!(build_notification_html(&notification("status", "Ann", None)), "<p>🗨 Ann posted</p>");
    assert_eq!(
        build_notification_html(&notification("mention", "Bo", Some("hi"))),
        "<p>🥰 Bo replied to your post!</p>\n<p>hi</p>"
    );
    assert_eq!(build_notification_html(&notification("mention", "Bo", None)), "<p>🥰 Bo replied to your post!</p>");
    assert_eq!(
        build_notification_html(&notification("favourite", "Cy", Some("x"))),
        "<p>😘 Cy just liked your post!</p>\n<p>x</p>"
    );
    assert_eq!(build_notification_html(&notification("favourite", "Cy", None)), "<p>😘 Cy just liked your post!</p>");
    assert_eq!(build_notification_html(&notification("follow", "Di", Some("x"))), "<p>😊 Di follows you now!</p>");
    assert_eq!(build_notification_html(&notification("reblog", "Ed", None)), "<p>🔄 Ed boosted your post!</p>");
    assert_eq!(build_notification_html(&notification("poll", "Fy", None)), "<p>📊 Fy's poll ended!</p>");
    assert_eq!(build_notification_html(&notification("update", "Gu", None)), "<p>🙄 Unknown type?!</p>");
}

#[test]
fn plain_messages() {
    assert_eq!(build_notification_plain(&notification("status", "Ann", Some("x"))), "🗨 Ann just tooted!");
    assert_eq!(build_notification_plain(&notification("mention", "Bo", None)), "🥰 A new comment from Bo");
    assert_eq!(build_notification_plain(&notification("favourite", "Cy", None)), "😘 Cy just liked your post!");
    assert_eq!(build_notification_plain(&notification("follow", "Di", None)), "😊 Di follows you now!");
    assert_eq!(build_notification_plain(&notification("reblog", "Ed", None)), "🙄 Unknown type?!");
}

#[test]
fn created_at_is_read_as_unix_seconds() {
    assert_eq!(at("2024-03-01T12:00:00.000Z").parse_created_at(), 1709294400);
    assert_eq!(at("2024-03-01T13:00:00+01:00").parse_created_at(), 1709294400);
    assert_eq!(at("1970-01-01T00:00:10Z").parse_created_at(), 10);
    assert_eq!(at("yesterday").parse_created_at(), 0);
}

#[test]
fn request_url_and_headers() {
    let service = Service::new("https://social.example.org".to_string(), ServiceType::Gotosocial);
    assert_eq!(
        get_notifications_url(&service, 30),
        "https://social.example.org/api/v1/notifications?limit=30"
    );
    assert_eq!(get_notifications_url(&service, 0), "https://social.example.org/api/v1/notifications?limit=0");
    assert_eq!(get_notifications_url(&service, -7), "https://social.example.org/api/v1/notifications?limit=-7");
    assert_eq!(
        get_notifications_url(&service, 2147483647),
        "https://social.example.org/api/v1/notifications?limit=2147483647"
    );
    assert_eq!(authorization(&"abc".to_string()), "Bearer abc");
}

#[test]
fn reply_results() {
    assert_eq!(
        parse_body(false, "404 Not Found", ReplyBody::Unreadable, false),
        Err("Unexpected status code 404 Not Found".to_string())
    );
    assert_eq!(parse_body(true, "200 OK", ReplyBody::Unreadable, false), Err("Failed to load body!".to_string()));
    let list = vec![notification("follow", "Di", None)];
    assert_eq!(parse_body(true, "200 OK", ReplyBody::Decoded(list.clone()), true), Ok(list));
    let malformed = || ReplyBody::Malformed { error: "expected value".to_string(), body: "<html>".to_string() };
    assert_eq!(parse_body(true, "200 OK", malformed(), false), Err("expected value".to_string()));
    assert_eq!(parse_body(true, "200 OK", malformed(), true), Err("expected value\nJSON: <html>".to_string()));
}

#[test]
fn gotosocial_is_the_last_one_configured() {
    let services = vec![
        Service::new("https://a".to_string(), ServiceType::Gotosocial),
        Service::new("https://b".to_string(), ServiceType::Synapse),
        Service::new("https://c".to_string(), ServiceType::Gotosocial),
        Service::new("https://d".to_string(), ServiceType::Wordpress),
    ];
    let found = find_gotosocial(&services);
    assert_eq!(found.get_url(), "https://c");
    assert_eq!(*found.get_type(), ServiceType::Gotosocial);
    let none = find_gotosocial(&vec![Service::new("https://b".to_string(), ServiceType::Synapse)]);
    assert_eq!(none.get_url(), "");
    assert_eq!(*none.get_type(), ServiceType::Wordpress);
}

#[test]
fn first_fetch_posts_nothing() {
    let mut w = NotificationWatcher::new();
    assert_eq!(w.take_in_timestamps(&vec![30, 20, 10]), Fresh::SkippedInit);
    assert_eq!(w.newest_ts, 30);
    let mut w = NotificationWatcher::new();
    assert_eq!(w.take_in_timestamps(&vec![]), Fresh::Count(0));
    assert_eq!(w.newest_ts, 0);
}

#[test]
fn later_fetches_post_the_newer_prefix() {
    let mut w = NotificationWatcher { newest_ts: 20 };
    assert_eq!(w.take_in_timestamps(&vec![50, 40, 20, 10]), Fresh::Count(2));
    assert_eq!(w.newest_ts, 50);
    assert_eq!(w.take_in_timestamps(&vec![50, 40, 20, 10]), Fresh::Count(0));
    assert_eq!(w.newest_ts, 50);
    assert_eq!(w.take_in_timestamps(&vec![]), Fresh::Count(0));
    assert_eq!(w.newest_ts, 50);
    assert_eq!(count_fresh(20, &vec![50, 10, 40]), 1);
    assert_eq!(count_fresh(0, &vec![50]), 0);
}

#[test]
fn watcher_reads_notification_times() {
    let list = vec![at("1970-01-01T00:01:40Z"), at("1970-01-01T00:00:50Z"), at("1970-01-01T00:00:10Z")];
    let mut w = NotificationWatcher { newest_ts: 30 };
    assert_eq!(w.take_in(&list), Fresh::Count(2));
    assert_eq!(w.newest_ts, 100);
}

#[test]
fn notification_token_needs_a_non_empty_token() {
    assert_eq!(notification_token(&Some("abc".to_string())), Some("abc".to_string()));
    assert_eq!(notification_token(&Some(String::new())), None);
    assert_eq!(notification_token(&None), None);
}

#[test]
fn a_run_posts_each_notification_once() {
    let fetches: Vec<Vec<i64>> = vec![
        vec![100, 90, 80],
        vec![120, 110, 100, 90],
        vec![],
        vec![120, 110],
        vec![150, 120, 110],
        vec![150],
    ];
    let mut w = NotificationWatcher::new();
    let mut posted: Vec<i64> = Vec::new();
    for f in &fetches {
        if let Fresh::Count(n) = w.take_in_timestamps(f) {
            posted.extend(f.iter().take(n));
        }
    }
    assert_eq!(posted, vec![120, 110, 150]);
}
