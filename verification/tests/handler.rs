use ghost::handler::new_room_msg::{on_room_message, RoomAction};
use ghost::handler::send_startup_msg::on_startup_message;
use ghost::handler::Handler;
use ghost::health_monitor::config_builder::{ConfBuilder, GhostConfig};

fn replies(actions: &[RoomAction]) -> Vec<String> {
    actions
        .iter()
        .map(|a| match a {
            RoomAction::Reply(s) => s.clone(),
            RoomAction::PostHealthReport => "<health>".to_string(),
        })
        .collect()
}

#[test]
fn commands_are_answered_in_order() {
    let actions = on_room_message(true, Some("!health please, and !ping !version"), "0.1.0");
    assert_eq!(
        replies(&actions),
        vec![
            "Hi 🥹 It's me!".to_string(),
            "Current version of Ghost-Bot is 0.1.0 👻".to_string(),
            "<health>".to_string(),
        ]
    );
}

#[test]
fn single_commands() {
    assert_eq!(replies(&on_room_message(true, Some("!ping"), "1")), vec!["Hi 🥹 It's me!".to_string()]);
    assert_eq!(replies(&on_room_message(true, Some("!health"), "1")), vec!["<health>".to_string()]);
    assert!(on_room_message(true, Some("hello there"), "1").is_empty());
}

#[test]
fn ignored_messages() {
    assert!(on_room_message(false, Some("!ping"), "1").is_empty());
    assert!(on_room_message(true, None, "1").is_empty());
}

#[test]
fn startup_needs_room_and_services() {
    let _handler = Handler {};
    assert!(on_startup_message(&GhostConfig::empty()).is_none());
    let config = ConfBuilder::new(None)
        .build("room-id = \"!abc:example.org\"\nsynapse = \"https://m\"\n")
        .0;
    let plan = on_startup_message(&config).unwrap();
    assert_eq!(plan.room_id, "!abc:example.org");
    assert_eq!(plan.greeting, "Bot is up and running! 👟");
    assert_eq!(plan.health_interval_minutes, 15);
    assert_eq!(plan.notification_interval_minutes, 2);
    let no_services = ConfBuilder::new(None).build("room-id = \"!abc\"\n").0;
    assert!(on_startup_message(&no_services).is_none());
}
