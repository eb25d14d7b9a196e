//! What the bot does when it starts.

use vstd::prelude::*;

use crate::health_monitor::config_builder::GhostConfig;

verus! {

/// The start of the bot: the room to greet, the greeting, and how often (in
/// minutes) health checks and notification fetches run.
pub struct StartupPlan {
    pub room_id: String,
    pub greeting: String,
    pub health_interval_minutes: u64,
    pub notification_interval_minutes: u64,
}

/// The greeting sent when the bot starts.
pub open spec fn startup_greeting() -> Seq<char> {
    "Bot is up and running! 👟"@
}

/// How the bot starts with `config`: not at all when the configuration has no
/// room or no services; else in the configured room, checking health every 15
/// minutes and fetching notifications every 2.
pub fn on_startup_message(config: &GhostConfig) -> (plan: Option<StartupPlan>)
    ensures
        plan is None <==> (config@.room_id is None || config@.services.len() == 0),
        plan matches Some(p) ==> {
            &&& config@.room_id == Some(p.room_id@)
            &&& p.greeting@ == startup_greeting()
            &&& p.health_interval_minutes == 15
            &&& p.notification_interval_minutes == 2
        },
{
    if config.is_empty() {
        return None;
    }
    let room_id = match &config.room_id {
        Some(r) => r.clone(),
        None => String::new(),
    };
    Some(
        StartupPlan {
            room_id,
            greeting: String::from_str("Bot is up and running! 👟"),
            health_interval_minutes: 15,
            notification_interval_minutes: 2,
        },
    )
}

} // verus!
