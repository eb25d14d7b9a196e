//! The commands that the bot answers in a room.

use vstd::prelude::*;

use crate::text::{seq_contains, str_contains};

verus! {

/// What the bot does in answer to a message.
pub enum RoomAction {
    /// Send this text to the room.
    Reply(String),
    /// Check the configured services and send the health report to the room.
    PostHealthReport,
}

/// The abstract value of a [`RoomAction`].
pub enum RoomActionView {
    Reply(Seq<char>),
    PostHealthReport,
}

impl View for RoomAction {
    type V = RoomActionView;

    open spec fn view(&self) -> RoomActionView {
        match self {
            RoomAction::Reply(s) => RoomActionView::Reply(s@),
            RoomAction::PostHealthReport => RoomActionView::PostHealthReport,
        }
    }
}

/// The answer to `!ping`.
pub open spec fn ping_reply() -> Seq<char> {
    "Hi 🥹 It's me!"@
}

/// The answer to `!version`, for the bot's version `version`.
pub open spec fn version_reply(version: Seq<char>) -> Seq<char> {
    "Current version of Ghost-Bot is "@ + version + " 👻"@
}

/// What the bot does about a message: nothing unless it has joined the room
/// and the message is text; else, in this order, a greeting for `!ping`, its
/// version for `!version`, and a health report for `!health`, for each
/// command that the text contains.
pub open spec fn room_actions(joined: bool, text: Option<Seq<char>>, version: Seq<char>) -> Seq<
    RoomActionView,
> {
    if !joined {
        Seq::empty()
    } else {
        match text {
            None => Seq::empty(),
            Some(body) => {
                let ping = if seq_contains(body, "!ping"@) {
                    seq![RoomActionView::Reply(ping_reply())]
                } else {
                    Seq::empty()
                };
                let ver = if seq_contains(body, "!version"@) {
                    seq![RoomActionView::Reply(version_reply(version))]
                } else {
                    Seq::empty()
                };
                let health = if seq_contains(body, "!health"@) {
                    seq![RoomActionView::PostHealthReport]
                } else {
                    Seq::empty()
                };
                ping + ver + health
            },
        }
    }
}

/// The bot stays silent unless it has joined the room and got a text message;
/// then it answers each command the text contains once: a ping first, a health
/// report last, and nothing else.
pub proof fn lemma_room_answers(joined: bool, text: Option<Seq<char>>, version: Seq<char>)
    ensures
        (!joined || text is None) ==> room_actions(joined, text, version).len() == 0,
        joined && text is Some ==> ({
            let body = text->0;
            let actions = room_actions(joined, text, version);
            &&& actions.len() == (if seq_contains(body, "!ping"@) { 1int } else { 0int }) + (if seq_contains(
                body,
                "!version"@,
            ) {
                1int
            } else {
                0int
            }) + (if seq_contains(body, "!health"@) {
                1int
            } else {
                0int
            })
            &&& seq_contains(body, "!ping"@) ==> actions[0] == RoomActionView::Reply("Hi 🥹 It's me!"@)
            &&& seq_contains(body, "!health"@) ==> actions[actions.len() - 1]
                == RoomActionView::PostHealthReport
            &&& (exists|i: int| 0 <= i < actions.len() && actions[i] == RoomActionView::PostHealthReport)
                <==> seq_contains(body, "!health"@)
        }),
{
    if joined && text is Some {
        let body = text->0;
        let actions = room_actions(joined, text, version);
        if exists|i: int| 0 <= i < actions.len() && actions[i] == RoomActionView::PostHealthReport {
            let i = choose|i: int| 0 <= i < actions.len() && actions[i] == RoomActionView::PostHealthReport;
            if !seq_contains(body, "!health"@) {
                assert(actions[i] is Reply);
            }
        }
    }
}

/// The abstract value of a list of actions.
pub open spec fn actions_view(actions: Seq<RoomAction>) -> Seq<RoomActionView> {
    actions.map_values(|a: RoomAction| a@)
}

/// What the bot does about a message in a room: `joined` says whether the bot
/// has joined the room, `text_body` is the body of a text message (`None` for
/// other kinds of message), and `version` is the bot's version.
pub fn on_room_message(joined: bool, text_body: Option<&str>, version: &str) -> (actions: Vec<
    RoomAction,
>)
    ensures
        actions_view(actions@) == room_actions(
            joined,
            match text_body {
                Some(b) => Some(b@),
                None => None,
            },
            version@,
        ),
{
    let mut actions: Vec<RoomAction> = Vec::new();
    if !joined {
        assert(actions_view(actions@) =~= Seq::empty());
        return actions;
    }
    let body = match text_body {
        Some(b) => b,
        None => {
            assert(actions_view(actions@) =~= Seq::empty());
            return actions;
        },
    };
    let ping = str_contains(body, "!ping");
    let ver = str_contains(body, "!version");
    let health = str_contains(body, "!health");
    if ping {
        actions.push(RoomAction::Reply(String::from_str("Hi 🥹 It's me!")));
    }
    if ver {
        let mut msg = String::from_str("Current version of Ghost-Bot is ");
        msg.append(version);
        msg.append(" 👻");
        actions.push(RoomAction::Reply(msg));
    }
    if health {
        actions.push(RoomAction::PostHealthReport);
    }
    let ghost expected = room_actions(joined, Some(body@), version@);
    assert(actions_view(actions@) =~= expected);
    actions
}

} // verus!
