//! Reactions to chat events: messages in a room, and the start of the bot.

use vstd::prelude::*;

pub mod new_room_msg;
pub mod send_startup_msg;

verus! {

/// The bot's handlers of chat events. The handlers themselves wait on the chat
/// client; what they decide is in [`new_room_msg`] and [`send_startup_msg`].
pub struct Handler {}

} // verus!
