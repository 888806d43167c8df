//! Message addressing and command vocabulary for an IRC bot: who sent a
//! message, whether it is directed at the bot, and what a command handler may
//! answer.

pub mod bot_cmd;
pub mod irc_msgs;
pub mod laws;
pub mod text;
