//! Settings of the chat side.
use vstd::prelude::*;

verus! {

/// The chat server the commands are registered on, and the bot's token.
#[derive(Debug, Clone)]
pub struct Discord {
    pub guildid: u64,
    pub token: String,
    pub guilds: Vec<String>,
    pub allowedroles: Vec<String>,
}

} // verus!
