//! Connection settings of the programs that act as clients of the character
//! server. Reading them from a file is the programs' part.
use vstd::prelude::*;

verus! {

/// Where a bot logs in to the world server, and as whom.
#[derive(Debug, Clone, PartialEq, Eq)]
pub struct BotConfig {
    pub host: String,
    pub port: u16,
    pub owner_id: u32,
    pub privilege_password: String,
}

/// Settings of the magic forest bot: the world server and the character server.
#[derive(Debug, Clone, PartialEq, Eq)]
pub struct MagicForestBotConfig {
    pub host: String,
    pub port: u16,
    pub character_host: String,
    pub character_port: u16,
    pub owner_id: u32,
    pub privilege_password: String,
}

/// Settings of the mall race bot: the world server and the character server.
#[derive(Debug, Clone, PartialEq, Eq)]
pub struct MallRaceBotConfig {
    pub host: String,
    pub port: u16,
    pub character_host: String,
    pub character_port: u16,
    pub owner_id: u32,
    pub privilege_password: String,
}

} // verus!
