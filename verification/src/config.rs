//! Service configuration: the values loaded from the environment at
//! startup, with the defaulting rule for the account-service URL.

use vstd::prelude::*;

verus! {

/// The configuration of the running service.
#[derive(Debug, Clone)]
pub struct Config {
    pub discord_token: String,
    pub api_token: String,
    pub api_base_url: String,
    pub guild_id: u64,
    pub scores_channel_id: u64,
}

impl Config {
    /// Assembles a configuration from loaded environment values; an
    /// absent base URL falls back to the local default.
    pub fn assemble(
        discord_token: String,
        api_token: String,
        api_base_url: Option<String>,
        guild_id: u64,
        scores_channel_id: u64,
    ) -> (c: Config)
        ensures
            c.discord_token == discord_token,
            c.api_token == api_token,
            c.guild_id == guild_id,
            c.scores_channel_id == scores_channel_id,
            (match api_base_url {
                Some(u) => c.api_base_url == u,
                None => c.api_base_url@ == "http://localhost:3001"@,
            }),
    {
        let api_base_url = match api_base_url {
            Some(u) => u,
            None => "http://localhost:3001".to_owned(),
        };
        Config { discord_token, api_token, api_base_url, guild_id, scores_channel_id }
    }
}

} // verus!
