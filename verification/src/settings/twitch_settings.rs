//! The chat account the mod runs under.

use vstd::prelude::*;
use vstd::string::StringExecFns;
use vstd::utf8::encode_utf8;

verus! {

/// The number of bytes in a chat OAuth token.
pub const OAUTH_TOKEN_LENGTH: usize = 30;

/// The account that reads the votes, and how long a vote lasts.
#[derive(Clone, Debug)]
pub struct TwitchSettings {
    /// The account's login, which is also the channel joined.
    pub username: String,
    /// The account's OAuth token.
    pub oauth_token: String,
    /// How long a vote stays open, in seconds.
    pub voting_time: u64,
}

impl TwitchSettings {
    /// The placeholder settings written out when none exist yet.
    pub fn default_settings() -> (settings: TwitchSettings)
        ensures
            settings.username@
                == "USERNAME OF THE ACCOUNT MUST MATCH THE USERNAME ATTACHED TO THE OAUTH TOKEN"@,
            settings.oauth_token@ == "OAUTH TOKEN, GENERATE: https://twitchtokengenerator.com/"@,
            settings.voting_time == 45,
    {
        TwitchSettings {
            username: String::from_str(
                "USERNAME OF THE ACCOUNT MUST MATCH THE USERNAME ATTACHED TO THE OAUTH TOKEN",
            ),
            oauth_token: String::from_str("OAUTH TOKEN, GENERATE: https://twitchtokengenerator.com/"),
            voting_time: 45,
        }
    }

    /// Whether the token has the length of a chat OAuth token, counted in
    /// UTF-8 bytes. The mod refuses to start with a token of any other length.
    pub fn has_valid_token_length(&self) -> (valid: bool)
        ensures
            valid == (encode_utf8(self.oauth_token@).len() as usize == OAUTH_TOKEN_LENGTH),
    {
        self.oauth_token.as_str().len() == OAUTH_TOKEN_LENGTH
    }
}

} // verus!
