//! Process configuration: the deployment stage and the credentials the
//! session needs. Values are read from the environment by the surrounding
//! program; validation of what was read lives here.

use vstd::prelude::*;

verus! {

/// Deployment stage of the running process.
#[derive(Debug, Copy, Clone, PartialEq, Eq, Structural)]
pub enum Stage {
    Dev,
    Prod,
    Local,
}

impl Stage {
    pub fn is_dev(&self) -> (r: bool)
        ensures
            r == (*self == Stage::Dev),
    {
        matches!(self, Stage::Dev)
    }

    pub fn is_prod(&self) -> (r: bool)
        ensures
            r == (*self == Stage::Prod),
    {
        matches!(self, Stage::Prod)
    }

    pub fn is_local(&self) -> (r: bool)
        ensures
            r == (*self == Stage::Local),
    {
        matches!(self, Stage::Local)
    }
}

/// Port used when the environment names none.
pub fn default_port() -> (r: u16)
    ensures
        r == 50051,
{
    50051
}

/// Stage used when the environment names none.
pub fn default_stage() -> (r: Stage)
    ensures
        r == Stage::Local,
{
    Stage::Local
}

/// A required credential was set to the empty string, or not set at all.
#[derive(Debug, Copy, Clone, PartialEq, Eq, Structural)]
pub enum ConfigError {
    EmptyBotToken,
    EmptySocketModeToken,
    EmptyChannelId,
}

impl ConfigError {
    /// The name of the missing setting, for diagnostics.
    pub fn setting_name(&self) -> (r: &'static str)
        ensures
            self is EmptyBotToken ==> r@ == "SLACK_BOT_TOKEN"@,
            self is EmptySocketModeToken ==> r@ == "SLACK_BOT_SOCKET_MODE_TOKEN"@,
            self is EmptyChannelId ==> r@ == "SLACK_BOT_CHANNEL_ID"@,
    {
        match self {
            ConfigError::EmptyBotToken => "SLACK_BOT_TOKEN",
            ConfigError::EmptySocketModeToken => "SLACK_BOT_SOCKET_MODE_TOKEN",
            ConfigError::EmptyChannelId => "SLACK_BOT_CHANNEL_ID",
        }
    }
}

/// Validated process configuration. The three credential strings are
/// never empty: `Config::new` refuses empty values, and nothing mutates
/// the fields afterwards.
#[derive(Debug)]
pub struct Config {
    pub port: u16,
    pub stage: Stage,
    pub slack_bot_token: String,
    pub slack_bot_socket_mode_token: String,
    pub slack_bot_channel_id: String,
}

impl Config {
    /// All three credentials are non-empty.
    pub open spec fn wf(&self) -> bool {
        &&& self.slack_bot_token@.len() > 0
        &&& self.slack_bot_socket_mode_token@.len() > 0
        &&& self.slack_bot_channel_id@.len() > 0
    }

    /// Accepts the configuration exactly when every credential is
    /// non-empty; otherwise names the first empty one, in the order
    /// bot token, socket-mode token, channel id.
    pub fn new(
        port: u16,
        stage: Stage,
        slack_bot_token: String,
        slack_bot_socket_mode_token: String,
        slack_bot_channel_id: String,
    ) -> (r: Result<Config, ConfigError>)
        ensures
            match r {
                Ok(c) => {
                    &&& c.wf()
                    &&& c.port == port
                    &&& c.stage == stage
                    &&& c.slack_bot_token@ == slack_bot_token@
                    &&& c.slack_bot_socket_mode_token@ == slack_bot_socket_mode_token@
                    &&& c.slack_bot_channel_id@ == slack_bot_channel_id@
                },
                Err(e) => {
                    &&& match e {
                        ConfigError::EmptyBotToken => slack_bot_token@.len() == 0,
                        ConfigError::EmptySocketModeToken => {
                            &&& slack_bot_token@.len() > 0
                            &&& slack_bot_socket_mode_token@.len() == 0
                        },
                        ConfigError::EmptyChannelId => {
                            &&& slack_bot_token@.len() > 0
                            &&& slack_bot_socket_mode_token@.len() > 0
                            &&& slack_bot_channel_id@.len() == 0
                        },
                    }
                },
            },
            r is Ok <==> (slack_bot_token@.len() > 0 && slack_bot_socket_mode_token@.len() > 0
                && slack_bot_channel_id@.len() > 0),
    {
        if slack_bot_token.as_str().is_empty() {
            return Err(ConfigError::EmptyBotToken);
        }
        if slack_bot_socket_mode_token.as_str().is_empty() {
            return Err(ConfigError::EmptySocketModeToken);
        }
        if slack_bot_channel_id.as_str().is_empty() {
            return Err(ConfigError::EmptyChannelId);
        }
        Ok(Config { port, stage, slack_bot_token, slack_bot_socket_mode_token, slack_bot_channel_id })
    }
}

} // verus!
