//! The bot's settings, read from the values of its environment variables.
use vstd::prelude::*;
use crate::parse::{parse_i64_str, parse_i64_spec};

verus! {

/// The bot's settings.
#[derive(Debug, Clone)]
pub struct Config {
    pub bot_token: String,
    pub server_host: String,
    pub server_port: u16,
    pub webhook_url: String,
    pub webhook_path: String,
    pub secret_token: String,
    pub database_url: String,
    pub iris_api_id: i64,
    pub iris_api_token: String,
}

/// The values of the environment variables the settings come from; `None` where unset.
#[derive(Debug, Clone)]
pub struct ConfigVars {
    pub bot_token: Option<String>,
    pub server_host: Option<String>,
    pub server_port: Option<String>,
    pub webhook_url: Option<String>,
    pub webhook_path: Option<String>,
    pub secret_token: Option<String>,
    pub database_url: Option<String>,
    pub iris_api_id: Option<String>,
    pub iris_api_token: Option<String>,
}

/// Why the settings could not be read.
#[derive(Debug, Clone, Copy, PartialEq, Eq, Structural)]
pub enum ConfigError {
    BotTokenMissing,
    ServerHostMissing,
    ServerPortMissing,
    ServerPortNotInteger,
    WebhookUrlMissing,
    WebhookPathMissing,
    SecretTokenMissing,
    DatabaseUrlMissing,
    IrisApiIdMissing,
    IrisApiIdNotInteger,
    IrisApiTokenMissing,
}

impl ConfigError {
    /// The message the bot stops with for this error.
    pub fn message(&self) -> (r: &'static str)
        ensures
            r@ == self.message_spec(),
    {
        match self {
            ConfigError::BotTokenMissing => "bot token is not set.",
            ConfigError::ServerHostMissing => "server host is not set.",
            ConfigError::ServerPortMissing => "server port is not set.",
            ConfigError::ServerPortNotInteger => "server port is not integer.",
            ConfigError::WebhookUrlMissing => "webhook url is not set.",
            ConfigError::WebhookPathMissing => "webhook path is not set.",
            ConfigError::SecretTokenMissing => "secret token is not set.",
            ConfigError::DatabaseUrlMissing => "database url is not set.",
            ConfigError::IrisApiIdMissing => "iris api id is not set.",
            ConfigError::IrisApiIdNotInteger => "iris api id is not integer.",
            ConfigError::IrisApiTokenMissing => "iris api token is not set.",
        }
    }

    /// The message of each error.
    pub open spec fn message_spec(self) -> Seq<char> {
        match self {
            ConfigError::BotTokenMissing => "bot token is not set."@,
            ConfigError::ServerHostMissing => "server host is not set."@,
            ConfigError::ServerPortMissing => "server port is not set."@,
            ConfigError::ServerPortNotInteger => "server port is not integer."@,
            ConfigError::WebhookUrlMissing => "webhook url is not set."@,
            ConfigError::WebhookPathMissing => "webhook path is not set."@,
            ConfigError::SecretTokenMissing => "secret token is not set."@,
            ConfigError::DatabaseUrlMissing => "database url is not set."@,
            ConfigError::IrisApiIdMissing => "iris api id is not set."@,
            ConfigError::IrisApiIdNotInteger => "iris api id is not integer."@,
            ConfigError::IrisApiTokenMissing => "iris api token is not set."@,
        }
    }
}

/// What `str::parse::<u16>` gives: an optional `+`, ASCII digits, a value up to 65535.
pub open spec fn parse_u16_spec(s: Seq<char>) -> Option<u16> {
    if s.len() > 0 && s[0] == '-' {
        None
    } else {
        match parse_i64_spec(s) {
            Some(v) => if 0 <= v <= 65535 {
                Some(v as u16)
            } else {
                None
            },
            None => None,
        }
    }
}

/// `str::parse::<u16>`.
pub fn parse_u16_str(s: &str) -> (r: Option<u16>)
    ensures
        r == parse_u16_spec(s@),
{
    let chars = crate::strings::chars_of(s);
    if chars.len() > 0 && chars[0] == '-' {
        return None;
    }
    match crate::parse::parse_i64(&chars) {
        Some(v) => if 0 <= v && v <= 65535 {
            Some(v as u16)
        } else {
            None
        },
        None => None,
    }
}

/// The first problem with the variables, in the order the settings are listed, if any.
pub open spec fn config_error_spec(v: ConfigVars) -> Option<ConfigError> {
    if v.bot_token is None {
        Some(ConfigError::BotTokenMissing)
    } else if v.server_host is None {
        Some(ConfigError::ServerHostMissing)
    } else if v.server_port is None {
        Some(ConfigError::ServerPortMissing)
    } else if parse_u16_spec(v.server_port->0@) is None {
        Some(ConfigError::ServerPortNotInteger)
    } else if v.webhook_url is None {
        Some(ConfigError::WebhookUrlMissing)
    } else if v.webhook_path is None {
        Some(ConfigError::WebhookPathMissing)
    } else if v.secret_token is None {
        Some(ConfigError::SecretTokenMissing)
    } else if v.database_url is None {
        Some(ConfigError::DatabaseUrlMissing)
    } else if v.iris_api_id is None {
        Some(ConfigError::IrisApiIdMissing)
    } else if parse_i64_spec(v.iris_api_id->0@) is None {
        Some(ConfigError::IrisApiIdNotInteger)
    } else if v.iris_api_token is None {
        Some(ConfigError::IrisApiTokenMissing)
    } else {
        None
    }
}

impl Config {
    /// Reads the settings from the variables: each text setting is taken as it is, the port
    /// and the Iris API identifier are read as numbers. The first problem, in the order of the
    /// settings, is the error.
    pub fn load_from(vars: ConfigVars) -> (r: Result<Config, ConfigError>)
        ensures
            match r {
                Ok(c) => config_error_spec(vars) is None && Some(c.bot_token@) == crate::user::opt_view(
                    vars.bot_token,
                ) && Some(c.server_host@) == crate::user::opt_view(vars.server_host) && Some(
                    c.server_port,
                ) == parse_u16_spec(vars.server_port->0@) && Some(c.webhook_url@)
                    == crate::user::opt_view(vars.webhook_url) && Some(c.webhook_path@)
                    == crate::user::opt_view(vars.webhook_path) && Some(c.secret_token@)
                    == crate::user::opt_view(vars.secret_token) && Some(c.database_url@)
                    == crate::user::opt_view(vars.database_url) && Some(c.iris_api_id)
                    == parse_i64_spec(vars.iris_api_id->0@) && Some(c.iris_api_token@)
                    == crate::user::opt_view(vars.iris_api_token),
                Err(e) => config_error_spec(vars) == Some(e),
            },
    {
        let ghost v = vars;
        let ConfigVars {
            bot_token,
            server_host,
            server_port,
            webhook_url,
            webhook_path,
            secret_token,
            database_url,
            iris_api_id,
            iris_api_token,
        } = vars;
        let bot_token = match bot_token {
            Some(x) => x,
            None => return Err(ConfigError::BotTokenMissing),
        };
        let server_host = match server_host {
            Some(x) => x,
            None => return Err(ConfigError::ServerHostMissing),
        };
        let server_port = match server_port {
            Some(x) => match parse_u16_str(x.as_str()) {
                Some(p) => p,
                None => return Err(ConfigError::ServerPortNotInteger),
            },
            None => return Err(ConfigError::ServerPortMissing),
        };
        let webhook_url = match webhook_url {
            Some(x) => x,
            None => return Err(ConfigError::WebhookUrlMissing),
        };
        let webhook_path = match webhook_path {
            Some(x) => x,
            None => return Err(ConfigError::WebhookPathMissing),
        };
        let secret_token = match secret_token {
            Some(x) => x,
            None => return Err(ConfigError::SecretTokenMissing),
        };
        let database_url = match database_url {
            Some(x) => x,
            None => return Err(ConfigError::DatabaseUrlMissing),
        };
        let iris_api_id = match iris_api_id {
            Some(x) => match parse_i64_str(x.as_str()) {
                Some(p) => p,
                None => return Err(ConfigError::IrisApiIdNotInteger),
            },
            None => return Err(ConfigError::IrisApiIdMissing),
        };
        let iris_api_token = match iris_api_token {
            Some(x) => x,
            None => return Err(ConfigError::IrisApiTokenMissing),
        };
        Ok(Config {
            bot_token,
            server_host,
            server_port,
            webhook_url,
            webhook_path,
            secret_token,
            database_url,
            iris_api_id,
            iris_api_token,
        })
    }
}

} // verus!
