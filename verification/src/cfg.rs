//! Process configuration, built from the raw values of the environment.

use crate::text::{parse_i32, parse_u16, parsed_i32, parsed_u16};
use vstd::prelude::*;

verus! {

/// The settings of the monitor.
#[derive(Debug, PartialEq, Eq)]
pub struct Config {
    /// Path of the container runtime's socket.
    pub docker_socket: String,
    /// The TCP port that the status page listens on.
    pub server_port: u16,
    /// Credential of the chat bot.
    pub bot_token: String,
    /// The chat that receives alerts and may send notes.
    pub admin_chat_id: i32,
}

/// The status page listens here where no port is configured.
pub const DEFAULT_SERVER_PORT: u16 = 3000;

/// The admin chat where none is configured.
pub const DEFAULT_ADMIN_CHAT_ID: i32 = 0;

/// The socket of the container runtime where none is configured.
pub open spec fn default_docker_socket() -> Seq<char> {
    "/var/run/docker.sock"@
}

/// The port that the raw value `raw` configures: its value where it is set
/// and reads as a port, the default otherwise.
pub open spec fn port_from(raw: Option<String>) -> u16 {
    match raw {
        Some(text) => match parsed_u16(text@) {
            Some(port) => port,
            None => DEFAULT_SERVER_PORT,
        },
        None => DEFAULT_SERVER_PORT,
    }
}

/// The admin chat that the raw value `raw` configures: its value where it is
/// set and reads as a chat id, the default otherwise.
pub open spec fn admin_chat_from(raw: Option<String>) -> i32 {
    match raw {
        Some(text) => match parsed_i32(text@) {
            Some(chat) => chat,
            None => DEFAULT_ADMIN_CHAT_ID,
        },
        None => DEFAULT_ADMIN_CHAT_ID,
    }
}

/// The log level where none is configured.
pub open spec fn default_log_level() -> Seq<char> {
    "info"@
}

/// The message that reports a missing bot token.
pub open spec fn missing_token_message() -> Seq<char> {
    "environment variable 'BOT_TOKEN' is not set"@
}

/// The bot token, given the raw value of its environment variable: the value
/// itself where the variable is set, an error message where it is not.
pub fn fetch_bot_token(val: Option<String>) -> (out: Result<String, String>)
    ensures
        match val {
            Some(token) => out matches Ok(t) && t@ == token@,
            None => out matches Err(e) && e@ == missing_token_message(),
        },
{
    match val {
        None => Err("environment variable 'BOT_TOKEN' is not set".to_owned()),
        Some(token) => Ok(token),
    }
}

/// The log level, given the raw value of its environment variable: the value
/// itself where the variable is set, `info` where it is not.
pub fn log_level(raw: Option<String>) -> (level: String)
    ensures
        level@ == match raw {
            Some(configured) => configured@,
            None => default_log_level(),
        },
{
    match raw {
        Some(configured) => configured,
        None => String::from_str("info"),
    }
}

impl Config {
    /// Builds the configuration from the raw values of the four environment
    /// variables. The bot token is required; the others fall back to their
    /// defaults where they are unset or do not read as a number.
    pub fn new(
        docker_socket: Option<String>,
        server_port: Option<String>,
        bot_token: Option<String>,
        admin_chat_id: Option<String>,
    ) -> (out: Result<Config, String>)
        ensures
            match bot_token {
                Some(token) => {
                    &&& out matches Ok(config)
                    &&& config.docker_socket@ == match docker_socket {
                        Some(path) => path@,
                        None => default_docker_socket(),
                    }
                    &&& config.server_port == port_from(server_port)
                    &&& config.bot_token@ == token@
                    &&& config.admin_chat_id == admin_chat_from(admin_chat_id)
                },
                None => out matches Err(e) && e@ == missing_token_message(),
            },
    {
        let docker_socket = match docker_socket {
            Some(path) => path,
            None => String::from_str("/var/run/docker.sock"),
        };
        let server_port = match &server_port {
            Some(text) => match parse_u16(text.as_str()) {
                Some(port) => port,
                None => DEFAULT_SERVER_PORT,
            },
            None => DEFAULT_SERVER_PORT,
        };
        let bot_token = match fetch_bot_token(bot_token) {
            Ok(token) => token,
            Err(e) => {
                return Err(e);
            },
        };
        let admin_chat_id = match &admin_chat_id {
            Some(text) => match parse_i32(text.as_str()) {
                Some(chat) => chat,
                None => DEFAULT_ADMIN_CHAT_ID,
            },
            None => DEFAULT_ADMIN_CHAT_ID,
        };
        Ok(Config { docker_socket, server_port, bot_token, admin_chat_id })
    }
}

} // verus!
