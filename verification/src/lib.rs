//! Twitch chat reader: the verified core of a client that reads (and logs)
//! the chat of a Twitch channel, and stores the token and client ID it uses.

pub mod config;
pub mod credentials;
pub mod irc_chat;
pub mod logger;
pub mod message;
pub mod privmsg;
pub mod text;
pub mod twitch;

use crate::config::{Config, Operation};
use crate::credentials::Credentials;
use vstd::prelude::*;

verus! {

/// What the program does for a configuration.
pub enum RunAction<'a> {
    /// Store these credentials.
    SaveCredentials(Credentials),
    /// Connect to the channel's chat and read it.
    WatchChannel {
        credentials: Credentials,
        channel: &'a str,
        log_filename: Option<&'a str>,
        should_log: bool,
    },
    /// Show this stored value (the token or the client ID).
    ShowStored(String),
    /// Nothing (reading a VOD's chat is not done).
    Nothing,
}

/// Decides what to do for the configuration: a token or a client ID given on
/// the command line replaces the stored one, which is then saved; a token or
/// client ID option without a value shows the stored one; a channel is
/// watched; a VOD id does nothing.
pub fn run<'a>(config: Config<'a>) -> (r: RunAction<'a>)
    ensures
        config.operation matches Operation::Token(None) ==> (r matches RunAction::ShowStored(v)
            && v@ == config.credentials.auth@),
        config.operation matches Operation::ClientID(None) ==> (r matches RunAction::ShowStored(v)
            && v@ == config.credentials.client_id@),
        config.operation matches Operation::Token(Some(x)) ==> (r matches RunAction::SaveCredentials(
            c,
        ) && c.auth@ == x@ && c.client_id@ == config.credentials.client_id@),
        config.operation matches Operation::ClientID(Some(x)) ==> (
        r matches RunAction::SaveCredentials(c) && c.auth@ == config.credentials.auth@
            && c.client_id@ == x@),
        (config.operation is VodChat) ==> (r is Nothing),
        config.operation matches Operation::ChannelChat(x) ==> r == (RunAction::WatchChannel {
            credentials: config.credentials,
            channel: x,
            log_filename: config.log_filename,
            should_log: config.should_log,
        }),
{
    let mut config = config;
    match config.operation {
        Operation::Token(Some(token)) => {
            config.credentials.auth = String::from_str(token);
            RunAction::SaveCredentials(config.credentials)
        },
        Operation::Token(None) => RunAction::ShowStored(config.credentials.auth),
        Operation::VodChat(_) => RunAction::Nothing,
        Operation::ClientID(Some(id)) => {
            config.credentials.client_id = String::from_str(id);
            RunAction::SaveCredentials(config.credentials)
        },
        Operation::ClientID(None) => RunAction::ShowStored(config.credentials.client_id),
        Operation::ChannelChat(channel) => RunAction::WatchChannel {
            credentials: config.credentials,
            channel,
            log_filename: config.log_filename,
            should_log: config.should_log,
        },
    }
}

} // verus!
