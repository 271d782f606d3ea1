//! What the command line asks for, and the configuration built from it.

use crate::credentials::Credentials;
use vstd::prelude::*;

verus! {

/// The one task the program is asked to do.
#[derive(PartialEq)]
pub enum Operation<'a> {
    ChannelChat(&'a str),
    VodChat(&'a str),
    Token(Option<&'a str>),
    ClientID(Option<&'a str>),
}

impl<'a> Operation<'a> {
    /// The value the operation carries.
    pub open spec fn value(&self) -> Option<Seq<char>> {
        match self {
            Operation::ChannelChat(x) => Some(x@),
            Operation::VodChat(x) => Some(x@),
            Operation::Token(Some(x)) => Some(x@),
            Operation::Token(None) => None,
            Operation::ClientID(Some(x)) => Some(x@),
            Operation::ClientID(None) => None,
        }
    }

    /// The value the operation carries: the channel, the VOD id, or the token
    /// or client ID when one is given.
    pub fn get_value(&self) -> (r: Option<&str>)
        ensures
            r is Some <==> self.value() is Some,
            r matches Some(v) ==> self.value() == Some(v@),
    {
        match self {
            Operation::Token(Some(x)) => Some(x),
            Operation::Token(None) => None,
            Operation::ClientID(Some(x)) => Some(x),
            Operation::ClientID(None) => None,
            Operation::ChannelChat(x) => Some(x),
            Operation::VodChat(x) => Some(x),
        }
    }
}

/// The values read from the command line.
pub struct Arguments<'a> {
    pub channel: Option<&'a str>,
    pub vod_id: Option<&'a str>,
    pub token: Option<&'a str>,
    pub client_id: Option<&'a str>,
    pub log_filename: Option<&'a str>,
    pub should_log: bool,
}

/// The error given unless exactly one of channel, VOD, token and client ID is given.
pub open spec fn one_option_message() -> Seq<char> {
    "Only one required option at a time. Use --help flag for usage info."@
}

/// The operation that the arguments ask for, when exactly one of channel,
/// VOD, token and client ID is given.
pub open spec fn operation_of<'a>(args: Arguments<'a>) -> Option<Operation<'a>> {
    match (args.channel, args.vod_id, args.token, args.client_id) {
        (Some(x), None, None, None) => Some(Operation::ChannelChat(x)),
        (None, Some(x), None, None) => Some(Operation::VodChat(x)),
        (None, None, Some(x), None) => Some(Operation::Token(Some(x))),
        (None, None, None, Some(x)) => Some(Operation::ClientID(Some(x))),
        _ => None,
    }
}

/// The program's configuration.
pub struct Config<'a> {
    pub credentials: Credentials,
    pub operation: Operation<'a>,
    pub log_filename: Option<&'a str>,
    pub should_log: bool,
}

impl<'a> Config<'a> {
    /// The operation that the arguments ask for; an error unless exactly one
    /// of channel, VOD, token and client ID is given.
    pub fn select_operation(args: &Arguments<'a>) -> (r: Result<Operation<'a>, &'static str>)
        ensures
            r is Ok <==> operation_of(*args) is Some,
            r matches Ok(op) ==> operation_of(*args) == Some(op),
            r matches Err(e) ==> e@ == one_option_message(),
    {
        match (args.channel, args.vod_id, args.token, args.client_id) {
            (Some(x), None, None, None) => Ok(Operation::ChannelChat(x)),
            (None, Some(x), None, None) => Ok(Operation::VodChat(x)),
            (None, None, Some(x), None) => Ok(Operation::Token(Some(x))),
            (None, None, None, Some(x)) => Ok(Operation::ClientID(Some(x))),
            _ => Err("Only one required option at a time. Use --help flag for usage info."),
        }
    }

    /// Builds the configuration from the arguments and the stored
    /// credentials.  Exactly one of channel, VOD, token and client ID must be
    /// given; to read a channel or a VOD the stored credentials must hold both
    /// a token and a client ID.
    pub fn new(args: &Arguments<'a>, credentials: Credentials) -> (r: Result<Config<'a>, &'static str>)
        ensures
            operation_of(*args) is None ==> (r matches Err(e) && e@ == one_option_message()),
            operation_of(*args) matches Some(op) ==> {
                let needs_check = args.token is None && args.client_id is None;
                &&& needs_check && credentials.auth@.len() == 0 ==> (r matches Err(e) && e@
                    == crate::credentials::missing_token_message())
                &&& needs_check && credentials.auth@.len() > 0 && credentials.client_id@.len()
                    == 0 ==> (r matches Err(e) && e@
                    == crate::credentials::missing_client_id_message())
                &&& (!needs_check || (credentials.auth@.len() > 0
                    && credentials.client_id@.len() > 0)) ==> r == Ok::<Config<'a>, &'static str>(
                    Config {
                        credentials,
                        operation: op,
                        log_filename: args.log_filename,
                        should_log: args.should_log,
                    },
                )
            },
    {
        let operation = match Config::select_operation(args) {
            Ok(op) => op,
            Err(e) => {
                return Err(e);
            },
        };
        if args.token.is_none() && args.client_id.is_none() {
            match credentials.check_credentials() {
                Ok(()) => {},
                Err(e) => {
                    return Err(e);
                },
            }
        }
        Ok(Config {
            credentials,
            operation,
            log_filename: args.log_filename,
            should_log: args.should_log,
        })
    }
}

} // verus!
