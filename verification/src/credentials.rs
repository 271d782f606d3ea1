//! The token and client ID that the scraper authenticates with.

use vstd::prelude::*;

verus! {

/// Message given when no token is stored.
pub open spec fn missing_token_message() -> Seq<char> {
    "Token not found! Please enter a token"@
}

/// Message given when no client ID is stored.
pub open spec fn missing_client_id_message() -> Seq<char> {
    "Client ID not found! Pleaser enter a Client ID"@
}

/// The stored authentication data: an OAuth token and a Twitch client ID.
pub struct Credentials {
    pub auth: String,
    pub client_id: String,
}

impl Credentials {
    /// Checks that both the token and the client ID are set; the token is
    /// checked first.
    pub fn check_credentials(&self) -> (r: Result<(), &'static str>)
        ensures
            r is Ok <==> (self.auth@.len() > 0 && self.client_id@.len() > 0),
            self.auth@.len() == 0 ==> (r matches Err(e) && e@ == missing_token_message()),
            self.auth@.len() > 0 && self.client_id@.len() == 0 ==> (r matches Err(e) && e@
                == missing_client_id_message()),
    {
        if self.auth.as_str().is_empty() {
            return Err("Token not found! Please enter a token");
        }
        if self.client_id.as_str().is_empty() {
            return Err("Client ID not found! Pleaser enter a Client ID");
        }
        Ok(())
    }
}

} // verus!
