//! The authorizer's settings.
//!
//! The access token comes out of the OAuth flow for installed applications.
//! The flow itself talks to the user and to the network, and is the caller's
//! part. It reads the client secret from the data directory, keeps what it
//! needs to renew the token in the token cache there, and asks for the one
//! scope below.

use vstd::prelude::*;

verus! {

/// The scope that lets the tool create and delete calendar events.
pub const CALENDAR_SCOPE: &'static str = "https://www.googleapis.com/auth/calendar";

/// The scopes that the access token is asked for.
pub fn scopes() -> (scopes: Vec<&'static str>)
    ensures
        scopes@.len() == 1,
        scopes@[0]@ == CALENDAR_SCOPE@,
{
    let mut scopes: Vec<&'static str> = Vec::new();
    scopes.push(CALENDAR_SCOPE);
    scopes
}

} // verus!
