//! The client and the credentials it carries.

use vstd::prelude::*;

verus! {

/// The credentials of a channel. Nothing changes them once the client is made.
pub(crate) struct LineContext {
    pub(crate) client_id: Option<String>,
    pub(crate) client_secret: Option<String>,
}

/// A client for the login API of one channel.
pub struct LineLoginClient {
    pub(crate) context: LineContext,
}

/// A credential as the endpoints send it: the empty string where none is set.
pub(crate) open spec fn credential(stored: Option<String>) -> Seq<char> {
    match stored {
        Some(text) => text@,
        None => Seq::empty(),
    }
}

fn credential_of(stored: &Option<String>) -> (text: String)
    ensures
        text@ == credential(*stored),
{
    match stored {
        Some(text) => text.clone(),
        None => String::new(),
    }
}

impl LineLoginClient {
    /// The channel ID that this client sends.
    pub closed spec fn spec_client_id(&self) -> Seq<char> {
        credential(self.context.client_id)
    }

    /// The channel secret that this client sends.
    pub closed spec fn spec_client_secret(&self) -> Seq<char> {
        credential(self.context.client_secret)
    }

    /// Makes a client from a channel's credentials. Any two strings do, empty
    /// ones too: whether the provider accepts them shows when a call is made.
    pub fn new(client_id: &str, client_secret: &str) -> (client: LineLoginClient)
        ensures
            client.spec_client_id() == client_id@,
            client.spec_client_secret() == client_secret@,
    {
        LineLoginClient {
            context: LineContext {
                client_id: Some(client_id.to_owned()),
                client_secret: Some(client_secret.to_owned()),
            },
        }
    }

    pub fn client_id(&self) -> (id: String)
        ensures
            id@ == self.spec_client_id(),
    {
        credential_of(&self.context.client_id)
    }

    pub fn client_secret(&self) -> (secret: String)
        ensures
            secret@ == self.spec_client_secret(),
    {
        credential_of(&self.context.client_secret)
    }
}

} // verus!
