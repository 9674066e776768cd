//! The provider's whole state: its tables, its signing keys, and its links.

use crate::clients::ClientRegistry;
use crate::errors::ApiError;
use crate::keys::KeyStore;
use crate::links::ServerLinks;
use crate::session::SessionStore;
use crate::store::{AccessTokenBody, AuthorizationCodeBody, CredStore};
use crate::users::UserTable;
use vstd::prelude::*;

verus! {

/// Everything the endpoints read and write.
pub struct ServerState {
    pub sessions: SessionStore,
    pub codes: CredStore<AuthorizationCodeBody>,
    pub tokens: CredStore<AccessTokenBody>,
    pub users: UserTable,
    pub clients: ClientRegistry,
    pub keys: KeyStore,
    pub links: ServerLinks,
}

impl ServerState {
    /// Every table keeps its invariant, and a signing key exists.
    pub open spec fn wf(&self) -> bool {
        &&& self.sessions.wf()
        &&& self.codes.wf()
        &&& self.tokens.wf()
        &&& self.users.wf()
        &&& self.clients.wf()
        &&& self.keys.wf()
        &&& self.keys.keys@.len() > 0
        &&& self.links.wf()
    }

    /// Boot: derive the links from the issuer origin, start with empty
    /// tables, and generate exactly one signing key, so that one exists
    /// before the first request is served.
    pub fn init(issuer: String) -> (r: Result<ServerState, ApiError>)
        ensures
            r matches Ok(s) ==> ({
                &&& s.wf()
                &&& s.keys.keys@.len() == 1
                &&& s.keys.keys@[0].pem@.len() > 0
                &&& s.links.issuer@ == issuer@
                &&& s.sessions.records@.len() == 0
                &&& s.codes.records@.len() == 0
                &&& s.tokens.records@.len() == 0
                &&& s.users.users@.len() == 0
                &&& s.clients.clients@.len() == 0
            }),
            r is Err ==> r == Err::<ServerState, ApiError>(ApiError::Crypto),
    {
        let mut keys = KeyStore::new();
        if let Err(e) = keys.ensure_signing_key() {
            return Err(e);
        }
        Ok(
            ServerState {
                sessions: CredStore::new(),
                codes: CredStore::new(),
                tokens: CredStore::new(),
                users: UserTable::new(),
                clients: ClientRegistry::new(),
                keys,
                links: ServerLinks::from(issuer),
            },
        )
    }
}

} // verus!
