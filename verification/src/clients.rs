//! The client registry: relying-party records, their redirect-URI whitelist
//! (exact match, order-insensitive, stored verbatim), and their contacts.
//! Registration is all-or-nothing.

use crate::authreq::{abs_url_check, is_abs_url};
use crate::codec::EntityId;
use crate::csrf::constant_time_eq;
use crate::errors::{ApiError, RegisterErrorKind};
use crate::links::ServerLinks;
use crate::query::clone_strings;
use crate::scopes::views_of;
use crate::secret::gen_secret;
use vstd::prelude::*;

verus! {

/// How the relying party runs, `web` unless it registers as `native`.
#[derive(Clone, Copy, Debug, PartialEq, Eq, Structural)]
pub enum AppType {
    Web,
    Native,
}

impl AppType {
    /// The registered `application_type` value.
    pub fn as_str(&self) -> (r: &'static str)
        ensures
            *self is Web ==> r@ == "web"@,
            *self is Native ==> r@ == "native"@,
    {
        match self {
            AppType::Web => "web",
            AppType::Native => "native",
        }
    }
}

/// One registered relying party.
pub struct ClientRecord {
    pub id: EntityId,
    pub client_name: String,
    pub app_type: AppType,
    pub client_uri: Option<String>,
    pub logo_uri: String,
    pub registration_token: String,
    pub client_secret: String,
    pub redirect_uris: Vec<String>,
    pub contacts: Vec<String>,
}

/// Some record holds this client id.
pub open spec fn has_client(cs: Seq<ClientRecord>, id: EntityId) -> bool {
    exists|i: int| 0 <= i < cs.len() && cs[i].id == id
}

/// A redirect URI is valid for a client if and only if it is byte-equal to
/// one stored for that client id.
pub open spec fn client_has_redirect(cs: Seq<ClientRecord>, id: EntityId, uri: Seq<char>) -> bool {
    exists|i: int|
        0 <= i < cs.len() && cs[i].id == id && views_of(cs[i].redirect_uris@).contains(uri)
}

/// Every entry has the shape of an absolute URL.
pub open spec fn all_abs_urls(us: Seq<String>) -> bool {
    forall|i: int| 0 <= i < us.len() ==> is_abs_url((#[trigger] us[i])@)
}

/// The client with this id authenticates with this secret.
pub open spec fn client_secret_matches(
    cs: Seq<ClientRecord>,
    id: EntityId,
    secret: Seq<char>,
) -> bool {
    exists|i: int| 0 <= i < cs.len() && cs[i].id == id && cs[i].client_secret@ == secret
}

/// What a relying party submits to register, already decoded from JSON.
pub struct ClientMetadata {
    pub client_name: Option<String>,
    pub application_type: Option<AppType>,
    pub client_uri: Option<String>,
    pub logo_uri: Option<String>,
    pub redirect_uris: Vec<String>,
    pub contacts: Vec<String>,
}

/// The RFC 7591 registration response body.
pub struct RegistrationResponse {
    pub client_id: EntityId,
    pub client_secret: String,
    pub registration_token: String,
    pub registration_client_uri: String,
    pub redirect_uris: Vec<String>,
    pub application_type: AppType,
    pub contacts: Vec<String>,
}

/// The client registry.
pub struct ClientRegistry {
    pub clients: Vec<ClientRecord>,
}

impl ClientRegistry {
    /// Registry invariant: client ids are unique.
    pub open spec fn wf(&self) -> bool {
        forall|i: int, j: int|
            0 <= i < j < self.clients@.len() ==> self.clients@[i].id != self.clients@[j].id
    }

    pub fn new() -> (r: Self)
        ensures
            r.clients@ =~= Seq::<ClientRecord>::empty(),
            r.wf(),
    {
        ClientRegistry { clients: Vec::new() }
    }

    /// Look a client up by id.
    pub fn find(&self, id: EntityId) -> (r: Option<&ClientRecord>)
        requires
            self.wf(),
        ensures
            has_client(self.clients@, id) ==> (r matches Some(c) && self.clients@.contains(*c)
                && c.id == id),
            !has_client(self.clients@, id) ==> r is None,
    {
        let n = self.clients.len();
        let mut i: usize = 0;
        while i < n
            invariant
                i <= n,
                n == self.clients@.len(),
                forall|j: int| 0 <= j < i ==> self.clients@[j].id != id,
            decreases n - i,
        {
            if self.clients[i].id == id {
                proof {
                    assert(self.clients@.contains(self.clients@[i as int]));
                }
                return Some(&self.clients[i]);
            }
            i = i + 1;
        }
        None
    }

    /// Whether `uri` is byte-equal to a redirect URI registered for `id`.
    pub fn redirect_uri_valid(&self, id: EntityId, uri: &String) -> (r: bool)
        requires
            self.wf(),
        ensures
            r == client_has_redirect(self.clients@, id, uri@),
    {
        match self.find(id) {
            Some(client) => {
                let n = client.redirect_uris.len();
                let mut i: usize = 0;
                while i < n
                    invariant
                        i <= n,
                        n == client.redirect_uris@.len(),
                        self.wf(),
                        self.clients@.contains(*client),
                        client.id == id,
                        forall|j: int| 0 <= j < i ==> client.redirect_uris@[j]@ != uri@,
                    decreases n - i,
                {
                    if client.redirect_uris[i] == *uri {
                        proof {
                            let cs = self.clients@;
                            let k = choose|k: int| 0 <= k < cs.len() && cs[k] == *client;
                            assert(views_of(cs[k].redirect_uris@)[i as int] == uri@);
                        }
                        return true;
                    }
                    i = i + 1;
                }
                proof {
                    let cs = self.clients@;
                    assert forall|k: int|
                        0 <= k < cs.len() && cs[k].id == id implies !views_of(
                        cs[k].redirect_uris@,
                    ).contains(uri@) by {
                        let c = choose|c: int| 0 <= c < cs.len() && cs[c] == *client;
                        assert(cs[k].id == cs[c].id);
                        assert(k == c);
                        if views_of(cs[k].redirect_uris@).contains(uri@) {
                            let j = choose|j: int|
                                0 <= j < cs[k].redirect_uris@.len() && views_of(
                                    cs[k].redirect_uris@,
                                )[j] == uri@;
                            assert(client.redirect_uris@[j]@ != uri@);
                        }
                    }
                }
                false
            }
            None => false,
        }
    }

    /// The consent-screen join: the client's display name and logo, provided
    /// the client exists *and* the presented redirect URI is whitelisted for
    /// it; absent either, nothing.
    pub fn consent_lookup(&self, id: EntityId, uri: &String) -> (r: Option<(String, String)>)
        requires
            self.wf(),
        ensures
            client_has_redirect(self.clients@, id, uri@) ==> (r matches Some(pair) && exists|i: int|
                0 <= i < self.clients@.len() && self.clients@[i].id == id && pair.0@
                    == self.clients@[i].client_name@ && pair.1@ == self.clients@[i].logo_uri@),
            !client_has_redirect(self.clients@, id, uri@) ==> r is None,
    {
        if !self.redirect_uri_valid(id, uri) {
            return None;
        }
        match self.find(id) {
            Some(client) => {
                proof {
                    let cs = self.clients@;
                    let k = choose|k: int| 0 <= k < cs.len() && cs[k] == *client;
                    assert(cs[k].id == id);
                }
                Some((client.client_name.clone(), client.logo_uri.clone()))
            }
            None => {
                proof {
                    let cs = self.clients@;
                    let k = choose|k: int|
                        0 <= k < cs.len() && cs[k].id == id && views_of(
                            cs[k].redirect_uris@,
                        ).contains(uri@);
                    assert(has_client(cs, id));
                }
                None
            }
        }
    }

    /// Whether the client `id` exists and its stored secret is byte-equal to
    /// `secret`. The comparison is constant-time.
    pub fn check_client_secret(&self, id: EntityId, secret: &String) -> (r: bool)
        requires
            self.wf(),
        ensures
            r == client_secret_matches(self.clients@, id, secret@),
    {
        match self.find(id) {
            Some(client) => {
                let ok = constant_time_eq(&client.client_secret, secret);
                proof {
                    let cs = self.clients@;
                    let k = choose|k: int| 0 <= k < cs.len() && cs[k] == *client;
                    if ok {
                        assert(client_secret_matches(cs, id, secret@));
                    } else {
                        assert forall|j: int|
                            0 <= j < cs.len() && cs[j].id == id implies cs[j].client_secret@
                            != secret@ by {
                            assert(j == k);
                        }
                    }
                }
                ok
            }
            None => false,
        }
    }

    /// Register a relying party: require a `client_name` and well-shaped
    /// redirect URIs, default the application type to `web` and the logo to
    /// the provider's stock icon, allocate a fresh id, secret, and
    /// registration token, and store the record with its redirect URIs and
    /// contacts, all or nothing.
    pub fn register_client(&mut self, metadata: ClientMetadata, links: &ServerLinks) -> (r: Result<
        RegistrationResponse,
        ApiError,
    >)
        requires
            old(self).wf(),
        ensures
            final(self).wf(),
            metadata.client_name is None ==> r == Err::<RegistrationResponse, ApiError>(
                ApiError::OidcRegistration(RegisterErrorKind::InvalidClientMetadata),
            ),
            metadata.client_name is Some && !all_abs_urls(metadata.redirect_uris@) ==> r == Err::<
                RegistrationResponse,
                ApiError,
            >(ApiError::OidcRegistration(RegisterErrorKind::InvalidClientMetadata)),
            metadata.client_name is Some && all_abs_urls(metadata.redirect_uris@) ==> (r is Ok || r
                == Err::<RegistrationResponse, ApiError>(ApiError::Database)),
            r is Err ==> final(self).clients@ == old(self).clients@,
            r matches Ok(resp) ==> ({
                let cs = final(self).clients@;
                let rec = cs.last();
                &&& metadata.client_name is Some
                &&& cs.len() == old(self).clients@.len() + 1
                &&& cs.take(old(self).clients@.len() as int) == old(self).clients@
                &&& !has_client(old(self).clients@, resp.client_id)
                &&& resp.client_id.valid()
                &&& rec.id == resp.client_id
                &&& rec.client_name@ == metadata.client_name.unwrap()@
                &&& rec.app_type == (if metadata.application_type is Some {
                    metadata.application_type.unwrap()
                } else {
                    AppType::Web
                })
                &&& rec.client_uri == metadata.client_uri
                &&& (metadata.logo_uri matches Some(u) ==> rec.logo_uri@ == u@)
                &&& (metadata.logo_uri is None ==> rec.logo_uri@ == links.issuer@
                    + "/static/default_icon.png"@)
                &&& rec.redirect_uris@ == metadata.redirect_uris@
                &&& rec.contacts@ == metadata.contacts@
                &&& rec.client_secret@.len() == 64
                &&& rec.registration_token@.len() == 64
                &&& resp.client_secret@ == rec.client_secret@
                &&& resp.registration_token@ == rec.registration_token@
                &&& resp.registration_client_uri@ == ServerLinks::spec_config_client_url(
                    links.issuer@,
                    resp.client_id,
                )
                &&& resp.redirect_uris@ == metadata.redirect_uris@
                &&& resp.application_type == rec.app_type
                &&& resp.contacts@ == metadata.contacts@
            }),
    {
        let client_name = match metadata.client_name {
            Some(name) => name,
            None => {
                return Err(ApiError::OidcRegistration(RegisterErrorKind::InvalidClientMetadata));
            },
        };
        let uri_count = metadata.redirect_uris.len();
        let mut u: usize = 0;
        while u < uri_count
            invariant
                u <= uri_count,
                uri_count == metadata.redirect_uris@.len(),
                self.clients@ == old(self).clients@,
                self.wf(),
                forall|j: int|
                    0 <= j < u ==> is_abs_url((#[trigger] metadata.redirect_uris@[j])@),
            decreases uri_count - u,
        {
            if !abs_url_check(&metadata.redirect_uris[u]) {
                return Err(ApiError::OidcRegistration(RegisterErrorKind::InvalidClientMetadata));
            }
            u = u + 1;
        }
        let app_type = match metadata.application_type {
            Some(t) => t,
            None => AppType::Web,
        };
        let logo_uri = match metadata.logo_uri {
            Some(u) => u,
            None => links.issuer.clone().concat("/static/default_icon.png"),
        };
        let id = EntityId::generate();
        if self.find(id).is_some() {
            return Err(ApiError::Database);
        }
        let client_secret = gen_secret();
        let registration_token = gen_secret();
        let registration_client_uri = links.oidc_config_client(id);
        let resp = RegistrationResponse {
            client_id: id,
            client_secret: client_secret.clone(),
            registration_token: registration_token.clone(),
            registration_client_uri,
            redirect_uris: clone_strings(&metadata.redirect_uris),
            application_type: app_type,
            contacts: clone_strings(&metadata.contacts),
        };
        let rec = ClientRecord {
            id,
            client_name,
            app_type,
            client_uri: metadata.client_uri,
            logo_uri,
            registration_token,
            client_secret,
            redirect_uris: metadata.redirect_uris,
            contacts: metadata.contacts,
        };
        self.clients.push(rec);
        proof {
            assert(self.clients@.take(self.clients@.len() - 1) =~= old(self).clients@);
            assert forall|a: int, b: int|
                0 <= a < b < self.clients@.len() implies self.clients@[a].id
                != self.clients@[b].id by {
                if b < self.clients@.len() - 1 {
                    assert(old(self).clients@[a].id != old(self).clients@[b].id);
                }
            }
        }
        Ok(resp)
    }
}

} // verus!
