//! The absolute URLs this provider hands out, all derived from the issuer
//! origin (`ISSUER_URL` with any trailing slash already stripped).

use crate::codec::{encode_digits, EntityId};
use crate::query::{append_query_pair, with_query_param};
use vstd::prelude::*;
use vstd::utf8::encode_utf8;

verus! {

/// The provider's endpoint and page URLs.
pub struct ServerLinks {
    pub issuer: String,
    pub oauth_authorize: String,
    pub oauth_token: String,
    pub oidc_jwks: String,
    pub oidc_register: String,
    pub oidc_userinfo: String,
    pub login: String,
    pub register: String,
    pub logout: String,
    pub user: String,
}

impl ServerLinks {
    /// Every link is the issuer origin followed by its fixed path.
    pub open spec fn wf(&self) -> bool {
        &&& self.oauth_authorize@ == self.issuer@ + "/api/oauth2/auth"@
        &&& self.oauth_token@ == self.issuer@ + "/api/oauth2/token"@
        &&& self.oidc_jwks@ == self.issuer@ + "/api/oidc/jwks"@
        &&& self.oidc_register@ == self.issuer@ + "/api/oidc/register"@
        &&& self.oidc_userinfo@ == self.issuer@ + "/api/oidc/userinfo"@
        &&& self.login@ == self.issuer@ + "/login"@
        &&& self.register@ == self.issuer@ + "/register"@
        &&& self.logout@ == self.issuer@ + "/logout"@
        &&& self.user@ == self.issuer@ + "/user"@
    }

    /// Build the link set from the issuer origin.
    pub fn from(issuer: String) -> (r: ServerLinks)
        ensures
            r.wf(),
            r.issuer@ == issuer@,
    {
        let oauth_authorize = issuer.clone().concat("/api/oauth2/auth");
        let oauth_token = issuer.clone().concat("/api/oauth2/token");
        let oidc_jwks = issuer.clone().concat("/api/oidc/jwks");
        let oidc_register = issuer.clone().concat("/api/oidc/register");
        let oidc_userinfo = issuer.clone().concat("/api/oidc/userinfo");
        let login = issuer.clone().concat("/login");
        let register = issuer.clone().concat("/register");
        let logout = issuer.clone().concat("/logout");
        let user = issuer.clone().concat("/user");
        ServerLinks {
            issuer,
            oauth_authorize,
            oauth_token,
            oidc_jwks,
            oidc_register,
            oidc_userinfo,
            login,
            register,
            logout,
            user,
        }
    }

    /// The per-client registration configuration URL.
    pub open spec fn spec_config_client_url(issuer: Seq<char>, client_id: EntityId) -> Seq<char> {
        issuer + "/api/oidc/config/"@ + encode_digits(client_id.spec_raw() as nat, 8)
    }

    pub fn oidc_config_client(&self, client_id: EntityId) -> (r: String)
        requires
            client_id.valid(),
        ensures
            r@ == Self::spec_config_client_url(self.issuer@, client_id),
    {
        let encoded = client_id.encode();
        self.issuer.clone().concat("/api/oidc/config/").concat(encoded.as_str())
    }

    /// The login page URL that returns to `redirect_to` after login.
    pub fn login_from(&self, redirect_to: &String) -> (r: String)
        ensures
            r@ == with_query_param(self.login@, "redirect_uri"@, encode_utf8(redirect_to@)),
    {
        append_query_pair(&self.login, "redirect_uri", redirect_to.as_str())
    }

    /// The registration page URL that returns to `redirect_to` afterwards.
    pub fn register_from(&self, redirect_to: &String) -> (r: String)
        ensures
            r@ == with_query_param(self.register@, "redirect_uri"@, encode_utf8(redirect_to@)),
    {
        append_query_pair(&self.register, "redirect_uri", redirect_to.as_str())
    }

    /// The page of one user. Callers pass an encoded entity id, whose
    /// characters need no escaping in a path segment.
    pub fn user_page(&self, user_id: &String) -> (r: String)
        ensures
            r@ == self.user@ + "/"@ + user_id@,
    {
        self.user.clone().concat("/").concat(user_id.as_str())
    }
}

} // verus!
