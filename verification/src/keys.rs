//! The signing-key store: RSA private keys, PEM at rest, each under an
//! entity id whose encoded form is the key's `kid`. At least one key must
//! exist before the first request is served; boot generates one if absent.
//! The active signing key is chosen deterministically: the lowest id.

use crate::codec::{encode_digits, lemma_eid_unique, EntityId};
use crate::errors::ApiError;
use rsa::pkcs1::EncodeRsaPrivateKey;
use vstd::prelude::*;

verus! {

/// One stored signing key.
pub struct SigningKey {
    pub id: EntityId,
    pub pem: String,
}

/// Position `i` holds a key whose id is no larger than any other's.
pub open spec fn key_is_min(ks: Seq<SigningKey>, i: int) -> bool {
    0 <= i < ks.len() && (forall|j: int|
        0 <= j < ks.len() ==> ks[i].id.spec_raw() <= (#[trigger] ks[j].id).spec_raw())
}

/// The key with the lowest id, for specifications: the store's active
/// signing key (well-defined once some key exists; unique since ids are).
pub open spec fn spec_active_key(ks: Seq<SigningKey>) -> SigningKey {
    ks[choose|i: int| key_is_min(ks, i)]
}

/// The signing-key store.
pub struct KeyStore {
    pub keys: Vec<SigningKey>,
}

impl KeyStore {
    /// Store invariant: ids are unique and in the entity-id interval.
    pub open spec fn wf(&self) -> bool {
        &&& forall|i: int, j: int|
            0 <= i < j < self.keys@.len() ==> self.keys@[i].id != self.keys@[j].id
        &&& forall|i: int| 0 <= i < self.keys@.len() ==> (#[trigger] self.keys@[i].id).valid()
    }

    pub fn new() -> (r: Self)
        ensures
            r.keys@ =~= Seq::<SigningKey>::empty(),
            r.wf(),
    {
        KeyStore { keys: Vec::new() }
    }

    /// All stored keys.
    pub fn get_all(&self) -> (r: &Vec<SigningKey>)
        ensures
            r@ == self.keys@,
    {
        &self.keys
    }

    /// The active signing key: deterministically the one with the lowest id.
    pub fn active_key(&self) -> (r: Option<&SigningKey>)
        requires
            self.wf(),
        ensures
            self.keys@.len() == 0 ==> r is None,
            self.keys@.len() > 0 ==> (r matches Some(k) && self.keys@.contains(*k) && *k
                == spec_active_key(self.keys@) && forall|i: int|
                0 <= i < self.keys@.len() ==> k.id.spec_raw() <= (
                #[trigger] self.keys@[i].id).spec_raw()),
    {
        let n = self.keys.len();
        if n == 0 {
            return None;
        }
        let mut best: usize = 0;
        let mut i: usize = 1;
        while i < n
            invariant
                best < i <= n,
                n == self.keys@.len(),
                forall|j: int|
                    0 <= j < i ==> self.keys@[best as int].id.spec_raw() <= (
                    #[trigger] self.keys@[j].id).spec_raw(),
            decreases n - i,
        {
            if self.keys[i].id.raw() < self.keys[best].id.raw() {
                best = i;
            }
            i = i + 1;
        }
        proof {
            let ks = self.keys@;
            assert(ks.contains(ks[best as int]));
            assert(key_is_min(ks, best as int));
            let c = choose|i: int| key_is_min(ks, i);
            assert(key_is_min(ks, c));
            if c != best as int {
                assert(ks[c].id.spec_raw() <= ks[best as int].id.spec_raw());
                assert(ks[best as int].id.spec_raw() <= ks[c].id.spec_raw());
                lemma_eid_unique(ks[c].id, ks[best as int].id);
                assert(ks[c].id != ks[best as int].id);
            }
        }
        Some(&self.keys[best])
    }

    /// Boot-time bootstrap: if no key exists, generate exactly one fresh
    /// 2048-bit RSA key and store it under a fresh id; an existing key set is
    /// left untouched. Afterwards at least one key exists.
    pub fn ensure_signing_key(&mut self) -> (r: Result<(), ApiError>)
        requires
            old(self).wf(),
        ensures
            final(self).wf(),
            old(self).keys@.len() > 0 ==> r is Ok && final(self).keys@ == old(self).keys@,
            r is Ok ==> final(self).keys@.len() >= 1,
            old(self).keys@.len() == 0 && r is Ok ==> ({
                &&& final(self).keys@.len() == 1
                &&& final(self).keys@[0].pem@.len() > 0
                &&& final(self).keys@[0].id.valid()
            }),
            r is Err ==> r == Err::<(), ApiError>(ApiError::Crypto) && final(self).keys@ == old(
                self,
            ).keys@,
    {
        if self.keys.len() > 0 {
            return Ok(());
        }
        let pem = match generate_rsa_pem() {
            Ok(p) => p,
            Err(()) => {
                return Err(ApiError::Crypto);
            },
        };
        let id = EntityId::generate();
        self.keys.push(SigningKey { id, pem });
        Ok(())
    }

    /// The JWKS projection's inputs: each key's `kid` (the encoded id) and
    /// its PEM body, in stored order.
    pub fn kids_and_pems(&self) -> (r: Vec<(String, String)>)
        requires
            self.wf(),
        ensures
            r@.len() == self.keys@.len(),
            forall|i: int|
                0 <= i < r@.len() ==> (#[trigger] r@[i]).0@ == encode_digits(
                    self.keys@[i].id.spec_raw() as nat,
                    8,
                ) && r@[i].1@ == self.keys@[i].pem@,
    {
        let n = self.keys.len();
        let mut out: Vec<(String, String)> = Vec::new();
        let mut i: usize = 0;
        while i < n
            invariant
                i <= n,
                n == self.keys@.len(),
                self.wf(),
                out@.len() == i,
                forall|j: int|
                    0 <= j < i ==> (#[trigger] out@[j]).0@ == encode_digits(
                        self.keys@[j].id.spec_raw() as nat,
                        8,
                    ) && out@[j].1@ == self.keys@[j].pem@,
            decreases n - i,
        {
            let kid = self.keys[i].id.encode();
            out.push((kid, self.keys[i].pem.clone()));
            i = i + 1;
        }
        out
    }
}

/// Generate a fresh 2048-bit RSA private key, PEM-encoded (PKCS#1).
///
/// Relies on `rsa::RsaPrivateKey::new` and `to_pkcs1_pem`: the key is drawn
/// from the system's randomness, so nothing relates two calls' results; a
/// PEM rendering is never empty.
#[verifier::external_body]
fn generate_rsa_pem() -> (r: Result<String, ()>)
    ensures
        r matches Ok(p) ==> p@.len() > 0,
{
    let key = match rsa::RsaPrivateKey::new(&mut rsa::rand_core::OsRng, 2048) {
        Ok(k) => k,
        Err(_) => {
            return Err(());
        },
    };
    match key.to_pkcs1_pem(rsa::pkcs8::LineEnding::LF) {
        Ok(p) => Ok(p.to_string()),
        Err(_) => Err(()),
    }
}

} // verus!
