//! The credential store: table-backed rows keyed by an opaque uid, each bound
//! to a subject, a client, and an expiry instant. Authorization codes and
//! access tokens share this shape; the same expiry sweep serves both.
//!
//! Instants are unix seconds. Lookups re-verify `expires > now`; the sweep
//! deletes rows with `expires < now`; both hold whatever the sweep's timing.

use crate::codec::{all_digits, EntityId};
use crate::csrf::constant_time_eq;
use crate::errors::ApiError;
use crate::scopes::Scopes;
use crate::secret::gen_secret;
use vstd::prelude::*;

verus! {

/// Sessions slide 30 minutes from the last observed request.
pub const SESSION_LIFETIME_SECS: u64 = 1800;

/// Authorization codes live 2 minutes.
pub const CODE_LIFETIME_SECS: u64 = 120;

/// Access tokens live 30 minutes.
pub const TOKEN_LIFETIME_SECS: u64 = 1800;

/// The expiry sweep runs every 5 minutes.
pub const SWEEP_INTERVAL_SECS: u64 = 300;

/// One row of a credential table.
pub struct CredRecord<B> {
    pub uid: String,
    pub user_id: EntityId,
    pub client_id: EntityId,
    pub expires: u64,
    pub body: B,
}

/// What an authorization code carries besides its bindings: the granted
/// scopes, the relying party's `state` (echoed verbatim), the nonce, and the
/// redirect URI that carried the code, which the token exchange re-binds.
pub struct AuthorizationCodeBody {
    pub scope: Scopes,
    pub state: String,
    pub nonce: Option<String>,
    pub redirect_uri: String,
}

/// What an access token carries besides its bindings: the granted scopes.
pub struct AccessTokenBody {
    pub scope: Scopes,
}

/// What a session carries besides its bindings: the last observed peer
/// address. Sessions bind no relying party.
pub struct SessionBody {
    pub last_ip: String,
}

/// A stored authorization code.
pub type AuthorizationCode = CredRecord<AuthorizationCodeBody>;

/// A stored access token.
pub type AccessToken = CredRecord<AccessTokenBody>;

/// Some row holds this uid.
pub open spec fn has_uid<B>(rs: Seq<CredRecord<B>>, uid: Seq<char>) -> bool {
    exists|i: int| 0 <= i < rs.len() && rs[i].uid@ == uid
}

/// Some row holds this uid and is still within its validity window.
pub open spec fn live_uid<B>(rs: Seq<CredRecord<B>>, uid: Seq<char>, now: u64) -> bool {
    exists|i: int| 0 <= i < rs.len() && rs[i].uid@ == uid && rs[i].expires > now
}

/// The index of the row holding `uid` (unique when uids are distinct).
pub open spec fn uid_idx<B>(rs: Seq<CredRecord<B>>, uid: Seq<char>) -> int {
    choose|i: int| 0 <= i < rs.len() && rs[i].uid@ == uid
}

/// No two rows share a uid.
pub open spec fn uids_distinct<B>(rs: Seq<CredRecord<B>>) -> bool {
    forall|i: int, j: int| 0 <= i < j < rs.len() ==> rs[i].uid@ != rs[j].uid@
}

/// A credential table.
pub struct CredStore<B> {
    pub records: Vec<CredRecord<B>>,
}

impl<B> CredStore<B> {
    /// Table invariant: uids are unique.
    pub open spec fn wf(&self) -> bool {
        uids_distinct(self.records@)
    }

    pub fn new() -> (r: Self)
        ensures
            r.records@ =~= Seq::<CredRecord<B>>::empty(),
            r.wf(),
    {
        CredStore { records: Vec::new() }
    }

    /// Index of the row holding `uid`, if any.
    fn find_index(&self, uid: &String) -> (r: Option<usize>)
        ensures
            r matches Some(i) ==> i < self.records@.len() && self.records@[i as int].uid@ == uid@,
            r is None ==> !has_uid(self.records@, uid@),
    {
        let n = self.records.len();
        let mut i: usize = 0;
        while i < n
            invariant
                i <= n,
                n == self.records@.len(),
                forall|j: int| 0 <= j < i ==> self.records@[j].uid@ != uid@,
            decreases n - i,
        {
            if constant_time_eq(&self.records[i].uid, uid) {
                return Some(i);
            }
            i = i + 1;
        }
        None
    }

    /// Insert a row under a freshly generated uid, which is returned. A uid
    /// collision (impossible within the lifetime budget of a 64-character
    /// random uid, but checked nonetheless) fails as a storage error.
    pub fn insert(&mut self, user_id: EntityId, client_id: EntityId, expires: u64, body: B) -> (r:
        Result<String, ApiError>)
        requires
            old(self).wf(),
        ensures
            final(self).wf(),
            r matches Ok(uid) ==> ({
                &&& uid@.len() == 64
                &&& all_digits(uid@)
                &&& !has_uid(old(self).records@, uid@)
                &&& final(self).records@.len() == old(self).records@.len() + 1
                &&& final(self).records@.take(old(self).records@.len() as int) == old(
                    self,
                ).records@
                &&& final(self).records@.last().uid@ == uid@
                &&& final(self).records@.last().user_id == user_id
                &&& final(self).records@.last().client_id == client_id
                &&& final(self).records@.last().expires == expires
                &&& final(self).records@.last().body == body
            }),
            r is Err ==> final(self).records@ == old(self).records@ && r == Err::<
                String,
                ApiError,
            >(ApiError::Database),
    {
        let uid = gen_secret();
        if self.find_index(&uid).is_some() {
            return Err(ApiError::Database);
        }
        let returned = uid.clone();
        let rec = CredRecord { uid, user_id, client_id, expires, body };
        self.records.push(rec);
        proof {
            assert(self.records@.take(self.records@.len() - 1) =~= old(self).records@);
            assert forall|i: int, j: int|
                0 <= i < j < self.records@.len() implies self.records@[i].uid@
                != self.records@[j].uid@ by {
                if j < self.records@.len() - 1 {
                    assert(old(self).records@[i].uid@ != old(self).records@[j].uid@);
                }
            }
        }
        Ok(returned)
    }

    /// Fetch the live row holding `uid`: present and not yet expired.
    pub fn get(&self, uid: &String, now: u64) -> (r: Option<&CredRecord<B>>)
        requires
            self.wf(),
        ensures
            live_uid(self.records@, uid@, now) ==> (r matches Some(rec)
                && self.records@.contains(*rec) && rec.uid@ == uid@ && rec.expires > now),
            !live_uid(self.records@, uid@, now) ==> r is None,
    {
        match self.find_index(uid) {
            Some(i) => {
                let rec = &self.records[i];
                if rec.expires > now {
                    proof {
                        assert(self.records@.contains(self.records@[i as int]));
                    }
                    Some(rec)
                } else {
                    proof {
                        assert forall|j: int|
                            0 <= j < self.records@.len() && self.records@[j].uid@
                                == uid@ implies !(self.records@[j].expires > now) by {
                            if j != i {
                                assert(self.records@[j].uid@ != self.records@[i as int].uid@);
                            }
                        }
                    }
                    None
                }
            }
            None => None,
        }
    }

    /// Remove and return the live row holding `uid`. After a successful take
    /// the uid is gone: a second take of the same uid returns nothing.
    pub fn take(&mut self, uid: &String, now: u64) -> (r: Option<CredRecord<B>>)
        requires
            old(self).wf(),
        ensures
            final(self).wf(),
            !live_uid(old(self).records@, uid@, now) ==> r is None && final(self).records@ == old(
                self,
            ).records@,
            live_uid(old(self).records@, uid@, now) ==> (r matches Some(rec) && ({
                let ors = old(self).records@;
                let frs = final(self).records@;
                &&& rec.uid@ == uid@
                &&& rec.expires > now
                &&& ors.contains(rec)
                &&& !has_uid(frs, uid@)
                &&& exists|i: int| 0 <= i < ors.len() && ors[i] == rec && frs == ors.remove(i)
            })),
    {
        match self.find_index(uid) {
            Some(i) => {
                if self.records[i].expires > now {
                    let rec = self.records.remove(i);
                    proof {
                        let rs = old(self).records@;
                        assert(rs.contains(rs[i as int]));
                        assert forall|a: int, b: int|
                            0 <= a < b < self.records@.len() implies self.records@[a].uid@
                            != self.records@[b].uid@ by {
                            let a0 = if a < i { a } else { a + 1 };
                            let b0 = if b < i { b } else { b + 1 };
                            assert(rs[a0].uid@ != rs[b0].uid@);
                        }
                        assert forall|j: int|
                            0 <= j < self.records@.len() implies self.records@[j].uid@
                            != uid@ by {
                            let j0 = if j < i { j } else { j + 1 };
                            assert(self.records@[j] == rs[j0]);
                            if j0 != i {
                                assert(rs[j0].uid@ != rs[i as int].uid@);
                            }
                        }
                    }
                    Some(rec)
                } else {
                    proof {
                        assert forall|j: int|
                            0 <= j < self.records@.len() && self.records@[j].uid@
                                == uid@ implies !(self.records@[j].expires > now) by {
                            if j != i {
                                assert(self.records@[j].uid@ != self.records@[i as int].uid@);
                            }
                        }
                    }
                    None
                }
            }
            None => None,
        }
    }

    /// Sliding refresh: if a live row holds `uid`, advance its expiry to
    /// `new_expires` unless the stored expiry is already later (an expiry
    /// never regresses), replace its body, and report the row's subject,
    /// client, and new expiry.
    pub fn touch(&mut self, uid: &String, now: u64, new_expires: u64, new_body: B) -> (r: Option<
        (EntityId, EntityId, u64),
    >)
        requires
            old(self).wf(),
        ensures
            final(self).wf(),
            !live_uid(old(self).records@, uid@, now) ==> r is None && final(self).records@ == old(
                self,
            ).records@,
            live_uid(old(self).records@, uid@, now) ==> ({
                let ors = old(self).records@;
                let i = uid_idx(ors, uid@);
                let row = ors[i];
                let bumped = if row.expires >= new_expires {
                    row.expires
                } else {
                    new_expires
                };
                &&& 0 <= i < ors.len()
                &&& row.uid@ == uid@
                &&& row.expires > now
                &&& r == Some((row.user_id, row.client_id, bumped))
                &&& final(self).records@ == ors.update(
                    i,
                    (CredRecord {
                        uid: row.uid,
                        user_id: row.user_id,
                        client_id: row.client_id,
                        expires: bumped,
                        body: new_body,
                    }),
                )
            }),
    {
        match self.find_index(uid) {
            Some(i) => {
                let row_expires = self.records[i].expires;
                if row_expires > now {
                    proof {
                        let ors = old(self).records@;
                        let k = uid_idx(ors, uid@);
                        if k != i as int {
                            assert(ors[k].uid@ != ors[i as int].uid@);
                        }
                    }
                    let bumped = if row_expires >= new_expires {
                        row_expires
                    } else {
                        new_expires
                    };
                    let user_id = self.records[i].user_id;
                    let client_id = self.records[i].client_id;
                    let uid_copy = self.records[i].uid.clone();
                    self.records[i] = CredRecord {
                        uid: uid_copy,
                        user_id,
                        client_id,
                        expires: bumped,
                        body: new_body,
                    };
                    proof {
                        let ors = old(self).records@;
                        assert forall|a: int, b: int|
                            0 <= a < b < self.records@.len() implies self.records@[a].uid@
                            != self.records@[b].uid@ by {
                            assert(ors[a].uid@ != ors[b].uid@);
                            assert(self.records@[a].uid@ == ors[a].uid@);
                            assert(self.records@[b].uid@ == ors[b].uid@);
                        }
                    }
                    Some((user_id, client_id, bumped))
                } else {
                    proof {
                        assert forall|j: int|
                            0 <= j < self.records@.len() && self.records@[j].uid@
                                == uid@ implies !(self.records@[j].expires > now) by {
                            if j != i {
                                assert(self.records@[j].uid@ != self.records@[i as int].uid@);
                            }
                        }
                    }
                    None
                }
            }
            None => None,
        }
    }

    /// Remove the row holding `uid` regardless of expiry, as on logout.
    pub fn delete(&mut self, uid: &String) -> (r: bool)
        requires
            old(self).wf(),
        ensures
            final(self).wf(),
            !has_uid(final(self).records@, uid@),
            r == has_uid(old(self).records@, uid@),
            !r ==> final(self).records@ == old(self).records@,
            r ==> ({
                let ors = old(self).records@;
                let frs = final(self).records@;
                exists|i: int| 0 <= i < ors.len() && ors[i].uid@ == uid@ && frs == ors.remove(i)
            }),
    {
        match self.find_index(uid) {
            Some(i) => {
                self.records.remove(i);
                proof {
                    let rs = old(self).records@;
                    assert forall|a: int, b: int|
                        0 <= a < b < self.records@.len() implies self.records@[a].uid@
                        != self.records@[b].uid@ by {
                        let a0 = if a < i { a } else { a + 1 };
                        let b0 = if b < i { b } else { b + 1 };
                        assert(rs[a0].uid@ != rs[b0].uid@);
                    }
                    assert forall|j: int| 0 <= j < self.records@.len() implies self.records@[j].uid@
                        != uid@ by {
                        let j0 = if j < i { j } else { j + 1 };
                        assert(self.records@[j] == rs[j0]);
                        if j0 != i {
                            assert(rs[j0].uid@ != rs[i as int].uid@);
                        }
                    }
                }
                true
            }
            None => false,
        }
    }

    /// Delete every expired row (`expires < now`), keeping the rest in
    /// order; returns how many rows were removed, for the sweep log.
    pub fn sweep(&mut self, now: u64) -> (removed: usize)
        requires
            old(self).wf(),
        ensures
            final(self).wf(),
            final(self).records@ == old(self).records@.filter(
                |r: CredRecord<B>| r.expires >= now,
            ),
            removed == old(self).records@.len() - final(self).records@.len(),
    {
        let ghost pred = |r: CredRecord<B>| r.expires >= now;
        let ghost rs0 = self.records@;
        let total = self.records.len();
        let mut i = self.records.len();
        proof {
            assert(rs0.skip(i as int) =~= Seq::<CredRecord<B>>::empty());
            assert(rs0.skip(i as int).filter(pred) =~= Seq::<CredRecord<B>>::empty()) by {
                reveal(Seq::filter);
            }
            assert(self.records@ =~= rs0.take(i as int) + rs0.skip(i as int).filter(pred));
        }
        while i > 0
            invariant
                i <= rs0.len(),
                total == rs0.len(),
                pred == (|r: CredRecord<B>| r.expires >= now),
                uids_distinct(rs0),
                self.records@ == rs0.take(i as int) + rs0.skip(i as int).filter(pred),
            decreases i,
        {
            i = i - 1;
            proof {
                lemma_filter_skip_unfold(rs0, pred, i as int);
            }
            if self.records[i].expires < now {
                proof {
                    assert(self.records@[i as int] == rs0[i as int]);
                    assert(!pred(rs0[i as int]));
                }
                self.records.remove(i);
                proof {
                    assert(self.records@ =~= rs0.take(i as int) + rs0.skip(i as int).filter(pred));
                }
            } else {
                proof {
                    assert(self.records@[i as int] == rs0[i as int]);
                    assert(pred(rs0[i as int]));
                    assert(self.records@ =~= rs0.take(i as int) + rs0.skip(i as int).filter(pred));
                }
            }
        }
        proof {
            assert(rs0.take(0) =~= Seq::<CredRecord<B>>::empty());
            assert(rs0.skip(0) =~= rs0);
            assert(self.records@ =~= rs0.filter(pred));
            lemma_filter_distinct(rs0, pred);
            rs0.lemma_filter_len(pred);
        }
        let kept = self.records.len();
        total - kept
    }
}

/// Unfolding step for filtering a suffix: the filtered suffix from `i` is the
/// kept-or-dropped element `i` followed by the filtered suffix from `i + 1`.
pub proof fn lemma_filter_skip_unfold<B>(
    rs: Seq<CredRecord<B>>,
    pred: spec_fn(CredRecord<B>) -> bool,
    i: int,
)
    requires
        0 <= i < rs.len(),
    ensures
        pred(rs[i]) ==> rs.skip(i).filter(pred) == seq![rs[i]] + rs.skip(i + 1).filter(pred),
        !pred(rs[i]) ==> rs.skip(i).filter(pred) == rs.skip(i + 1).filter(pred),
{
    reveal_with_fuel(Seq::filter, 3);
    assert(rs.skip(i) =~= seq![rs[i]] + rs.skip(i + 1));
    Seq::filter_distributes_over_add(seq![rs[i]], rs.skip(i + 1), pred);
    let single = seq![rs[i]];
    assert(single.drop_last() =~= Seq::<CredRecord<B>>::empty());
    if pred(rs[i]) {
        assert(single.filter(pred) =~= seq![rs[i]]);
    } else {
        assert(single.filter(pred) =~= Seq::<CredRecord<B>>::empty());
    }
}

/// Filtering with a weaker predicate first changes nothing.
pub proof fn lemma_filter_stable<T>(s: Seq<T>, p1: spec_fn(T) -> bool, p2: spec_fn(T) -> bool)
    requires
        forall|x: T| #[trigger] p2(x) ==> p1(x),
    ensures
        s.filter(p1).filter(p2) == s.filter(p2),
    decreases s.len(),
{
    reveal(Seq::filter);
    if s.len() > 0 {
        lemma_filter_stable(s.drop_last(), p1, p2);
        let s1 = s.drop_last().filter(p1);
        if p1(s.last()) {
            assert(s1.push(s.last()).drop_last() =~= s1);
            assert(s1.push(s.last()).last() == s.last());
        }
    }
}

/// The expiry sweep is idempotent: sweeping at `t1` and then at any
/// later-or-equal `t2`, with no intervening inserts, leaves exactly the state
/// of a single sweep at `t2`. With `t1 == t2` this says a second run of the
/// same sweep changes nothing.
pub proof fn lemma_sweep_idempotent<B>(rs: Seq<CredRecord<B>>, t1: u64, t2: u64)
    requires
        t1 <= t2,
    ensures
        rs.filter(|r: CredRecord<B>| r.expires >= t1).filter(|r: CredRecord<B>| r.expires >= t2)
            == rs.filter(|r: CredRecord<B>| r.expires >= t2),
{
    lemma_filter_stable(
        rs,
        |r: CredRecord<B>| r.expires >= t1,
        |r: CredRecord<B>| r.expires >= t2,
    );
}

/// Every element of a filtered sequence stands somewhere in the source.
pub proof fn lemma_filter_elem_source<B>(
    rs: Seq<CredRecord<B>>,
    pred: spec_fn(CredRecord<B>) -> bool,
    a: int,
)
    requires
        0 <= a < rs.filter(pred).len(),
    ensures
        exists|a0: int| 0 <= a0 < rs.len() && rs[a0] == rs.filter(pred)[a],
    decreases rs.len(),
{
    reveal(Seq::filter);
    if rs.len() > 0 {
        let sub = rs.drop_last().filter(pred);
        if pred(rs.last()) && a == rs.filter(pred).len() - 1 {
            assert(rs[rs.len() - 1] == rs.filter(pred)[a]);
        } else {
            lemma_filter_elem_source(rs.drop_last(), pred, a);
            let a0 = choose|a0: int| 0 <= a0 < rs.drop_last().len() && rs.drop_last()[a0] == sub[a];
            assert(rs[a0] == sub[a]);
        }
    }
}

/// A filtered table keeps distinct uids distinct.
pub proof fn lemma_filter_distinct<B>(rs: Seq<CredRecord<B>>, pred: spec_fn(CredRecord<B>) -> bool)
    requires
        uids_distinct(rs),
    ensures
        uids_distinct(rs.filter(pred)),
    decreases rs.len(),
{
    reveal(Seq::filter);
    if rs.len() > 0 {
        assert(uids_distinct(rs.drop_last()));
        lemma_filter_distinct(rs.drop_last(), pred);
        let sub = rs.drop_last().filter(pred);
        if pred(rs.last()) {
            let out = sub.push(rs.last());
            assert forall|a: int, b: int| 0 <= a < b < out.len() implies out[a].uid@
                != out[b].uid@ by {
                if b == out.len() - 1 {
                    assert(out[b] == rs.last());
                    lemma_filter_elem_source(rs.drop_last(), pred, a);
                    let a0 = choose|a0: int|
                        0 <= a0 < rs.drop_last().len() && rs.drop_last()[a0] == sub[a];
                    assert(rs[a0] == rs.drop_last()[a0]);
                    assert(rs[a0].uid@ != rs[rs.len() - 1].uid@);
                } else {
                    assert(sub[a].uid@ != sub[b].uid@);
                }
            }
        }
    }
}

} // verus!
