//! The client instance and its cached credential.
//!
//! A credential is a bearer token together with the moment it was issued and
//! the validity window the issuing server declared for it. The client owns at
//! most one such credential at a time; every lookup judges it against the
//! clock before handing it out.

use vstd::prelude::*;

verus! {

/// A bearer credential: the opaque token string, the unix timestamp (in
/// seconds) at which it was issued, and the server-declared validity window
/// in seconds.
#[derive(Debug)]
pub struct AccessToken {
    pub access_token: String,
    pub expires_in: i64,
    pub dt: i64,
}

impl Clone for AccessToken {
    fn clone(&self) -> (r: Self)
        ensures
            r == *self,
    {
        AccessToken {
            access_token: self.access_token.clone(),
            expires_in: self.expires_in,
            dt: self.dt,
        }
    }
}

impl PartialEq for AccessToken {
    fn eq(&self, other: &AccessToken) -> (r: bool) {
        self.access_token == other.access_token && self.expires_in == other.expires_in
            && self.dt == other.dt
    }
}

impl vstd::std_specs::cmp::PartialEqSpecImpl for AccessToken {
    open spec fn obeys_eq_spec() -> bool {
        true
    }

    open spec fn eq_spec(&self, other: &AccessToken) -> bool {
        &&& self.access_token@ == other.access_token@
        &&& self.expires_in == other.expires_in
        &&& self.dt == other.dt
    }
}

/// Relies on `chrono::Local::now` and `DateTime::timestamp` for the
/// current unix time in seconds. Nothing is promised of the result: what
/// the clock reads is outside the library, and every caller states what
/// holds whatever came back.
#[verifier::external_body]
pub(crate) fn current_timestamp() -> i64 {
    chrono::Local::now().timestamp()
}

/// A credential is fresh at `now` exactly when strictly less than its
/// validity window has elapsed since it was issued. At exactly
/// `expires_in` seconds elapsed it is already stale: there is no grace
/// window.
pub open spec fn spec_is_fresh(t: AccessToken, now: int) -> bool {
    now - t.dt < t.expires_in
}

/// Runtime freshness check; agrees with [`spec_is_fresh`] on every input.
pub fn is_fresh(t: &AccessToken, now: i64) -> (r: bool)
    ensures
        r == spec_is_fresh(*t, now as int),
{
    (now as i128) - (t.dt as i128) < (t.expires_in as i128)
}

/// The client instance: the immutable application identifier and secret,
/// and the exclusively owned slot for the cached credential. A host that
/// shares one client across threads guards the whole instance with one
/// exclusive lock, so that the check-then-refresh sequence on the slot
/// stays atomic.
pub struct Client {
    pub app_id: String,
    pub secret: String,
    pub access_token: Option<AccessToken>,
}

impl Client {
    /// Builds a client. `stored` is whatever credential the persistence
    /// backend could recover at startup; an absent or unreadable record
    /// arrives here as `None` and the cache starts empty. Staleness of a
    /// recovered credential is not judged here: it is re-evaluated lazily
    /// on the first lookup.
    pub fn new(app_id: String, secret: String, stored: Option<AccessToken>) -> (c: Client)
        ensures
            c.app_id == app_id,
            c.secret == secret,
            c.access_token == stored,
    {
        Client { app_id, secret, access_token: stored }
    }

    /// Replaces the cached credential wholesale; identifier and secret are
    /// untouched.
    pub fn set_access_token(&mut self, token: AccessToken)
        ensures
            final(self).access_token == Some(token),
            final(self).app_id == old(self).app_id,
            final(self).secret == old(self).secret,
    {
        self.access_token = Some(token);
    }

    /// The client holds a credential that is still fresh at `now`.
    pub open spec fn spec_has_fresh(self, now: int) -> bool {
        &&& self.access_token is Some
        &&& spec_is_fresh(self.access_token->0, now)
    }

    /// Cache lookup: returns the cached credential exactly when one is held
    /// and it is still fresh at `now`; returns that very credential, and
    /// never touches the slot. A `None` result is the caller's signal that
    /// a fresh issuance call is required.
    pub fn cached_access_token(&self, now: i64) -> (r: Option<AccessToken>)
        ensures
            r is Some <==> self.spec_has_fresh(now as int),
            r is Some ==> r->0 == self.access_token->0,
    {
        match &self.access_token {
            Some(t) => {
                if is_fresh(t, now) {
                    Some(t.clone())
                } else {
                    None
                }
            },
            None => None,
        }
    }

    /// Cache lookup against the clock at the moment of the call. Whatever
    /// the clock read: a returned credential is exactly the cached one,
    /// and an empty cache returns nothing.
    pub fn cached_token_now(&self) -> (r: Option<AccessToken>)
        ensures
            r is Some ==> self.access_token is Some && r->0 == self.access_token->0,
            self.access_token is None ==> r is None,
    {
        let now = current_timestamp();
        self.cached_access_token(now)
    }
}

/// Two lookups inside one validity window need at most one issuance call:
/// once a credential issued at `dt` with window `expires_in` sits in the
/// cache, a client at any moment strictly inside that window holds a
/// fresh credential, so `cached_access_token` serves the cached one and
/// the caller makes no network call.
pub proof fn lemma_cache_hit_within_window(c: Client, now: int)
    requires
        c.access_token is Some,
        now - c.access_token->0.dt < c.access_token->0.expires_in,
    ensures
        c.spec_has_fresh(now),
{
}

/// Many callers serialized through the exclusive lock, one issuance: a
/// caller that finds the cache empty must fetch (`c0` holds nothing
/// fresh, at any moment); and once that one caller has stored a
/// credential with a positive window stamped with the shared moment
/// `now`, every remaining caller at `now` holds a fresh cache and is
/// served that very credential, with no further issuance call.
pub proof fn lemma_single_issuance_serves_all(c0: Client, c1: Client, t: AccessToken, now: int)
    requires
        c0.access_token is None,
        c1.access_token == Some(t),
        t.dt == now,
        1 <= t.expires_in,
    ensures
        !c0.spec_has_fresh(now),
        c1.spec_has_fresh(now),
        c1.access_token->0 == t,
{
}

/// The freshness boundary is strict: a credential with a positive window
/// is still fresh one second before the window closes, and already stale
/// at the moment exactly `expires_in` seconds have elapsed — a lookup
/// there triggers a new issuance call.
pub proof fn lemma_freshness_boundary(t: AccessToken)
    requires
        1 <= t.expires_in,
    ensures
        spec_is_fresh(t, t.dt + t.expires_in - 1),
        !spec_is_fresh(t, t.dt + t.expires_in),
{
}

} // verus!
