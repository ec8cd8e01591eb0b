use vstd::prelude::*;

verus! {

/// A cached access token for outbound calls and the time, in seconds since the
/// Unix epoch, at which it expires.
#[derive(Debug, Clone)]
pub struct Credential {
    pub access_token: String,
    pub expires_at: i64,
}

impl Credential {
    /// The empty credential held before the first refresh; it expired at the
    /// epoch.
    pub fn empty() -> (r: Self)
        ensures
            r.access_token@ == Seq::<char>::empty(),
            r.expires_at == 0,
    {
        Credential { access_token: String::new(), expires_at: 0 }
    }

    /// A credential issued at `now` that stays valid for `expires_in` seconds;
    /// `None` where its expiry does not fit the timestamp range.
    pub fn issued(access_token: String, now: i64, expires_in: i64) -> (r: Option<Self>)
        ensures
            r is Some <==> i64::MIN <= now + expires_in <= i64::MAX,
            r matches Some(c) ==> c.access_token == access_token && c.expires_at == now + expires_in,
    {
        match now.checked_add(expires_in) {
            Some(expires_at) => Some(Credential { access_token, expires_at }),
            None => None,
        }
    }

    /// Whether the token must be refreshed before a call made at `now`.
    pub fn is_expired(&self, now: i64) -> (r: bool)
        ensures
            r == (self.expires_at < now),
    {
        self.expires_at < now
    }

    /// The value of the authorization header that carries this token.
    pub fn authorization_value(&self) -> (r: String)
        ensures
            r@ == "Bearer "@ + self.access_token@,
    {
        let mut v = "Bearer ".to_owned();
        v.append(self.access_token.as_str());
        v
    }
}

} // verus!
