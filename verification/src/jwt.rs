//! Access-token claims and the service that holds the signing secret.

use vstd::prelude::*;

verus! {

/// The claims of an access token.
pub struct Claims {
    /// User id.
    pub sub: String,
    /// User roles, in order.
    pub roles: Vec<String>,
    /// Expiry (seconds since the epoch).
    pub exp: i64,
    /// Issue time (seconds since the epoch).
    pub iat: i64,
}

/// Issues and checks access tokens with a shared secret.
pub struct JwtService {
    jwt_secret: String,
}

/// A copy of a list of strings.
pub fn copy_strings(v: &Vec<String>) -> (r: Vec<String>)
    ensures
        r@.len() == v@.len(),
        forall|i: int| 0 <= i < v@.len() ==> (#[trigger] r@[i])@ == v@[i]@,
{
    let mut out: Vec<String> = Vec::new();
    let mut i: usize = 0;
    while i < v.len()
        invariant
            i <= v.len(),
            out@.len() == i,
            forall|j: int| 0 <= j < i ==> (#[trigger] out@[j])@ == v@[j]@,
        decreases v.len() - i,
    {
        out.push(v[i].clone());
        i = i + 1;
    }
    out
}

impl JwtService {
    pub closed spec fn secret_view(&self) -> Seq<char> {
        self.jwt_secret@
    }

    pub fn new(jwt_secret: String) -> (r: Self)
        ensures
            r.secret_view() == jwt_secret@,
    {
        JwtService { jwt_secret }
    }

    /// The signing secret.
    pub fn secret(&self) -> (r: &str)
        ensures
            r@ == self.secret_view(),
    {
        self.jwt_secret.as_str()
    }

    /// The claims of a token issued at `now` for a user: it expires one hour later.
    pub fn claims_for(&self, user_id: &str, roles: &Vec<String>, now: i64) -> (r: Claims)
        requires
            now + 3600 <= i64::MAX,
        ensures
            r.sub@ == user_id@,
            r.roles@.len() == roles@.len(),
            forall|i: int| 0 <= i < roles@.len() ==> (#[trigger] r.roles@[i])@ == roles@[i]@,
            r.iat == now,
            r.exp == now + 3600,
    {
        Claims {
            sub: user_id.to_owned(),
            roles: copy_strings(roles),
            exp: now + crate::auth_rules::ACCESS_TOKEN_SECONDS,
            iat: now,
        }
    }
}

} // verus!
