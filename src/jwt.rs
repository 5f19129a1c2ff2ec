//! The token codec (HS256 signing and signature-checked decoding) and the
//! expiry validator.
use crate::clock::get_current_time;
use crate::json::{json_as_u64, json_member, member};
use serde_json::Value;
use vstd::prelude::*;

verus! {

#[verifier::external_type_specification]
#[verifier::external_body]
pub struct ExJwtError(jsonwebtoken::errors::Error);

/// The token that `jsonwebtoken::encode` builds for these claims under the
/// default HS256 header, keyed by the secret's bytes.
pub uninterp spec fn hs256_token(claims: Value, secret: Seq<char>) -> Seq<char>;

/// The claims that `jsonwebtoken::decode` recovers from a token when its
/// structure is sound and its HS256 signature matches the secret; `None`
/// otherwise. The decoder's own claim scan also refuses a correctly signed
/// token whose `exp`, `nbf` or `sub` is an array or an object.
pub uninterp spec fn hs256_claims(token: Seq<char>, secret: Seq<char>) -> Option<Value>;

/// Relies on `jsonwebtoken::encode` with `Header::default()` (HS256) and
/// `EncodingKey::from_secret`: the token depends on the claims and the secret
/// alone. It always succeeds here: the key's family is HMAC as HS256 asks,
/// serialising the header or a `Value` cannot fail, and HMAC signing cannot
/// fail.
#[verifier::external_body]
fn sign_hs256(claims: &Value, secret: &str) -> (r: Result<String, jsonwebtoken::errors::Error>)
    ensures
        r is Ok,
        r matches Ok(t) ==> t@ == hs256_token(*claims, secret@),
{
    let key = jsonwebtoken::EncodingKey::from_secret(secret.as_bytes());
    jsonwebtoken::encode(&jsonwebtoken::Header::default(), claims, &key)
}

/// Relies on `jsonwebtoken::decode::<Value>` with `DecodingKey::from_secret`,
/// under a validation that accepts HS256 and checks the signature only (no
/// required claims, no expiry, no audience): the outcome depends on the token
/// and the secret alone.
#[verifier::external_body]
fn verify_hs256(token: &str, secret: &str) -> (r: Result<Value, jsonwebtoken::errors::Error>)
    ensures
        match r {
            Ok(c) => hs256_claims(token@, secret@) == Some(c),
            Err(_) => hs256_claims(token@, secret@) is None,
        },
{
    let key = jsonwebtoken::DecodingKey::from_secret(secret.as_bytes());
    let mut validation = jsonwebtoken::Validation::new(jsonwebtoken::Algorithm::HS256);
    validation.required_spec_claims.clear();
    validation.validate_exp = false;
    validation.validate_aud = false;
    jsonwebtoken::decode::<Value>(token, &key, &validation).map(|data| data.claims)
}

/// Why a token was refused. A token that cannot be parsed and one whose
/// signature does not match are both `Invalid`: callers are not told which.
#[derive(Clone, Copy, Debug, PartialEq, Eq, Structural)]
pub enum TokenError {
    Invalid,
    MissingExp,
    InvalidExp,
    Expired,
}

impl TokenError {
    pub open spec fn text(self) -> Seq<char> {
        match self {
            TokenError::Invalid => "Invalid token"@,
            TokenError::MissingExp => "Missing exp claim"@,
            TokenError::InvalidExp => "Invalid exp claim"@,
            TokenError::Expired => "Token has expired"@,
        }
    }

    /// The message that reports this error.
    pub fn message(&self) -> (r: String)
        ensures
            r@ == self.text(),
    {
        match self {
            TokenError::Invalid => "Invalid token".to_owned(),
            TokenError::MissingExp => "Missing exp claim".to_owned(),
            TokenError::InvalidExp => "Invalid exp claim".to_owned(),
            TokenError::Expired => "Token has expired".to_owned(),
        }
    }
}

/// The `exp` entry of a claims object, as far as expiry needs it.
#[derive(Clone, Copy, Debug, PartialEq, Eq, Structural)]
pub enum ExpClaim {
    Missing,
    NotU64,
    Seconds(u64),
}

/// What the `exp` member of the claims holds.
pub open spec fn exp_claim(claims: Value) -> ExpClaim {
    match json_member(claims, "exp"@) {
        None => ExpClaim::Missing,
        Some(e) => match json_as_u64(e) {
            Some(n) => ExpClaim::Seconds(n),
            None => ExpClaim::NotU64,
        },
    }
}

/// The expiry rule: the `exp` second itself is already expired.
pub open spec fn expiry_verdict(exp: ExpClaim, now: u64) -> Result<(), TokenError> {
    match exp {
        ExpClaim::Missing => Err(TokenError::MissingExp),
        ExpClaim::NotU64 => Err(TokenError::InvalidExp),
        ExpClaim::Seconds(e) => if now >= e {
            Err(TokenError::Expired)
        } else {
            Ok(())
        },
    }
}

/// Decoding a token: its claims, or `Invalid` for any structural or
/// signature failure.
pub open spec fn decoded(token: Seq<char>, secret: Seq<char>) -> Result<Value, TokenError> {
    match hs256_claims(token, secret) {
        Some(c) => Ok(c),
        None => Err(TokenError::Invalid),
    }
}

/// Full validation of a token at time `now`: signature first, then expiry.
pub open spec fn token_verdict(token: Seq<char>, secret: Seq<char>, now: u64) -> Result<(), TokenError> {
    match hs256_claims(token, secret) {
        Some(c) => expiry_verdict(exp_claim(c), now),
        None => Err(TokenError::Invalid),
    }
}

/// `r` reports the outcome `v`, errors by their message.
pub open spec fn reports<T>(r: Result<T, String>, v: Result<T, TokenError>) -> bool {
    match v {
        Ok(x) => r == Ok::<T, String>(x),
        Err(e) => r is Err && r->Err_0@ == e.text(),
    }
}

/// Reads the `exp` member of decoded claims.
pub fn read_exp(claims: &Value) -> (r: ExpClaim)
    ensures
        r == exp_claim(*claims),
{
    match member(claims, "exp") {
        None => ExpClaim::Missing,
        Some(e) => match e.as_u64() {
            Some(n) => ExpClaim::Seconds(n),
            None => ExpClaim::NotU64,
        },
    }
}

/// Applies the expiry rule to an `exp` entry at time `now` (seconds since the
/// epoch). No leeway is granted.
pub fn check_expiry(exp: ExpClaim, now: u64) -> (r: Result<(), TokenError>)
    ensures
        r == expiry_verdict(exp, now),
{
    match exp {
        ExpClaim::Missing => Err(TokenError::MissingExp),
        ExpClaim::NotU64 => Err(TokenError::InvalidExp),
        ExpClaim::Seconds(e) => if now >= e {
            Err(TokenError::Expired)
        } else {
            Ok(())
        },
    }
}

/// Expiry is inclusive. Take a token that decodes under the secret with an
/// integer `exp`. It is valid one second before `exp`, and expired at `exp`
/// itself and one second after.
pub proof fn lemma_expiry_boundary(token: Seq<char>, secret: Seq<char>, exp: u64)
    requires
        hs256_claims(token, secret) matches Some(c) && exp_claim(c) == ExpClaim::Seconds(exp),
    ensures
        exp > 0 ==> token_verdict(token, secret, (exp - 1) as u64) == Ok::<(), TokenError>(()),
        token_verdict(token, secret, exp) == Err::<(), TokenError>(TokenError::Expired),
        exp < u64::MAX ==> token_verdict(token, secret, (exp + 1) as u64) == Err::<(), TokenError>(
            TokenError::Expired,
        ),
{
}

/// A token that decodes but has no `exp`, or an `exp` that is not a
/// non-negative integer, is refused at any time. The two refusals are told
/// apart.
pub proof fn lemma_missing_or_invalid_exp(token: Seq<char>, secret: Seq<char>, now: u64)
    requires
        hs256_claims(token, secret) is Some,
    ensures
        exp_claim(hs256_claims(token, secret)->Some_0) == ExpClaim::Missing ==> token_verdict(
            token,
            secret,
            now,
        ) == Err::<(), TokenError>(TokenError::MissingExp),
        exp_claim(hs256_claims(token, secret)->Some_0) == ExpClaim::NotU64 ==> token_verdict(
            token,
            secret,
            now,
        ) == Err::<(), TokenError>(TokenError::InvalidExp),
        TokenError::MissingExp != TokenError::InvalidExp,
{
}

/// Validation passes exactly when every check passes: the token decodes under
/// the secret, its `exp` is an integer, and `now` is before it. A malformed
/// token, a tampered one, or one signed with another secret does not decode.
pub proof fn lemma_valid_iff_all_checks_pass(token: Seq<char>, secret: Seq<char>, now: u64)
    ensures
        token_verdict(token, secret, now) is Ok <==> (hs256_claims(token, secret) matches Some(c)
            && exp_claim(c) matches ExpClaim::Seconds(e) && now < e),
        hs256_claims(token, secret) is None ==> token_verdict(token, secret, now) == Err::<
            (),
            TokenError,
        >(TokenError::Invalid),
{
}

/// A codec keyed by one secret, used both to sign and to verify.
#[derive(Clone)]
pub struct JWT {
    secret: String,
}

impl JWT {
    /// The secret this codec signs and verifies with.
    pub closed spec fn key(&self) -> Seq<char> {
        self.secret@
    }

    /// A codec for `secret`; any secret, the empty one included, is taken.
    pub fn new(secret: String) -> (r: JWT)
        ensures
            r.key() == secret@,
    {
        JWT { secret }
    }

    /// Signs the claims into a token `header.claims.signature` under the
    /// default HS256 header.
    pub fn generate(&self, claims: &Value) -> (r: String)
        ensures
            r@ == hs256_token(*claims, self.key()),
    {
        sign_hs256(claims, self.secret.as_str()).unwrap()
    }

    fn decode(&self, token: &str) -> (r: Result<Value, TokenError>)
        ensures
            r == decoded(token@, self.key()),
    {
        match verify_hs256(token, self.secret.as_str()) {
            Ok(c) => Ok(c),
            Err(_) => Err(TokenError::Invalid),
        }
    }

    /// The claims of a token whose signature matches this codec's secret;
    /// any failure is reported as "Invalid token".
    pub fn get_claims(&self, value: &str) -> (r: Result<Value, String>)
        ensures
            reports(r, decoded(value@, self.key())),
    {
        match self.decode(value) {
            Ok(c) => Ok(c),
            Err(e) => Err(e.message()),
        }
    }

    /// Validates a token at the given time (seconds since the epoch): the
    /// signature must match, and `exp` must be an integer later than `now`.
    pub fn validate_at(&self, token: &str, now: u64) -> (r: Result<(), TokenError>)
        ensures
            r == token_verdict(token@, self.key(), now),
    {
        let claims = match self.decode(token) {
            Ok(c) => c,
            Err(e) => return Err(e),
        };
        let exp = read_exp(&claims);
        check_expiry(exp, now)
    }

    /// Validates a token against the system clock. A clock that reads before
    /// the epoch proves no token fresh: the latest time is used instead.
    pub fn validate(&self, token: &str) -> (r: Result<(), String>)
        ensures
            exists|now: u64| reports(r, #[trigger] token_verdict(token@, self.key(), now)),
    {
        let now = match get_current_time() {
            Some(n) => n,
            None => u64::MAX,
        };
        let r = match self.validate_at(token, now) {
            Ok(()) => Ok(()),
            Err(e) => Err(e.message()),
        };
        assert(reports(r, token_verdict(token@, self.key(), now)));
        r
    }
}

} // verus!
