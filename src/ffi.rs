//! What the C-callable entry points decide, on plain strings: the handles are
//! turned into `&str` before these are called, and the results are turned
//! back into owned buffers after.
use crate::json::{parse_json, parsed_json};
use crate::jwt::{hs256_claims, hs256_token, token_verdict, TokenError, JWT};
use serde_json::Value;
use vstd::prelude::*;

verus! {

/// The outcome of reading a token's claims: `data` is `None` (JSON `null`)
/// on failure, and `error` is empty on success.
#[derive(Debug)]
pub struct FfiResult {
    pub success: bool,
    pub data: Option<Value>,
    pub error: String,
}

pub open spec fn bad_claims_text() -> Seq<char> {
    "Invalid claims JSON"@
}

/// Signs the JSON claims text with `secret`. Text that is not JSON is
/// reported, never a crash; any JSON is signed.
pub fn generate(secret: &str, claims: &str) -> (r: Result<String, String>)
    ensures
        match parsed_json(claims@) {
            None => r is Err && r->Err_0@ == bad_claims_text(),
            Some(c) => r is Ok && r->Ok_0@ == hs256_token(c, secret@),
        },
{
    let value = match parse_json(claims) {
        Some(v) => v,
        None => return Err("Invalid claims JSON".to_owned()),
    };
    let jwt = JWT::new(secret.to_owned());
    Ok(jwt.generate(&value))
}

/// Reads a token's claims under `secret`, packaging success or the generic
/// decoding error.
pub fn get_claims(secret: &str, value: &str) -> (r: FfiResult)
    ensures
        match hs256_claims(value@, secret@) {
            Some(c) => r.success && r.data == Some(c) && r.error@.len() == 0,
            None => !r.success && r.data is None && r.error@ == TokenError::Invalid.text(),
        },
{
    let jwt = JWT::new(secret.to_owned());
    match jwt.get_claims(value) {
        Ok(claims) => FfiResult { success: true, data: Some(claims), error: String::new() },
        Err(error) => FfiResult { success: false, data: None, error },
    }
}

/// Whether the token's signature matches `secret` and it has not expired by
/// the system clock; every failure is just `false`.
pub fn validate(secret: &str, token: &str) -> (r: bool)
    ensures
        exists|now: u64| r == (#[trigger] token_verdict(token@, secret@, now) is Ok),
{
    let jwt = JWT::new(secret.to_owned());
    let res = jwt.validate(token);
    let r = res.is_ok();
    proof {
        let now = choose|now: u64| crate::jwt::reports(res, #[trigger] token_verdict(token@, secret@, now));
        assert(r == (token_verdict(token@, secret@, now) is Ok));
    }
    r
}

} // verus!
