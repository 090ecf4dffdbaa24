//! Access tokens and authorization codes: how they are made, kept and
//! checked. The cache that keeps them is driven by the caller, which stores
//! what these functions issue under the key they name, reads back what is
//! stored, and deletes an entry when a check says so.

use crate::clock::unix_now;
use crate::server::cache::CacheError;
use crate::server::oauth::crypto::{
    base64url_encode, base64url_spec, lemma_base64url_len, random_token_bytes, sha256,
    sha256_digest,
};
use crate::server::oauth::models::{StoredAuthorizationCode, StoredToken};
use crate::text::{concat2, str_eq};
use vstd::prelude::*;
use vstd::string::*;

verus! {

/// A failure of a token or code operation.
#[derive(Debug)]
pub enum TokenError {
    Cache(CacheError),
    TokenNotFound,
    CodeNotFound,
    InvalidTokenFormat,
    InvalidCodeFormat,
    TokenGeneration(String),
    CodeGeneration(String),
    PkceValidation(String),
    RedirectUriMismatch,
}

/// Issues and checks tokens and codes; `cache` is where the caller keeps
/// them.
#[derive(Debug, Clone)]
pub struct TokenManager<C> {
    pub cache: C,
    /// Seconds an access token lives.
    pub token_ttl: u64,
    /// Seconds an authorization code lives (ten minutes).
    pub code_ttl: u64,
}

/// The outcome of a check of a stored entry, and whether the caller must
/// delete the entry from the cache.
#[derive(Debug)]
pub struct EntryCheck<T> {
    pub result: Result<T, TokenError>,
    pub delete: bool,
}

/// The cache key of an access token.
pub open spec fn token_key(token: Seq<char>) -> Seq<char> {
    "oauth_token:"@ + token
}

/// The cache key of an authorization code.
pub open spec fn code_key(code: Seq<char>) -> Seq<char> {
    "oauth_code:"@ + code
}

/// The cache key of an access token.
pub fn token_cache_key(token: &str) -> (k: String)
    ensures
        k@ == token_key(token@),
{
    concat2("oauth_token:", token)
}

/// The cache key of an authorization code.
pub fn code_cache_key(code: &str) -> (k: String)
    ensures
        k@ == code_key(code@),
{
    concat2("oauth_code:", code)
}

/// A secret made of 32 random bytes, in URL-safe base64 without padding:
/// 43 characters.
pub open spec fn is_secret(s: Seq<char>) -> bool {
    exists|b: Seq<u8>| b.len() == 32 && s == #[trigger] base64url_spec(b)
}

/// The expiry of an entry issued at `now` that lives `ttl` seconds; an
/// expiry past the range of `u64` is the end of that range.
pub open spec fn expiry(now: u64, ttl: u64) -> u64 {
    if now + ttl <= u64::MAX {
        (now + ttl) as u64
    } else {
        u64::MAX
    }
}

/// The outcome of a PKCE check: the challenge method (`S256` by default)
/// turns the verifier into the expected challenge, which must equal the
/// stored one; otherwise the error message.
pub open spec fn pkce_outcome(challenge: Seq<char>, method: Option<Seq<char>>, verifier: &str) -> Result<
    (),
    Seq<char>,
> {
    let m = match method {
        Some(s) => s,
        None => "S256"@,
    };
    let expected = if m == "S256"@ {
        Some(base64url_spec(sha256_digest(verifier.spec_bytes())))
    } else if m == "plain"@ {
        Some(verifier@)
    } else {
        None
    };
    match expected {
        None => Err("Unsupported code_challenge_method: "@ + m),
        Some(e) => if e == challenge {
            Ok(())
        } else {
            Err("code_verifier does not match code_challenge"@)
        },
    }
}

/// The outcome of checking a stored access token at `now`: a missing token
/// is not found; an expired one is not found and must be deleted; a clock
/// failure is an error of generation.
pub open spec fn token_check_spec(
    stored: Option<StoredToken>,
    now: Result<u64, String>,
    r: EntryCheck<StoredToken>,
) -> bool {
    match stored {
        None => r.result matches Err(TokenError::TokenNotFound) && !r.delete,
        Some(s) => match now {
            Err(e) => r.result matches Err(TokenError::TokenGeneration(m)) && m@
                == "System time error: "@ + e@ && !r.delete,
            Ok(n) => if n >= s.expires_at {
                r.result matches Err(TokenError::TokenNotFound) && r.delete
            } else {
                r.result == Ok::<StoredToken, TokenError>(s) && !r.delete
            },
        },
    }
}

/// The outcome of checking a stored authorization code at `now` for a
/// token request of `client_id` with `redirect_uri` and the verifier:
/// a missing or expired code is not found, a code of another client has
/// the wrong format, a code for another redirect URI mismatches, and a PKCE
/// code needs a verifier that passes; a code that passes is consumed.
/// Every failure after the expiry check deletes the code, but those of PKCE.
pub open spec fn code_check_spec(
    stored: Option<StoredAuthorizationCode>,
    now: Result<u64, String>,
    client_id: Seq<char>,
    redirect_uri: Seq<char>,
    verifier: Option<&str>,
    r: EntryCheck<StoredAuthorizationCode>,
) -> bool {
    match stored {
        None => r.result matches Err(TokenError::CodeNotFound) && !r.delete,
        Some(c) => match now {
            Err(e) => r.result matches Err(TokenError::CodeGeneration(m)) && m@
                == "System time error: "@ + e@ && !r.delete,
            Ok(n) => if n >= c.expires_at {
                r.result matches Err(TokenError::CodeNotFound) && r.delete
            } else if c.client_id@ != client_id {
                r.result matches Err(TokenError::InvalidCodeFormat) && r.delete
            } else if c.redirect_uri@ != redirect_uri {
                r.result matches Err(TokenError::RedirectUriMismatch) && r.delete
            } else {
                match c.code_challenge {
                    Some(ch) => match verifier {
                        None => r.result matches Err(TokenError::PkceValidation(m)) && m@
                            == "code_verifier required for PKCE"@ && !r.delete,
                        Some(v) => match pkce_outcome(
                            ch@,
                            match c.code_challenge_method {
                                Some(m) => Some(m@),
                                None => None,
                            },
                            v,
                        ) {
                            Err(msg) => r.result matches Err(TokenError::PkceValidation(m))
                                && m@ == msg && !r.delete,
                            Ok(_) => r.result == Ok::<StoredAuthorizationCode, TokenError>(c)
                                && r.delete,
                        },
                    },
                    None => r.result == Ok::<StoredAuthorizationCode, TokenError>(c) && r.delete,
                }
            },
        },
    }
}

/// An authorization code is used once: a check that accepts it deletes it.
pub proof fn lemma_code_single_use(
    stored: Option<StoredAuthorizationCode>,
    now: Result<u64, String>,
    client_id: Seq<char>,
    redirect_uri: Seq<char>,
    verifier: Option<&str>,
    r: EntryCheck<StoredAuthorizationCode>,
)
    requires
        code_check_spec(stored, now, client_id, redirect_uri, verifier, r),
        r.result is Ok,
    ensures
        r.delete,
        stored is Some,
{
}

/// A token is valid exactly before its expiry: checked earlier it is given
/// back as stored; checked at or after its expiry it is not found and is
/// deleted.
pub proof fn lemma_token_expiry(s: StoredToken, now: u64, r: EntryCheck<StoredToken>)
    requires
        token_check_spec(Some(s), Ok(now), r),
    ensures
        now < s.expires_at ==> r.result == Ok::<StoredToken, TokenError>(s) && !r.delete,
        now >= s.expires_at ==> (r.result matches Err(TokenError::TokenNotFound)) && r.delete,
{
}

/// A verifier passes the check of the challenge made from it: itself with
/// `plain`, its base64url-encoded SHA-256 digest with `S256` or no method.
pub proof fn lemma_pkce_accepts_own_challenge(verifier: &str)
    ensures
        pkce_outcome(verifier@, Some("plain"@), verifier) is Ok,
        pkce_outcome(
            base64url_spec(sha256_digest(verifier.spec_bytes())),
            Some("S256"@),
            verifier,
        ) is Ok,
        pkce_outcome(base64url_spec(sha256_digest(verifier.spec_bytes())), None, verifier) is Ok,
{
    reveal_strlit("plain");
    reveal_strlit("S256");
    assert("plain"@ != "S256"@) by {
        assert("plain"@.len() != "S256"@.len());
    }
}

/// The PKCE check accepts a verifier exactly when the challenge method
/// turns it into the stored challenge: with `plain` the verifier itself,
/// with `S256` or no method the base64url form of the SHA-256 digest of its
/// bytes; any other method refuses every verifier.
pub proof fn lemma_pkce_accepts_exactly(challenge: Seq<char>, method: Option<Seq<char>>, verifier: &str)
    ensures
        method == Some("plain"@) ==> (pkce_outcome(challenge, method, verifier) is Ok <==> verifier@
            == challenge),
        (method == Some("S256"@) || method is None) ==> (pkce_outcome(challenge, method, verifier) is Ok
            <==> base64url_spec(sha256_digest(verifier.spec_bytes())) == challenge),
        (method matches Some(m) && m != "plain"@ && m != "S256"@) ==> pkce_outcome(
            challenge,
            method,
            verifier,
        ) is Err,
{
    reveal_strlit("plain");
    reveal_strlit("S256");
    assert("plain"@ != "S256"@) by {
        assert("plain"@.len() != "S256"@.len());
    }
}

/// An entry lives its whole lifetime: it expires `ttl` seconds after its
/// issue, or at the end of the `u64` range when that comes first.
pub proof fn lemma_expiry(now: u64, ttl: u64)
    ensures
        expiry(now, ttl) >= now,
        now + ttl <= u64::MAX ==> expiry(now, ttl) == now + ttl,
{
}

/// The expiry of an entry issued at `now` with a lifetime of `ttl`.
pub fn expiry_at(now: u64, ttl: u64) -> (e: u64)
    ensures
        e == expiry(now, ttl),
{
    now.saturating_add(ttl)
}

/// Checks a stored access token at `now`.
pub fn check_token_entry(stored: Option<StoredToken>, now: Result<u64, String>) -> (r: EntryCheck<
    StoredToken,
>)
    ensures
        token_check_spec(stored, now, r),
{
    match stored {
        None => EntryCheck { result: Err(TokenError::TokenNotFound), delete: false },
        Some(s) => match now {
            Err(e) => EntryCheck {
                result: Err(TokenError::TokenGeneration(concat2("System time error: ", e.as_str()))),
                delete: false,
            },
            Ok(n) => if n >= s.expires_at {
                EntryCheck { result: Err(TokenError::TokenNotFound), delete: true }
            } else {
                EntryCheck { result: Ok(s), delete: false }
            },
        },
    }
}

/// Checks a PKCE verifier against a stored challenge.
pub fn check_pkce(code_challenge: &str, code_challenge_method: &Option<String>, code_verifier: &str) -> (r:
    Result<(), TokenError>)
    ensures
        match pkce_outcome(
            code_challenge@,
            match code_challenge_method {
                Some(m) => Some(m@),
                None => None,
            },
            code_verifier,
        ) {
            Ok(_) => r is Ok,
            Err(msg) => r matches Err(TokenError::PkceValidation(m)) && m@ == msg,
        },
        (code_challenge_method matches Some(m) && m@ == "plain"@) ==> (r is Ok <==> code_verifier@
            == code_challenge@),
        (code_challenge_method is None || (code_challenge_method matches Some(m) && m@ == "S256"@)) ==> (
        r is Ok <==> base64url_spec(sha256_digest(code_verifier.spec_bytes())) == code_challenge@),
{
    proof {
        lemma_pkce_accepts_exactly(
            code_challenge@,
            match code_challenge_method {
                Some(m) => Some(m@),
                None => None,
            },
            code_verifier,
        );
    }
    let method: &str = match code_challenge_method {
        Some(m) => m.as_str(),
        None => "S256",
    };
    let expected = if str_eq(method, "S256") {
        let digest = sha256(code_verifier.as_bytes());
        base64url_encode(digest.as_slice())
    } else if str_eq(method, "plain") {
        code_verifier.to_owned()
    } else {
        return Err(TokenError::PkceValidation(concat2("Unsupported code_challenge_method: ", method)));
    };
    if !str_eq(expected.as_str(), code_challenge) {
        return Err(TokenError::PkceValidation("code_verifier does not match code_challenge".to_owned()));
    }
    Ok(())
}

/// Checks a stored authorization code at `now`.
pub fn check_code_entry(
    stored: Option<StoredAuthorizationCode>,
    now: Result<u64, String>,
    client_id: &str,
    redirect_uri: &str,
    code_verifier: Option<&str>,
) -> (r: EntryCheck<StoredAuthorizationCode>)
    ensures
        code_check_spec(stored, now, client_id@, redirect_uri@, code_verifier, r),
{
    let c = match stored {
        None => {
            return EntryCheck { result: Err(TokenError::CodeNotFound), delete: false };
        },
        Some(c) => c,
    };
    let n = match now {
        Err(e) => {
            return EntryCheck {
                result: Err(TokenError::CodeGeneration(concat2("System time error: ", e.as_str()))),
                delete: false,
            };
        },
        Ok(n) => n,
    };
    if n >= c.expires_at {
        return EntryCheck { result: Err(TokenError::CodeNotFound), delete: true };
    }
    if !str_eq(c.client_id.as_str(), client_id) {
        return EntryCheck { result: Err(TokenError::InvalidCodeFormat), delete: true };
    }
    if !str_eq(c.redirect_uri.as_str(), redirect_uri) {
        return EntryCheck { result: Err(TokenError::RedirectUriMismatch), delete: true };
    }
    if let Some(challenge) = &c.code_challenge {
        let verifier = match code_verifier {
            None => {
                return EntryCheck {
                    result: Err(
                        TokenError::PkceValidation("code_verifier required for PKCE".to_owned()),
                    ),
                    delete: false,
                };
            },
            Some(v) => v,
        };
        match check_pkce(challenge.as_str(), &c.code_challenge_method, verifier) {
            Err(e) => {
                return EntryCheck { result: Err(e), delete: false };
            },
            Ok(_) => {},
        }
    }
    EntryCheck { result: Ok(c), delete: true }
}

/// The message of a clock that reads before the Unix epoch.
pub open spec fn clock_error_message(e: Seq<char>) -> Seq<char> {
    "System time error: "@ + e
}

/// `s` is the record of a token for `user_id` via `client_id` with the
/// scopes, issued at `now` and living `ttl` seconds.
pub open spec fn token_record_is(
    s: StoredToken,
    user_id: Seq<char>,
    client_id: Seq<char>,
    scopes: Vec<String>,
    ttl: u64,
    now: u64,
) -> bool {
    &&& s.user_id@ == user_id
    &&& s.client_id@ == client_id
    &&& s.requested_scopes == scopes
    &&& s.issued_at == now
    &&& s.expires_at == expiry(now, ttl)
}

/// `s` is the record of an authorization code for `user_id` via
/// `client_id`, to be redeemed at `redirect_uri`, with the scopes and the
/// PKCE challenge, issued at `now` and living `ttl` seconds.
pub open spec fn code_record_is(
    s: StoredAuthorizationCode,
    user_id: Seq<char>,
    client_id: Seq<char>,
    redirect_uri: Seq<char>,
    scopes: Vec<String>,
    code_challenge: Option<String>,
    code_challenge_method: Option<String>,
    ttl: u64,
    now: u64,
) -> bool {
    &&& s.user_id@ == user_id
    &&& s.client_id@ == client_id
    &&& s.redirect_uri@ == redirect_uri
    &&& s.requested_scopes == scopes
    &&& s.code_challenge == code_challenge
    &&& s.code_challenge_method == code_challenge_method
    &&& s.issued_at == now
    &&& s.expires_at == expiry(now, ttl)
}

/// The record of a new token at the clock reading `now`; a clock that
/// reads before the Unix epoch is a token-generation error.
pub fn token_record(
    user_id: &str,
    client_id: &str,
    requested_scopes: Vec<String>,
    ttl: u64,
    now: Result<u64, String>,
) -> (r: Result<StoredToken, TokenError>)
    ensures
        match now {
            Ok(n) => r matches Ok(s) && token_record_is(s, user_id@, client_id@, requested_scopes, ttl, n),
            Err(e) => r matches Err(TokenError::TokenGeneration(m)) && m@ == clock_error_message(e@),
        },
{
    match now {
        Ok(n) => Ok(
            StoredToken {
                user_id: user_id.to_owned(),
                client_id: client_id.to_owned(),
                requested_scopes,
                expires_at: expiry_at(n, ttl),
                issued_at: n,
            },
        ),
        Err(e) => Err(TokenError::TokenGeneration(concat2("System time error: ", e.as_str()))),
    }
}

/// The record of a new authorization code at the clock reading `now`; a
/// clock that reads before the Unix epoch is a code-generation error.
pub fn code_record(
    user_id: &str,
    client_id: &str,
    redirect_uri: &str,
    requested_scopes: Vec<String>,
    code_challenge: Option<String>,
    code_challenge_method: Option<String>,
    ttl: u64,
    now: Result<u64, String>,
) -> (r: Result<StoredAuthorizationCode, TokenError>)
    ensures
        match now {
            Ok(n) => r matches Ok(s) && code_record_is(
                s,
                user_id@,
                client_id@,
                redirect_uri@,
                requested_scopes,
                code_challenge,
                code_challenge_method,
                ttl,
                n,
            ),
            Err(e) => r matches Err(TokenError::CodeGeneration(m)) && m@ == clock_error_message(e@),
        },
{
    match now {
        Ok(n) => Ok(
            StoredAuthorizationCode {
                user_id: user_id.to_owned(),
                client_id: client_id.to_owned(),
                redirect_uri: redirect_uri.to_owned(),
                requested_scopes,
                code_challenge,
                code_challenge_method,
                expires_at: expiry_at(n, ttl),
                issued_at: n,
            },
        ),
        Err(e) => Err(TokenError::CodeGeneration(concat2("System time error: ", e.as_str()))),
    }
}

/// `r` is what issuing a token gives at the clock reading `now`: a secret
/// with the record of the token, or the clock's error.
pub open spec fn token_issued_at(
    r: Result<(String, StoredToken), TokenError>,
    user_id: Seq<char>,
    client_id: Seq<char>,
    scopes: Vec<String>,
    ttl: u64,
    now: Result<u64, String>,
) -> bool {
    match now {
        Ok(n) => r matches Ok((t, s)) && is_secret(t@) && t@.len() == 43 && token_record_is(
            s,
            user_id,
            client_id,
            scopes,
            ttl,
            n,
        ),
        Err(e) => r matches Err(TokenError::TokenGeneration(m)) && m@ == clock_error_message(e@),
    }
}

/// `r` is what issuing an authorization code gives at the clock reading
/// `now`: a secret with the record of the code, or the clock's error.
pub open spec fn code_issued_at(
    r: Result<(String, StoredAuthorizationCode), TokenError>,
    user_id: Seq<char>,
    client_id: Seq<char>,
    redirect_uri: Seq<char>,
    scopes: Vec<String>,
    code_challenge: Option<String>,
    code_challenge_method: Option<String>,
    ttl: u64,
    now: Result<u64, String>,
) -> bool {
    match now {
        Ok(n) => r matches Ok((c, s)) && is_secret(c@) && c@.len() == 43 && code_record_is(
            s,
            user_id,
            client_id,
            redirect_uri,
            scopes,
            code_challenge,
            code_challenge_method,
            ttl,
            n,
        ),
        Err(e) => r matches Err(TokenError::CodeGeneration(m)) && m@ == clock_error_message(e@),
    }
}

/// A fresh secret of 32 random bytes in URL-safe base64.
fn secure_secret() -> (s: String)
    ensures
        is_secret(s@),
        s@.len() == 43,
{
    let bytes = random_token_bytes();
    let slice = bytes.as_slice();
    let s = base64url_encode(slice);
    proof {
        lemma_base64url_len(slice@);
    }
    s
}

impl<C> TokenManager<C> {
    /// A manager over `cache` whose tokens live `token_ttl` seconds and
    /// whose codes live ten minutes.
    pub fn new(cache: C, token_ttl: u64) -> (m: TokenManager<C>)
        ensures
            m.cache == cache,
            m.token_ttl == token_ttl,
            m.code_ttl == 600,
    {
        TokenManager { cache, token_ttl, code_ttl: 600 }
    }

    /// A new access token: 32 random bytes in URL-safe base64 (43
    /// characters). An empty token is refused, which cannot happen.
    pub fn generate_secure_token(&self) -> (r: Result<String, TokenError>)
        ensures
            r matches Ok(t) && is_secret(t@) && t@.len() == 43,
    {
        let token = secure_secret();
        if token.as_str().unicode_len() == 0 {
            return Err(TokenError::TokenGeneration("Generated empty token".to_owned()));
        }
        Ok(token)
    }

    /// A new authorization code, made as a token is.
    pub fn generate_secure_code(&self) -> (r: Result<String, TokenError>)
        ensures
            r matches Ok(t) && is_secret(t@) && t@.len() == 43,
    {
        let code = secure_secret();
        if code.as_str().unicode_len() == 0 {
            return Err(TokenError::CodeGeneration("Generated empty code".to_owned()));
        }
        Ok(code)
    }

    /// A new access token for `user_id` via `client_id` with the scopes,
    /// and the record the caller stores under its key: issued now, expiring
    /// after the token lifetime. A failing clock is an error.
    pub fn generate_token(&self, user_id: &str, client_id: &str, requested_scopes: Vec<String>) -> (r:
        Result<(String, StoredToken), TokenError>)
        ensures
            exists|now: Result<u64, String>|
                #[trigger] token_issued_at(r, user_id@, client_id@, requested_scopes, self.token_ttl, now),
    {
        let token = match self.generate_secure_token() {
            Ok(t) => t,
            Err(e) => {
                return Err(e);
            },
        };
        let now = unix_now();
        let ghost t = now;
        let r = match token_record(user_id, client_id, requested_scopes, self.token_ttl, now) {
            Ok(stored) => Ok((token, stored)),
            Err(e) => Err(e),
        };
        assert(token_issued_at(r, user_id@, client_id@, requested_scopes, self.token_ttl, t));
        r
    }

    /// Checks the token record that the cache gave back for a token, at
    /// the current time.
    pub fn validate_token(&self, stored: Option<StoredToken>) -> (r: EntryCheck<StoredToken>)
        ensures
            stored is None ==> (r.result matches Err(TokenError::TokenNotFound) && !r.delete),
            exists|now: Result<u64, String>| token_check_spec(stored, now, r),
    {
        if stored.is_none() {
            return check_token_entry(stored, Ok(0));
        }
        let now = unix_now();
        check_token_entry(stored, now)
    }

    /// A new authorization code for `user_id` via `client_id`, and the
    /// record the caller stores under its key: issued now, expiring after
    /// the code lifetime. A failing clock is an error.
    pub fn generate_authorization_code(
        &self,
        user_id: &str,
        client_id: &str,
        redirect_uri: &str,
        requested_scopes: Vec<String>,
        code_challenge: Option<String>,
        code_challenge_method: Option<String>,
    ) -> (r: Result<(String, StoredAuthorizationCode), TokenError>)
        ensures
            exists|now: Result<u64, String>|
                #[trigger] code_issued_at(
                    r,
                    user_id@,
                    client_id@,
                    redirect_uri@,
                    requested_scopes,
                    code_challenge,
                    code_challenge_method,
                    self.code_ttl,
                    now,
                ),
    {
        let code = match self.generate_secure_code() {
            Ok(c) => c,
            Err(e) => {
                return Err(e);
            },
        };
        let now = unix_now();
        let ghost t = now;
        let r = match code_record(
            user_id,
            client_id,
            redirect_uri,
            requested_scopes,
            code_challenge,
            code_challenge_method,
            self.code_ttl,
            now,
        ) {
            Ok(stored) => Ok((code, stored)),
            Err(e) => Err(e),
        };
        assert(code_issued_at(
            r,
            user_id@,
            client_id@,
            redirect_uri@,
            requested_scopes,
            code_challenge,
            code_challenge_method,
            self.code_ttl,
            t,
        ));
        r
    }

    /// Checks the code record that the cache gave back for a token request,
    /// at the current time.
    pub fn validate_authorization_code(
        &self,
        stored: Option<StoredAuthorizationCode>,
        client_id: &str,
        redirect_uri: &str,
        code_verifier: Option<&str>,
    ) -> (r: EntryCheck<StoredAuthorizationCode>)
        ensures
            stored is None ==> (r.result matches Err(TokenError::CodeNotFound) && !r.delete),
            exists|now: Result<u64, String>|
                code_check_spec(stored, now, client_id@, redirect_uri@, code_verifier, r),
    {
        if stored.is_none() {
            return check_code_entry(stored, Ok(0), client_id, redirect_uri, code_verifier);
        }
        let now = unix_now();
        check_code_entry(stored, now, client_id, redirect_uri, code_verifier)
    }

    /// Checks a PKCE verifier against a stored challenge.
    pub fn validate_pkce(
        &self,
        code_challenge: &str,
        code_challenge_method: &Option<String>,
        code_verifier: &str,
    ) -> (r: Result<(), TokenError>)
        ensures
            match pkce_outcome(
                code_challenge@,
                match code_challenge_method {
                    Some(m) => Some(m@),
                    None => None,
                },
                code_verifier,
            ) {
                Ok(_) => r is Ok,
                Err(msg) => r matches Err(TokenError::PkceValidation(m)) && m@ == msg,
            },
    {
        check_pkce(code_challenge, code_challenge_method, code_verifier)
    }

    /// The cache key whose removal revokes `token`; the caller deletes it
    /// from the cache, and a failed deletion is a cache error.
    pub fn revoke_token(&self, token: &str) -> (key: String)
        ensures
            key@ == token_key(token@),
    {
        token_cache_key(token)
    }

    /// Expired entries leave the cache by its own lifetime; nothing is
    /// removed here.
    pub fn cleanup_expired_tokens(&self) -> (r: Result<usize, TokenError>)
        ensures
            r matches Ok(n) && n == 0,
    {
        Ok(0)
    }
}

} // verus!
