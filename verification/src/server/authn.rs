//! API-key authentication of protected requests.

use crate::text::str_eq;
use vstd::prelude::*;
use vstd::string::*;

verus! {

/// The decision on a request's credentials.
#[derive(Debug, Clone)]
pub enum AuthnDecision {
    /// The request may proceed.
    Allow,
    /// The request is answered with the status and the plain-text message.
    Reject(u16, String),
}

/// The lower-case form of an ASCII character.
pub open spec fn ascii_lower(c: char) -> char {
    if 'A' <= c <= 'Z' {
        ((c as int) + 32) as char
    } else {
        c
    }
}

/// The text starts with `Bearer ` in any case.
pub open spec fn has_bearer_prefix(h: Seq<char>) -> bool {
    h.len() >= 7 && forall|i: int| 0 <= i < 7 ==> ascii_lower(#[trigger] h[i]) == "bearer "@[i]
}

/// The refusal of a request whose credentials are wrong.
pub open spec fn forbidden_message() -> Seq<char> {
    "You are not authorized to access this resource, please check your API key."@
}

/// Every character is ASCII.
pub open spec fn ascii_text(h: Seq<char>) -> bool {
    forall|i: int| 0 <= i < h.len() ==> (#[trigger] h[i] as int) < 128
}

/// The decision on a request with the given `Authorization` header: no
/// header is a 401; a header that is not text, lacks the `Bearer ` prefix
/// (in any case), or carries another key than the server's is a 403.
/// `header` is `None` without a header, `Some(None)` for a header that is
/// not visible ASCII text.
pub fn authenticate(header: Option<Option<&str>>, api_key: &str) -> (d: AuthnDecision)
    requires
        header matches Some(Some(h)) ==> ascii_text(h@),
    ensures
        match header {
            None => d matches AuthnDecision::Reject(401, m) && m@
                == "Missing Authorization header"@,
            Some(None) => d matches AuthnDecision::Reject(403, m) && m@ == forbidden_message(),
            Some(Some(h)) => if has_bearer_prefix(h@) && h@.subrange(7, h@.len() as int)
                == api_key@ {
                d is Allow
            } else {
                d matches AuthnDecision::Reject(403, m) && m@ == forbidden_message()
            },
        },
{
    proof {
        reveal_strlit("bearer ");
    }
    let h = match header {
        None => {
            return AuthnDecision::Reject(401, "Missing Authorization header".to_owned());
        },
        Some(None) => {
            return AuthnDecision::Reject(
                403,
                "You are not authorized to access this resource, please check your API key.".to_owned(),
            );
        },
        Some(Some(h)) => h,
    };
    let n = h.unicode_len();
    let prefix = "bearer ";
    let mut ok = n >= 7;
    let mut i: usize = 0;
    while ok && i < 7
        invariant
            n == h@.len(),
            prefix@ == "bearer "@,
            prefix@.len() == 7,
            i <= 7,
            ok ==> n >= 7,
            ok ==> forall|k: int| 0 <= k < i ==> ascii_lower(#[trigger] h@[k]) == "bearer "@[k],
            !ok ==> !has_bearer_prefix(h@),
        decreases 7 - i,
    {
        let c = h.get_char(i);
        let lower = if 'A' <= c && c <= 'Z' {
            ((c as u32) + 32) as u8 as char
        } else {
            c
        };
        if lower != prefix.get_char(i) {
            ok = false;
            assert(ascii_lower(h@[i as int]) != "bearer "@[i as int]);
        }
        i = i + 1;
    }
    if !ok {
        return AuthnDecision::Reject(
            403,
            "You are not authorized to access this resource, please check your API key.".to_owned(),
        );
    }
    let key = h.substring_char(7, n);
    if !str_eq(key, api_key) {
        return AuthnDecision::Reject(
            403,
            "You are not authorized to access this resource, please check your API key.".to_owned(),
        );
    }
    AuthnDecision::Allow
}

} // verus!
