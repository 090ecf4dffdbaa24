//! OAuth 2.0 settings.

use crate::text::{split_char, split_spec, string_views, trim, trim_spec};
use vstd::prelude::*;

verus! {

/// Configuration of the OAuth 2.0 endpoints.
#[derive(Debug, Clone)]
pub struct OAuthConfig {
    /// Whether the endpoints are enabled (default true).
    pub enabled: bool,
    /// Seconds an access token lives (default 3600).
    pub token_ttl: u64,
    /// Base URL of the Permit.io API (default `https://api.permit.io`).
    pub permit_api_url: String,
    /// Comma-separated resource types that scopes are made for (default
    /// `documents,cars`).
    pub resource_types: String,
    /// Issuer of the tokens (default `permit-pdp`).
    pub issuer: String,
}

impl Default for OAuthConfig {
    /// The documented defaults.
    fn default() -> (c: OAuthConfig)
        ensures
            c.enabled,
            c.token_ttl == 3600,
            c.permit_api_url@ == "https://api.permit.io"@,
            c.resource_types@ == "documents,cars"@,
            c.issuer@ == "permit-pdp"@,
    {
        OAuthConfig {
            enabled: true,
            token_ttl: 3600,
            permit_api_url: "https://api.permit.io".to_owned(),
            resource_types: "documents,cars".to_owned(),
            issuer: "permit-pdp".to_owned(),
        }
    }
}

/// The non-empty texts among the trimmed pieces, in order.
pub open spec fn nonempty_trimmed(parts: Seq<Seq<char>>) -> Seq<Seq<char>>
    decreases parts.len(),
{
    if parts.len() == 0 {
        Seq::empty()
    } else {
        let prev = nonempty_trimmed(parts.drop_last());
        let t = trim_spec(parts.last());
        if t.len() > 0 {
            prev.push(t)
        } else {
            prev
        }
    }
}

/// The resource types of a comma-separated list: each item trimmed, empty
/// items left out.
pub open spec fn resource_type_list(s: Seq<char>) -> Seq<Seq<char>> {
    nonempty_trimmed(split_spec(s, ','))
}

impl OAuthConfig {
    /// The configured resource types.
    pub fn get_resource_types(&self) -> (r: Vec<String>)
        ensures
            string_views(r@) == resource_type_list(self.resource_types@),
    {
        let parts = split_char(self.resource_types.as_str(), ',');
        let mut r: Vec<String> = Vec::new();
        let mut i: usize = 0;
        while i < parts.len()
            invariant
                i <= parts@.len(),
                string_views(r@) == nonempty_trimmed(string_views(parts@).subrange(0, i as int)),
            decreases parts@.len() - i,
        {
            let ghost ps = string_views(parts@).subrange(0, i + 1);
            assert(ps.drop_last() =~= string_views(parts@).subrange(0, i as int));
            assert(ps.last() == parts@[i as int]@);
            let t = trim(parts[i].as_str());
            if t.as_str().unicode_len() > 0 {
                let ghost before = string_views(r@);
                r.push(t);
                assert(string_views(r@) =~= before.push(trim_spec(parts@[i as int]@)));
            }
            i = i + 1;
        }
        assert(string_views(parts@).subrange(0, parts@.len() as int) == string_views(parts@));
        r
    }
}

} // verus!
