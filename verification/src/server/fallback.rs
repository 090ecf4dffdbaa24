//! Requests that no route matches go on to the Horizon service.

use crate::server::config::horizon::{horizon_url, HorizonConfig};
use crate::text::{concat2, str_eq};
use vstd::prelude::*;

verus! {

/// The methods that are forwarded.
#[derive(Debug, Clone, Copy, PartialEq, Eq, Structural)]
pub enum ForwardMethod {
    Get,
    Post,
    Put,
    Delete,
    Patch,
    Head,
    Options,
}

/// The forwarded method of an HTTP method name, if it is forwarded.
pub open spec fn forward_method(m: Seq<char>) -> Option<ForwardMethod> {
    if m == "GET"@ {
        Some(ForwardMethod::Get)
    } else if m == "POST"@ {
        Some(ForwardMethod::Post)
    } else if m == "PUT"@ {
        Some(ForwardMethod::Put)
    } else if m == "DELETE"@ {
        Some(ForwardMethod::Delete)
    } else if m == "PATCH"@ {
        Some(ForwardMethod::Patch)
    } else if m == "HEAD"@ {
        Some(ForwardMethod::Head)
    } else if m == "OPTIONS"@ {
        Some(ForwardMethod::Options)
    } else {
        None
    }
}

/// The HTTP name of a forwarded method.
pub open spec fn method_name(m: ForwardMethod) -> Seq<char> {
    match m {
        ForwardMethod::Get => "GET"@,
        ForwardMethod::Post => "POST"@,
        ForwardMethod::Put => "PUT"@,
        ForwardMethod::Delete => "DELETE"@,
        ForwardMethod::Patch => "PATCH"@,
        ForwardMethod::Head => "HEAD"@,
        ForwardMethod::Options => "OPTIONS"@,
    }
}

/// A request is forwarded with its own method: the method it is forwarded
/// with is named as the request's method, and every one of the seven
/// methods is forwarded, as itself.
pub proof fn lemma_forward_keeps_method(name: Seq<char>, f: ForwardMethod)
    ensures
        forward_method(name) == Some(f) ==> method_name(f) == name,
        forward_method(method_name(f)) == Some(f),
{
    reveal_strlit("GET");
    reveal_strlit("POST");
    reveal_strlit("PUT");
    reveal_strlit("DELETE");
    reveal_strlit("PATCH");
    reveal_strlit("HEAD");
    reveal_strlit("OPTIONS");
    let names = seq!["GET"@, "POST"@, "PUT"@, "DELETE"@, "PATCH"@, "HEAD"@, "OPTIONS"@];
    assert forall|i: int, j: int| 0 <= i < j < 7 implies names[i] != names[j] by {
        if names[i].len() == names[j].len() {
            assert(names[i][0] != names[j][0]);
        }
    }
    assert(names[0] != names[1] && names[0] != names[2] && names[1] != names[2]);
    assert(names[3] != names[0] && names[3] != names[1] && names[3] != names[2]);
    assert(names[4] != names[0] && names[4] != names[1] && names[4] != names[2] && names[4]
        != names[3]);
    assert(names[5] != names[0] && names[5] != names[1] && names[5] != names[2] && names[5]
        != names[3] && names[5] != names[4]);
}

/// Where and how a request is forwarded: its method, and the Horizon URL of
/// its path and query; a method that is not forwarded is answered 405.
pub fn fallback_to_horizon(config: &HorizonConfig, method: &str, path_and_query: Option<&str>) -> (r:
    Result<(ForwardMethod, String), (u16, String)>)
    ensures
        match forward_method(method@) {
            Some(m) => r matches Ok((fm, url)) && fm == m && url@ == horizon_url(
                config.host@,
                config.port,
                match path_and_query {
                    Some(p) => p@,
                    None => Seq::empty(),
                },
            ),
            None => r matches Err((405, msg)) && msg@ == "Unsupported HTTP method: "@ + method@,
        },
        r matches Ok((fm, _)) ==> method_name(fm) == method@,
{
    let m = if str_eq(method, "GET") {
        ForwardMethod::Get
    } else if str_eq(method, "POST") {
        ForwardMethod::Post
    } else if str_eq(method, "PUT") {
        ForwardMethod::Put
    } else if str_eq(method, "DELETE") {
        ForwardMethod::Delete
    } else if str_eq(method, "PATCH") {
        ForwardMethod::Patch
    } else if str_eq(method, "HEAD") {
        ForwardMethod::Head
    } else if str_eq(method, "OPTIONS") {
        ForwardMethod::Options
    } else {
        return Err((405, concat2("Unsupported HTTP method: ", method)));
    };
    proof {
        reveal_strlit("");
        lemma_forward_keeps_method(method@, m);
    }
    let path = match path_and_query {
        Some(p) => p,
        None => "",
    };
    Ok((m, config.get_url(path)))
}

/// The answer when forwarding failed: the status of an error response
/// when there is one, else 502 with the error.
pub fn fallback_failure(status: Option<u16>, error_text: &str) -> (r: (u16, String))
    ensures
        match status {
            Some(s) => r.0 == s && r.1@ == "Error response from fallback server"@,
            None => r.0 == 502 && r.1@ == "Failed to send request: "@ + error_text@,
        },
{
    match status {
        Some(s) => (s, "Error response from fallback server".to_owned()),
        None => (502, concat2("Failed to send request: ", error_text)),
    }
}

} // verus!
