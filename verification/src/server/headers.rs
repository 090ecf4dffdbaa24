//! Cache headers: the `Cache-Control` directives a response carries, and
//! the directives a client sends to bypass the decision cache.

use crate::text::{
    join, join_spec, parse_u32, parse_u32_spec, split_char, split_spec, starts_with, string_views,
    trim, trim_spec, u64_to_decimal, decimal, concat2,
};
use crate::clock::unix_now;
use vstd::prelude::*;

verus! {

/// `Cache-Control` directives of a response.
#[derive(Debug, Clone)]
pub struct CacheControl {
    pub no_cache: bool,
    pub no_store: bool,
    pub must_revalidate: bool,
    pub public: bool,
    pub private: bool,
    pub max_age: Option<u32>,
    pub s_maxage: Option<u32>,
}

/// The directives of a `Cache-Control` value, in their fixed order.
pub open spec fn cache_control_parts(c: CacheControl) -> Seq<Seq<char>> {
    (if c.no_cache { seq!["no-cache"@] } else { Seq::empty() })
    + (if c.no_store { seq!["no-store"@] } else { Seq::empty() })
    + (if c.must_revalidate { seq!["must-revalidate"@] } else { Seq::empty() })
    + (if c.public { seq!["public"@] } else { Seq::empty() })
    + (if c.private { seq!["private"@] } else { Seq::empty() })
    + (match c.max_age { Some(a) => seq!["max-age="@ + decimal(a as nat)], None => Seq::empty() })
    + (match c.s_maxage { Some(a) => seq!["s-maxage="@ + decimal(a as nat)], None => Seq::empty() })
}

/// The `Cache-Control` value: the directives joined by `, `.
pub open spec fn cache_control_text(c: CacheControl) -> Seq<char> {
    join_spec(cache_control_parts(c), ", "@)
}

impl CacheControl {
    /// No directive set.
    pub fn new() -> (c: CacheControl)
        ensures
            !c.no_cache && !c.no_store && !c.must_revalidate && !c.public && !c.private,
            c.max_age is None && c.s_maxage is None,
    {
        CacheControl {
            no_cache: false,
            no_store: false,
            must_revalidate: false,
            public: false,
            private: false,
            max_age: None,
            s_maxage: None,
        }
    }

    /// Sets `no-cache`.
    pub fn no_cache(self) -> (c: CacheControl)
        ensures
            c == (CacheControl { no_cache: true, ..self }),
    {
        CacheControl { no_cache: true, ..self }
    }

    /// Sets `no-store`.
    pub fn no_store(self) -> (c: CacheControl)
        ensures
            c == (CacheControl { no_store: true, ..self }),
    {
        CacheControl { no_store: true, ..self }
    }

    /// Sets `must-revalidate`.
    pub fn must_revalidate(self) -> (c: CacheControl)
        ensures
            c == (CacheControl { must_revalidate: true, ..self }),
    {
        CacheControl { must_revalidate: true, ..self }
    }

    /// Sets `public`, which clears `private`.
    pub fn public(self) -> (c: CacheControl)
        ensures
            c == (CacheControl { public: true, private: false, ..self }),
    {
        CacheControl { public: true, private: false, ..self }
    }

    /// Sets `private`, which clears `public`.
    pub fn private(self) -> (c: CacheControl)
        ensures
            c == (CacheControl { private: true, public: false, ..self }),
    {
        CacheControl { private: true, public: false, ..self }
    }

    /// Sets `max-age`.
    pub fn max_age(self, seconds: u32) -> (c: CacheControl)
        ensures
            c == (CacheControl { max_age: Some(seconds), ..self }),
    {
        CacheControl { max_age: Some(seconds), ..self }
    }

    /// Sets `s-maxage`.
    pub fn s_maxage(self, seconds: u32) -> (c: CacheControl)
        ensures
            c == (CacheControl { s_maxage: Some(seconds), ..self }),
    {
        CacheControl { s_maxage: Some(seconds), ..self }
    }

    /// The `Cache-Control` header value of the directives.
    pub fn to_header_value(&self) -> (s: String)
        ensures
            s@ == cache_control_text(*self),
    {
        let mut parts: Vec<String> = Vec::new();
        if self.no_cache {
            parts.push("no-cache".to_owned());
        }
        if self.no_store {
            parts.push("no-store".to_owned());
        }
        if self.must_revalidate {
            parts.push("must-revalidate".to_owned());
        }
        if self.public {
            parts.push("public".to_owned());
        }
        if self.private {
            parts.push("private".to_owned());
        }
        if let Some(a) = self.max_age {
            parts.push(concat2("max-age=", u64_to_decimal(a as u64).as_str()));
        }
        if let Some(a) = self.s_maxage {
            parts.push(concat2("s-maxage=", u64_to_decimal(a as u64).as_str()));
        }
        assert(string_views(parts@) =~= cache_control_parts(*self));
        join(&parts, ", ")
    }
}

/// The value of the `Expires` header.
#[derive(Debug, Clone, Copy, PartialEq, Eq, Structural)]
pub enum ExpiresHeader {
    /// `0`: already expired.
    Zero,
    /// The instant, in seconds since the Unix epoch, written as an RFC 2822 date.
    At(i64),
}

/// The cache headers of a response.
#[derive(Debug, Clone)]
pub struct CacheHeaders {
    pub cache_control: CacheControl,
    /// When the response expires, in seconds since the Unix epoch.
    pub expires: Option<i64>,
}

/// The headers that a response receives from its cache settings.
#[derive(Debug, Clone)]
pub struct CacheHeaderValues {
    /// The `Cache-Control` value.
    pub cache_control: String,
    /// Whether `Pragma: no-cache` is set.
    pub pragma_no_cache: bool,
    /// The `Expires` value, if one is set.
    pub expires: Option<ExpiresHeader>,
}

impl CacheHeaders {
    /// No directive and no expiry.
    pub fn new() -> (h: CacheHeaders)
        ensures
            h.expires is None,
            !h.cache_control.no_cache && !h.cache_control.no_store,
            !h.cache_control.must_revalidate && !h.cache_control.public && !h.cache_control.private,
            h.cache_control.max_age is None && h.cache_control.s_maxage is None,
    {
        CacheHeaders { cache_control: CacheControl::new(), expires: None }
    }

    /// Sets the directives.
    pub fn cache_control(self, cache_control: CacheControl) -> (h: CacheHeaders)
        ensures
            h.cache_control == cache_control,
            h.expires == self.expires,
    {
        CacheHeaders { cache_control, expires: self.expires }
    }

    /// Sets the expiry.
    pub fn expires(self, expires: i64) -> (h: CacheHeaders)
        ensures
            h.cache_control == self.cache_control,
            h.expires == Some(expires),
    {
        CacheHeaders { cache_control: self.cache_control, expires: Some(expires) }
    }

    /// The headers to set on a response: always `Cache-Control`; `Pragma:
    /// no-cache` with `no-cache`; `Expires` at the expiry if there is one,
    /// else `0` with `no-store` or `no-cache`.
    pub fn apply(&self) -> (v: CacheHeaderValues)
        ensures
            v.cache_control@ == cache_control_text(self.cache_control),
            v.pragma_no_cache == self.cache_control.no_cache,
            v.expires == match self.expires {
                Some(t) => Some(ExpiresHeader::At(t)),
                None => if self.cache_control.no_store || self.cache_control.no_cache {
                    Some(ExpiresHeader::Zero)
                } else {
                    None
                },
            },
    {
        let expires = match self.expires {
            Some(t) => Some(ExpiresHeader::At(t)),
            None => if self.cache_control.no_store || self.cache_control.no_cache {
                Some(ExpiresHeader::Zero)
            } else {
                None
            },
        };
        CacheHeaderValues {
            cache_control: self.cache_control.to_header_value(),
            pragma_no_cache: self.cache_control.no_cache,
            expires,
        }
    }
}

/// An integer as an `i64`, clamped to the range of `i64`.
pub open spec fn clamp_i64(x: int) -> i64 {
    if x < i64::MIN {
        i64::MIN
    } else if x > i64::MAX {
        i64::MAX
    } else {
        x as i64
    }
}

/// The instant of a clock reading in whole seconds since the Unix epoch,
/// as an `i64` (clamped).
pub open spec fn clock_timestamp(n: u64) -> i64 {
    clamp_i64(n as int)
}

/// `h` forbids caching and expired an hour before `now`.
pub open spec fn no_cache_headers(h: CacheHeaders, now: i64) -> bool {
    &&& h.cache_control.no_cache && h.cache_control.no_store && h.cache_control.must_revalidate
    &&& !h.cache_control.public && !h.cache_control.private
    &&& h.cache_control.max_age is None && h.cache_control.s_maxage is None
    &&& h.expires == Some(clamp_i64(now - 3600))
}

/// `h` lets shared caches keep a response for `age` seconds after `now`.
pub open spec fn public_cache_headers(h: CacheHeaders, now: i64, age: u32) -> bool {
    &&& h.cache_control.public && !h.cache_control.private
    &&& !h.cache_control.no_cache && !h.cache_control.no_store && !h.cache_control.must_revalidate
    &&& h.cache_control.max_age == Some(age) && h.cache_control.s_maxage is None
    &&& h.expires == Some(clamp_i64(now + age))
}

/// `h` lets only the client keep a response for `age` seconds after `now`.
pub open spec fn private_cache_headers(h: CacheHeaders, now: i64, age: u32) -> bool {
    &&& h.cache_control.private && !h.cache_control.public
    &&& !h.cache_control.no_cache && !h.cache_control.no_store && !h.cache_control.must_revalidate
    &&& h.cache_control.max_age == Some(age) && h.cache_control.s_maxage is None
    &&& h.expires == Some(clamp_i64(now + age))
}

fn later_by(now: i64, seconds: i64) -> (t: i64)
    requires
        seconds >= -3600,
    ensures
        t == clamp_i64(now + seconds),
{
    if seconds >= 0 {
        if now <= i64::MAX - seconds {
            now + seconds
        } else {
            i64::MAX
        }
    } else {
        if now >= i64::MIN - seconds {
            now + seconds
        } else {
            i64::MIN
        }
    }
}

fn clock_seconds(n: u64) -> (t: i64)
    ensures
        t == clock_timestamp(n),
{
    if n <= 9223372036854775807 {
        n as i64
    } else {
        i64::MAX
    }
}

/// Headers that forbid caching, expired an hour before `now`.
pub fn no_cache_at(now: i64) -> (h: CacheHeaders)
    ensures
        no_cache_headers(h, now),
{
    CacheHeaders::new().cache_control(CacheControl::new().no_cache().no_store().must_revalidate()).expires(
        later_by(now, -3600),
    )
}

/// Headers that let shared caches keep the response for `max_age_seconds`
/// after `now`.
pub fn public_cache_at(now: i64, max_age_seconds: u32) -> (h: CacheHeaders)
    ensures
        public_cache_headers(h, now, max_age_seconds),
{
    CacheHeaders::new().cache_control(CacheControl::new().public().max_age(max_age_seconds)).expires(
        later_by(now, max_age_seconds as i64),
    )
}

/// Headers that let only the client keep the response for
/// `max_age_seconds` after `now`.
pub fn private_cache_at(now: i64, max_age_seconds: u32) -> (h: CacheHeaders)
    ensures
        private_cache_headers(h, now, max_age_seconds),
{
    CacheHeaders::new().cache_control(CacheControl::new().private().max_age(max_age_seconds)).expires(
        later_by(now, max_age_seconds as i64),
    )
}

/// `r` is what `no_cache` gives for the clock reading `now`.
pub open spec fn no_cache_from_clock(now: Result<u64, String>, r: Result<CacheHeaders, String>) -> bool {
    match now {
        Ok(n) => r matches Ok(h) && no_cache_headers(h, clock_timestamp(n)),
        Err(e) => r == Err::<CacheHeaders, String>(e),
    }
}

/// Headers that forbid caching, expired an hour before the current time;
/// the clock's error when it reads before the Unix epoch.
pub fn no_cache() -> (r: Result<CacheHeaders, String>)
    ensures
        exists|now: Result<u64, String>| #[trigger] no_cache_from_clock(now, r),
{
    let now = unix_now();
    let ghost t = now;
    let r = match now {
        Ok(n) => Ok(no_cache_at(clock_seconds(n))),
        Err(e) => Err(e),
    };
    assert(no_cache_from_clock(t, r));
    r
}

/// `r` is what `public_cache` gives for the clock reading `now`.
pub open spec fn public_cache_from_clock(now: Result<u64, String>, age: u32, r: Result<CacheHeaders, String>) -> bool {
    match now {
        Ok(n) => r matches Ok(h) && public_cache_headers(h, clock_timestamp(n), age),
        Err(e) => r == Err::<CacheHeaders, String>(e),
    }
}

/// Headers that let shared caches keep the response for `max_age_seconds`
/// after the current time; the clock's error when it reads before the
/// Unix epoch.
pub fn public_cache(max_age_seconds: u32) -> (r: Result<CacheHeaders, String>)
    ensures
        exists|now: Result<u64, String>| #[trigger] public_cache_from_clock(now, max_age_seconds, r),
{
    let now = unix_now();
    let ghost t = now;
    let r = match now {
        Ok(n) => Ok(public_cache_at(clock_seconds(n), max_age_seconds)),
        Err(e) => Err(e),
    };
    assert(public_cache_from_clock(t, max_age_seconds, r));
    r
}

/// `r` is what `private_cache` gives for the clock reading `now`.
pub open spec fn private_cache_from_clock(now: Result<u64, String>, age: u32, r: Result<CacheHeaders, String>) -> bool {
    match now {
        Ok(n) => r matches Ok(h) && private_cache_headers(h, clock_timestamp(n), age),
        Err(e) => r == Err::<CacheHeaders, String>(e),
    }
}

/// Headers that let only the client keep the response for
/// `max_age_seconds` after the current time; the clock's error when it
/// reads before the Unix epoch.
pub fn private_cache(max_age_seconds: u32) -> (r: Result<CacheHeaders, String>)
    ensures
        exists|now: Result<u64, String>| #[trigger] private_cache_from_clock(now, max_age_seconds, r),
{
    let now = unix_now();
    let ghost t = now;
    let r = match now {
        Ok(n) => Ok(private_cache_at(clock_seconds(n), max_age_seconds)),
        Err(e) => Err(e),
    };
    assert(private_cache_from_clock(t, max_age_seconds, r));
    r
}

/// `Cache-Control` directives of a request.
#[derive(Debug, Clone)]
pub struct ClientCacheControl {
    pub no_cache: bool,
    pub no_store: bool,
    pub max_age: Option<u32>,
}

/// The directives after reading one more directive: `no-cache` and
/// `no-store` set their flag, `max-age=` with a number sets the age, and
/// anything else is ignored.
pub open spec fn read_directive(
    c: (bool, bool, Option<u32>),
    d: Seq<char>,
) -> (bool, bool, Option<u32>) {
    if d == "no-cache"@ {
        (true, c.1, c.2)
    } else if d == "no-store"@ {
        (c.0, true, c.2)
    } else if "max-age="@.is_prefix_of(d) {
        match parse_u32_spec(d.subrange(8, d.len() as int)) {
            Some(a) => (c.0, c.1, Some(a)),
            None => c,
        }
    } else {
        c
    }
}

/// The directives after reading a sequence of trimmed directives in order.
pub open spec fn read_directives(ds: Seq<Seq<char>>) -> (bool, bool, Option<u32>)
    decreases ds.len(),
{
    if ds.len() == 0 {
        (false, false, None)
    } else {
        read_directive(read_directives(ds.drop_last()), trim_spec(ds.last()))
    }
}

/// The directives of a request header value: its comma-separated
/// directives, each trimmed, read in order.
pub open spec fn client_directives(value: Option<Seq<char>>) -> (bool, bool, Option<u32>) {
    match value {
        Some(v) => read_directives(split_spec(v, ',')),
        None => (false, false, None),
    }
}

proof fn lemma_flags_stay(ds: Seq<Seq<char>>, k: int)
    requires
        0 <= k <= ds.len(),
    ensures
        read_directives(ds.subrange(0, k)).0 ==> read_directives(ds).0,
        read_directives(ds.subrange(0, k)).1 ==> read_directives(ds).1,
    decreases ds.len() - k,
{
    if k < ds.len() {
        lemma_flags_stay(ds.drop_last(), k);
        assert(ds.drop_last().subrange(0, k) =~= ds.subrange(0, k));
    } else {
        assert(ds.subrange(0, k) =~= ds);
    }
}

/// Whether directives `(no-cache, no-store, max-age)` let the decision cache
/// answer: neither `no-cache` nor `no-store`, and no `max-age` of zero.
pub open spec fn cache_allowed(d: (bool, bool, Option<u32>)) -> bool {
    !d.0 && !d.1 && match d.2 {
        Some(a) => a > 0,
        None => true,
    }
}

/// A request whose `Cache-Control` holds `no-cache` or `no-store` among its
/// comma-separated directives (surrounding white space aside) never uses
/// the decision cache.
pub proof fn lemma_no_cache_directive_bypasses_cache(v: Seq<char>, i: int)
    requires
        0 <= i < split_spec(v, ',').len(),
        trim_spec(split_spec(v, ',')[i]) == "no-cache"@ || trim_spec(split_spec(v, ',')[i])
            == "no-store"@,
    ensures
        !cache_allowed(client_directives(Some(v))),
        trim_spec(split_spec(v, ',')[i]) == "no-cache"@ ==> client_directives(Some(v)).0,
        trim_spec(split_spec(v, ',')[i]) == "no-store"@ ==> client_directives(Some(v)).1,
{
    let ds = split_spec(v, ',');
    let pre = ds.subrange(0, i + 1);
    assert(pre.drop_last() =~= ds.subrange(0, i));
    assert(pre.last() == ds[i]);
    reveal_strlit("no-cache");
    reveal_strlit("no-store");
    assert("no-cache"@ != "no-store"@) by {
        assert("no-cache"@[3] != "no-store"@[3]);
    }
    lemma_flags_stay(ds, i + 1);
}

impl ClientCacheControl {
    /// The directives of the request's `Cache-Control` header, if it has one
    /// that is text.
    pub fn from_header_value(value: Option<&str>) -> (c: ClientCacheControl)
        ensures
            (c.no_cache, c.no_store, c.max_age) == client_directives(
                match value {
                    Some(v) => Some(v@),
                    None => None,
                },
            ),
    {
        let mut no_cache = false;
        let mut no_store = false;
        let mut max_age: Option<u32> = None;
        if let Some(v) = value {
            let parts = split_char(v, ',');
            let mut i: usize = 0;
            while i < parts.len()
                invariant
                    i <= parts@.len(),
                    string_views(parts@) == split_spec(v@, ','),
                    (no_cache, no_store, max_age) == read_directives(
                        string_views(parts@).subrange(0, i as int),
                    ),
                decreases parts@.len() - i,
            {
                let ghost ds = string_views(parts@).subrange(0, i + 1);
                assert(ds.drop_last() =~= string_views(parts@).subrange(0, i as int));
                assert(ds.last() == parts@[i as int]@);
                let d = trim(parts[i].as_str());
                proof {
                    reveal_strlit("max-age=");
                }
                if str_is(d.as_str(), "no-cache") {
                    no_cache = true;
                } else if str_is(d.as_str(), "no-store") {
                    no_store = true;
                } else if starts_with(d.as_str(), "max-age=") {
                    let n = d.as_str().unicode_len();
                    let rest = d.as_str().substring_char(8, n);
                    match parse_u32(rest) {
                        Some(a) => {
                            max_age = Some(a);
                        },
                        None => {},
                    }
                }
                i = i + 1;
            }
            assert(string_views(parts@).subrange(0, parts@.len() as int) == string_views(parts@));
        }
        ClientCacheControl { no_cache, no_store, max_age }
    }

    /// Whether the decision cache may answer: neither `no-cache` nor
    /// `no-store`, and no `max-age` of zero.
    pub fn should_use_cache(&self) -> (b: bool)
        ensures
            b == cache_allowed((self.no_cache, self.no_store, self.max_age)),
    {
        let age = match self.max_age {
            Some(a) => a,
            None => 1,
        };
        !self.no_cache && !self.no_store && age > 0
    }
}

fn str_is(a: &str, b: &str) -> (r: bool)
    ensures
        r == (a@ == b@),
{
    crate::text::str_eq(a, b)
}

} // verus!
