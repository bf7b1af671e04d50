//! Cookies as callers write them and as the rendering engine stores them.

use vstd::prelude::*;

verus! {

/// Milliseconds in a second.
pub const MILLIS_PER_SEC: i64 = 1000;

/// Nanoseconds in a millisecond.
pub const NANOS_PER_MILLI: u32 = 1_000_000;

/// Nanoseconds in a second.
pub const NANOS_PER_SEC: u32 = 1_000_000_000;

/// When a browser sends a cookie along with requests that come from another site.
#[derive(Clone, Copy, Debug, PartialEq, Eq, Structural)]
pub enum SameSite {
    /// The policy called "none": the cookie is sent with every request.
    Unrestricted,
    Lax,
    Strict,
}

/// How long the engine keeps a cookie.
#[derive(Clone, Copy, Debug, PartialEq, Eq, Structural)]
pub enum Expiry {
    /// Nothing was said about it.
    Unset,
    /// Until the browsing session ends.
    Session,
    /// Until the instant `secs` seconds and `nanos` nanoseconds after the Unix epoch.
    At { secs: i64, nanos: u32 },
}

/// One cookie, as a caller writes it to or reads it from a web view's store.
#[derive(Clone, Debug, PartialEq, Eq)]
pub struct CookieRecord {
    pub name: String,
    pub value: String,
    pub domain: Option<String>,
    pub path: Option<String>,
    /// When the cookie expires, in milliseconds since the Unix epoch.
    pub expires_at_ms: Option<i64>,
    /// The cookie lasts only as long as the browsing session.
    pub session_only: bool,
    /// How long the cookie lives, in seconds.
    pub max_age_secs: Option<i64>,
    pub same_site: Option<SameSite>,
    pub secure: Option<bool>,
    pub http_only: Option<bool>,
}

/// One cookie, field by field as the engine's cookie store holds it.
#[derive(Clone, Debug, PartialEq, Eq)]
pub struct StoredCookie {
    pub name: String,
    pub value: String,
    pub domain: Option<String>,
    pub path: Option<String>,
    pub expiry: Expiry,
    pub max_age_secs: Option<i64>,
    pub same_site: Option<SameSite>,
    pub secure: Option<bool>,
    pub http_only: Option<bool>,
}

/// The whole seconds and the nanoseconds past them of the instant `ms`
/// milliseconds after the Unix epoch. Seconds are rounded down, so the
/// nanoseconds are never negative, also for instants before the epoch.
pub open spec fn parts_of_millis(ms: i64) -> (i64, u32) {
    ((ms as int / 1000) as i64, ((ms as int % 1000) * 1_000_000) as u32)
}

/// The milliseconds after the Unix epoch of the instant given by seconds and
/// nanoseconds, rounded down to the millisecond, if that number fits.
pub open spec fn millis_of_parts(secs: i64, nanos: u32) -> Option<i64> {
    let ms = secs as int * 1000 + nanos as int / 1_000_000;
    if i64::MIN <= ms <= i64::MAX {
        Some(ms as i64)
    } else {
        None
    }
}

/// How long the engine is told to keep a cookie: a session cookie until the
/// session ends, whatever date it carries; any other until its date, if it has one.
pub open spec fn expiry_of(session_only: bool, expires_at_ms: Option<i64>) -> Expiry {
    if session_only {
        Expiry::Session
    } else {
        match expires_at_ms {
            Some(ms) => Expiry::At { secs: parts_of_millis(ms).0, nanos: parts_of_millis(ms).1 },
            None => Expiry::Unset,
        }
    }
}

/// The expiry date that a caller is shown for what the engine holds.
pub open spec fn expires_at_of(expiry: Expiry) -> Option<i64> {
    match expiry {
        Expiry::At { secs, nanos } => millis_of_parts(secs, nanos),
        _ => None,
    }
}

impl CookieRecord {
    /// The cookie as it is handed to the engine's store.
    pub open spec fn stored(self) -> StoredCookie {
        StoredCookie {
            name: self.name,
            value: self.value,
            domain: self.domain,
            path: self.path,
            expiry: expiry_of(self.session_only, self.expires_at_ms),
            max_age_secs: self.max_age_secs,
            same_site: self.same_site,
            secure: self.secure,
            http_only: self.http_only,
        }
    }

    /// The record that a caller is shown for a cookie in the engine's store.
    pub open spec fn shown(cookie: StoredCookie) -> CookieRecord {
        CookieRecord {
            name: cookie.name,
            value: cookie.value,
            domain: cookie.domain,
            path: cookie.path,
            expires_at_ms: expires_at_of(cookie.expiry),
            session_only: cookie.expiry == Expiry::Session,
            max_age_secs: cookie.max_age_secs,
            same_site: cookie.same_site,
            secure: cookie.secure,
            http_only: cookie.http_only,
        }
    }

    /// Prepares the cookie for the engine's store.
    pub fn into_stored(self) -> (cookie: StoredCookie)
        ensures
            cookie == self.stored(),
    {
        let expiry = if self.session_only {
            Expiry::Session
        } else {
            match self.expires_at_ms {
                Some(ms) => {
                    let (secs, nanos) = split_millis(ms);
                    Expiry::At { secs, nanos }
                },
                None => Expiry::Unset,
            }
        };
        StoredCookie {
            name: self.name,
            value: self.value,
            domain: self.domain,
            path: self.path,
            expiry,
            max_age_secs: self.max_age_secs,
            same_site: self.same_site,
            secure: self.secure,
            http_only: self.http_only,
        }
    }

    /// Reads a cookie from the engine's store.
    pub fn from_stored(cookie: StoredCookie) -> (record: CookieRecord)
        ensures
            record == CookieRecord::shown(cookie),
    {
        let (expires_at_ms, session_only) = match cookie.expiry {
            Expiry::At { secs, nanos } => (join_millis(secs, nanos), false),
            Expiry::Session => (None, true),
            Expiry::Unset => (None, false),
        };
        CookieRecord {
            name: cookie.name,
            value: cookie.value,
            domain: cookie.domain,
            path: cookie.path,
            expires_at_ms,
            session_only,
            max_age_secs: cookie.max_age_secs,
            same_site: cookie.same_site,
            secure: cookie.secure,
            http_only: cookie.http_only,
        }
    }
}

/// Splits an instant in milliseconds into whole seconds and nanoseconds.
pub fn split_millis(ms: i64) -> (parts: (i64, u32))
    ensures
        parts == parts_of_millis(ms),
        parts.1 < NANOS_PER_SEC,
        parts.0 as int * 1000 + parts.1 as int / 1_000_000 == ms as int,
{
    let (secs, millis): (i64, i64) = if ms >= 0 {
        (ms / MILLIS_PER_SEC, ms % MILLIS_PER_SEC)
    } else {
        let below: i64 = -(ms + 1);
        (-(below / MILLIS_PER_SEC) - 1, (MILLIS_PER_SEC - 1) - below % MILLIS_PER_SEC)
    };
    assert(0 <= millis < 1000 && secs as int * 1000 + millis as int == ms as int);
    assert(secs as int == ms as int / 1000 && millis as int == ms as int % 1000) by {
        vstd::arithmetic::div_mod::lemma_fundamental_div_mod_converse(
            ms as int,
            1000,
            secs as int,
            millis as int,
        );
    }
    let nanos: u32 = (millis as u32) * NANOS_PER_MILLI;
    assert(nanos as int / 1_000_000 == millis as int) by {
        vstd::arithmetic::div_mod::lemma_fundamental_div_mod_converse(
            nanos as int,
            1_000_000,
            millis as int,
            0,
        );
    }
    (secs, nanos)
}

/// Joins whole seconds and nanoseconds into an instant in milliseconds,
/// dropping what is finer than a millisecond. Gives nothing if the number of
/// milliseconds does not fit.
pub fn join_millis(secs: i64, nanos: u32) -> (ms: Option<i64>)
    ensures
        ms == millis_of_parts(secs, nanos),
{
    let wide: i128 = (secs as i128) * 1000 + ((nanos / NANOS_PER_MILLI) as i128);
    if wide < (i64::MIN as i128) || wide > (i64::MAX as i128) {
        None
    } else {
        Some(wide as i64)
    }
}

/// An instant survives being split into seconds and nanoseconds and joined again.
pub proof fn lemma_instant_round_trip(ms: i64)
    ensures
        millis_of_parts(parts_of_millis(ms).0, parts_of_millis(ms).1) == Some(ms),
        parts_of_millis(ms).1 < NANOS_PER_SEC,
{
    let q = ms as int / 1000;
    let r = ms as int % 1000;
    vstd::arithmetic::div_mod::lemma_fundamental_div_mod(ms as int, 1000);
    assert(0 <= r < 1000);
    assert(ms as int == 1000 * q + r);
    assert(i64::MIN <= q <= i64::MAX);
    assert(r * 1_000_000 < 1_000_000_000);
    assert((r * 1_000_000) / 1_000_000 == r) by {
        vstd::arithmetic::div_mod::lemma_fundamental_div_mod_converse(
            r * 1_000_000,
            1_000_000,
            r,
            0,
        );
    }
}

/// A cookie that is written to the store and read back as it was stored shows
/// the same name, value, domain, path, lifetime, same-site policy and flags. Its
/// expiry denotes the same instant, except that a session cookie comes back
/// without a date.
pub proof fn lemma_cookie_round_trip(record: CookieRecord)
    ensures
        CookieRecord::shown(record.stored()).name == record.name,
        CookieRecord::shown(record.stored()).value == record.value,
        CookieRecord::shown(record.stored()).same_site == record.same_site,
        CookieRecord::shown(record.stored()).domain == record.domain,
        CookieRecord::shown(record.stored()).path == record.path,
        CookieRecord::shown(record.stored()).max_age_secs == record.max_age_secs,
        CookieRecord::shown(record.stored()).secure == record.secure,
        CookieRecord::shown(record.stored()).http_only == record.http_only,
        CookieRecord::shown(record.stored()).session_only == record.session_only,
        !record.session_only ==> CookieRecord::shown(record.stored()).expires_at_ms
            == record.expires_at_ms,
        record.session_only ==> CookieRecord::shown(record.stored()).expires_at_ms is None,
        !record.session_only ==> CookieRecord::shown(record.stored()) == record,
{
    if !record.session_only {
        match record.expires_at_ms {
            Some(ms) => {
                lemma_instant_round_trip(ms);
            },
            None => {},
        }
    }
}

} // verus!
