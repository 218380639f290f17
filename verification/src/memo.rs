//! The metadata stored with a memoized command, and its expiry.

use vstd::prelude::*;

use crate::env::EnvVars;
use crate::time::{earlier, is_clock_reading, now_utc, parse_rfc3339, rfc3339_instant, Timestamp};

verus! {

/// Metadata for a memoized command execution, stored as `meta.json` beside
/// the recorded stdout and stderr.
pub struct Memo {
    /// The command arguments that were executed.
    pub cmd: Vec<String>,
    /// Environment variables considered for the cache key.
    pub env: EnvVars,
    /// The exit code returned by the command.
    pub exit_code: i32,
    /// RFC 3339 timestamp of when the command was executed.
    pub timestamp: String,
    /// RFC 3339 timestamp of when the entry expires, if a TTL was given.
    pub expires_at: Option<String>,
    /// SHA-256 digest used as the cache key.
    pub digest: String,
}

/// The instant at which an entry with this `expires_at` text expires:
/// `None` when it has none, or when the text is not an RFC 3339 time.
pub open spec fn expiry_of(expires_at: Option<Seq<char>>) -> Option<Timestamp> {
    match expires_at {
        Some(text) => match rfc3339_instant(text) {
            Some((secs, nanos)) => Some(Timestamp { secs, nanos }),
            None => None,
        },
        None => None,
    }
}

/// Whether an entry with this expiry has expired at `now`: only when it has
/// one and `now` is strictly later.
pub open spec fn expired_at(expiry: Option<Timestamp>, now: Timestamp) -> bool {
    match expiry {
        Some(e) => earlier(e, now),
        None => false,
    }
}

impl Memo {
    /// The `expires_at` text of the entry, as the model sees it.
    pub open spec fn expires_text(&self) -> Option<Seq<char>> {
        match self.expires_at {
            Some(s) => Some(s@),
            None => None,
        }
    }

    /// The instant at which the entry expires, if it has one that parses.
    pub fn expiry(&self) -> (res: Option<Timestamp>)
        ensures
            res == expiry_of(self.expires_text()),
    {
        match &self.expires_at {
            Some(text) => parse_rfc3339(text.as_str()),
            None => None,
        }
    }

    /// Whether the entry has expired at `now`.
    pub fn is_expired_at(&self, now: Timestamp) -> (res: bool)
        ensures
            res == expired_at(expiry_of(self.expires_text()), now),
    {
        match self.expiry() {
            Some(e) => e.is_before(&now),
            None => false,
        }
    }

    /// Check if the cache entry has expired, against the current time.
    /// An entry without an expiry, or whose expiry does not parse, never
    /// expires.
    pub fn is_expired(&self) -> (res: bool)
        ensures
            res ==> exists|now: Timestamp| expired_at(expiry_of(self.expires_text()), now),
            expiry_of(self.expires_text()) is None ==> !res,
            exists|now: Timestamp|
                is_clock_reading(now) && res == expired_at(expiry_of(self.expires_text()), now),
    {
        let now = now_utc();
        let res = self.is_expired_at(now);
        assert(is_clock_reading(now) && res == expired_at(expiry_of(self.expires_text()), now));
        res
    }
}

/// Entries are permanent by default: without an expiry an entry never
/// expires, whatever the time.
pub proof fn lemma_no_expiry_never_expires(now: Timestamp)
    ensures
        !expired_at(expiry_of(None), now),
{
}

/// Once expired, an entry stays expired at every later time.
pub proof fn lemma_expiry_is_permanent(expiry: Option<Timestamp>, now: Timestamp, later: Timestamp)
    requires
        expired_at(expiry, now),
        !earlier(later, now),
    ensures
        expired_at(expiry, later),
{
}

/// An entry whose recorded expiry lies strictly before `now` has expired
/// at `now`, and one whose expiry is `now` or later has not.
pub proof fn lemma_expired_iff_expiry_before_now(text: Seq<char>, secs: i64, nanos: u32, now: Timestamp)
    requires
        rfc3339_instant(text) == Some((secs, nanos)),
    ensures
        expired_at(expiry_of(Some(text)), now) <==> (secs < now.secs || (secs == now.secs && nanos
            < now.nanos)),
{
}

} // verus!
