//! Per-call record metadata: level, message, and a lazily-computed,
//! memoized timestamp.

use vstd::prelude::*;

use crate::level::Level;

verus! {

/// Relies on chrono's `From<SystemTime>` conversion to `DateTime<Utc>`,
/// which accepts clocks on either side of the Unix epoch (a reading before
/// the epoch becomes a negative timestamp, not a failure), and on
/// `DateTime::timestamp_millis`, to read the current wall-clock time in
/// milliseconds since the epoch.  The result depends on the machine's
/// clock, so nothing is stated about it.
#[verifier::external_body]
fn now_millis() -> i64 {
    chrono::DateTime::<chrono::Utc>::from(std::time::SystemTime::now()).timestamp_millis()
}

/// One read of a lazily-computed, memoized value: reading an absent value
/// stores and returns the clock sample `now`; reading a present value
/// returns it unchanged.  The first component is the stored value after the
/// read, the second the value the read returns.
pub open spec fn memo_read(ts: Option<i64>, now: i64) -> (Option<i64>, i64) {
    match ts {
        None => (Some(now), now),
        Some(t) => (Some(t), t),
    }
}

/// Law: once a record's timestamp has been read, every later read within the
/// same record's lifetime returns the identical instant and leaves the
/// stored value unchanged, whatever the clock returns in between.
pub proof fn lemma_timestamp_memoized(ts0: Option<i64>, now1: i64, now2: i64)
    ensures
        ({
            let (ts1, r1) = memo_read(ts0, now1);
            let (ts2, r2) = memo_read(ts1, now2);
            r2 == r1 && ts2 == ts1
        }),
{
}

/// Law: two records whose timestamps are first read at clock samples taken
/// in order carry timestamps in the same order — under a monotone clock,
/// timestamps across separate logging calls are non-decreasing.
pub proof fn lemma_timestamp_monotone(now1: i64, now2: i64)
    requires
        now1 <= now2,
    ensures
        memo_read(None, now1).1 <= memo_read(None, now2).1,
{
}

/// Common information about one logging record.  Constructed immediately
/// before the drain invocation, consumed only during it.
pub struct RecordInfo<'a> {
    ts: Option<i64>,
    level: Level,
    msg: &'a str,
}

impl<'a> RecordInfo<'a> {
    /// The memoized timestamp, in milliseconds since the Unix epoch, or
    /// `None` while no call has requested it yet.
    pub closed spec fn spec_ts(&self) -> Option<i64> {
        self.ts
    }

    /// The severity of this record.
    pub closed spec fn spec_level(&self) -> Level {
        self.level
    }

    /// The text of this record's message.
    pub closed spec fn spec_msg(&self) -> Seq<char> {
        self.msg@
    }

    /// Create a new `RecordInfo`; its timestamp stays unset until first
    /// requested.
    pub fn new(level: Level, msg: &'a str) -> (r: Self)
        ensures
            r.spec_level() == level,
            r.spec_msg() == msg@,
            r.spec_ts() is None,
    {
        RecordInfo { ts: None, level, msg }
    }

    /// Lazily evaluated timestamp: computed and stored on first call, so
    /// that every later call within this record's lifetime observes the
    /// identical instant.
    pub fn ts(&mut self) -> (r: i64)
        ensures
            (final(self).spec_ts(), r) == memo_read(old(self).spec_ts(), r),
            final(self).spec_level() == old(self).spec_level(),
            final(self).spec_msg() == old(self).spec_msg(),
    {
        match self.ts {
            None => {
                let now = now_millis();
                self.ts = Some(now);
                now
            },
            Some(t) => t,
        }
    }

    /// Override the memoized timestamp: every later `ts` call returns `ts`.
    pub fn set_ts(&mut self, ts: i64)
        ensures
            final(self).spec_ts() == Some(ts),
            final(self).spec_level() == old(self).spec_level(),
            final(self).spec_msg() == old(self).spec_msg(),
    {
        self.ts = Some(ts);
    }

    /// The record's message.
    pub fn msg(&self) -> (r: &'a str)
        ensures
            r@ == self.spec_msg(),
    {
        self.msg
    }

    /// The record's severity.
    pub fn level(&self) -> (r: Level)
        ensures
            r == self.spec_level(),
    {
        self.level
    }
}

} // verus!
