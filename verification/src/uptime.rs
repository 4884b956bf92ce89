//! The sliding window of up/down observations behind the uptime ratio.
use vstd::prelude::*;
use crate::target::Fraction;

verus! {

/// A UTC instant: whole seconds since the Unix epoch and the nanoseconds
/// past them (up to 2e9 within a leap second).
#[derive(Clone, Copy, Debug, PartialEq, Eq, Structural)]
pub struct Timestamp {
    pub secs: i64,
    pub nanos: u32,
}

/// `a` is at or after `b`.
pub open spec fn at_or_after(a: Timestamp, b: Timestamp) -> bool {
    a.secs > b.secs || (a.secs == b.secs && a.nanos >= b.nanos)
}

/// One observation: whether the node was up at `ts`.
#[derive(Clone, Copy, Debug, PartialEq, Eq, Structural)]
pub struct UptimeSample {
    pub ts: Timestamp,
    pub up: bool,
}

/// The observations inside the window, oldest first.
#[derive(Debug)]
pub struct UptimeHistory {
    pub samples: Vec<UptimeSample>,
}

/// The window start falls outside the span of instants that chrono holds, or
/// the clock reading or the window is one that chrono does not take.
#[derive(Clone, Copy, Debug, PartialEq, Eq, Structural)]
pub struct ClockRangeError;

/// The earliest instant chrono holds, in seconds since the epoch
/// (January 1 of year -262143, 00:00:00 UTC).
pub const MIN_CLOCK_SECS: i64 = -8_334_601_228_800;

/// The last whole second chrono holds, in seconds since the epoch
/// (December 31 of year 262142, 23:59:59 UTC).
pub const MAX_CLOCK_SECS: i64 = 8_210_266_876_799;

/// The longest span, in seconds either way, that chrono's `TimeDelta` holds
/// as a whole number of seconds (`i64::MAX` milliseconds, rounded down).
pub const MAX_SPAN_SECS: i64 = 9_223_372_036_854_775;

/// A clock reading chrono accepts: within its span, with fewer than 1e9
/// nanoseconds, or fewer than 2e9 within a leap second (the 59th second of
/// a minute).
pub open spec fn valid_reading(t: Timestamp) -> bool {
    &&& MIN_CLOCK_SECS <= t.secs <= MAX_CLOCK_SECS
    &&& (t.nanos < 1_000_000_000 || (t.nanos < 2_000_000_000 && t.secs % 60 == 59))
}

/// A window chrono accepts as a span of whole hours.
pub open spec fn valid_window(window_hours: i64) -> bool {
    -MAX_SPAN_SECS <= window_hours * 3600 <= MAX_SPAN_SECS
}

/// The seconds of the window start: `now` moved back by `window_hours`
/// hours. Moving away from a leap second first leaves it: going back, it
/// counts from the next second; going forward, from its own second.
pub open spec fn cutoff_secs(now: Timestamp, window_hours: i64) -> int {
    if now.nanos >= 1_000_000_000 && window_hours > 0 {
        now.secs + 1 - window_hours * 3600
    } else {
        now.secs - window_hours * 3600
    }
}

/// The nanoseconds of the window start: those of `now`, less the leap second
/// when the window moves away from one.
pub open spec fn cutoff_nanos(now: Timestamp, window_hours: i64) -> int {
    if now.nanos >= 1_000_000_000 && window_hours != 0 {
        now.nanos - 1_000_000_000
    } else {
        now.nanos as int
    }
}

/// `now` minus `window_hours` hours.
pub open spec fn window_cutoff(now: Timestamp, window_hours: i64) -> Timestamp {
    Timestamp {
        secs: cutoff_secs(now, window_hours) as i64,
        nanos: cutoff_nanos(now, window_hours) as u32,
    }
}

/// The window start can be had: the reading and the window are ones chrono
/// takes, and the start lies within chrono's span.
pub open spec fn window_start_exists(now: Timestamp, window_hours: i64) -> bool {
    &&& valid_reading(now)
    &&& valid_window(window_hours)
    &&& MIN_CLOCK_SECS <= cutoff_secs(now, window_hours) <= MAX_CLOCK_SECS
}

pub open spec fn inside_window(cutoff: Timestamp) -> spec_fn(UptimeSample) -> bool {
    |s: UptimeSample| at_or_after(s.ts, cutoff)
}

pub open spec fn is_up() -> spec_fn(UptimeSample) -> bool {
    |s: UptimeSample| s.up
}

/// The start of the window: `now` minus `window_hours` hours, computed with
/// chrono (`DateTime::from_timestamp`, `TimeDelta::try_hours`,
/// `DateTime::checked_sub_signed`, `timestamp`, `timestamp_subsec_nanos`).
/// Claimed of chrono: it succeeds exactly when the reading is one that
/// `from_timestamp` takes, `window_hours * 3600` seconds fit in a
/// `TimeDelta`, and the start lies within chrono's span of instants; and
/// what it returns is `window_cutoff(now, window_hours)`.
#[verifier::external_body]
fn window_start(now: Timestamp, window_hours: i64) -> (r: Option<Timestamp>)
    ensures
        r is Some <==> window_start_exists(now, window_hours),
        r matches Some(t) ==> t == window_cutoff(now, window_hours),
{
    let now = chrono::DateTime::<chrono::Utc>::from_timestamp(now.secs, now.nanos)?;
    let span = chrono::TimeDelta::try_hours(window_hours)?;
    let start = now.checked_sub_signed(span)?;
    Some(Timestamp { secs: start.timestamp(), nanos: start.timestamp_subsec_nanos() })
}

/// The history after recording `sample`: what of the history and the new
/// sample lies at or after the window start.
pub open spec fn recorded(before: Seq<UptimeSample>, sample: UptimeSample, cutoff: Timestamp) -> Seq<
    UptimeSample,
> {
    before.push(sample).filter(inside_window(cutoff))
}

impl UptimeHistory {
    pub fn new() -> (r: UptimeHistory)
        ensures
            r.samples@ == Seq::<UptimeSample>::empty(),
    {
        UptimeHistory { samples: Vec::new() }
    }

    /// Records whether the node was up at `now`, then drops every observation
    /// older than `window_hours` before `now`. Returns the window start used.
    /// Fails, leaving the history as it was, exactly when chrono cannot place
    /// the window start.
    pub fn push_sample(&mut self, now: Timestamp, up: bool, window_hours: i64) -> (r: Result<
        Timestamp,
        ClockRangeError,
    >)
        ensures
            r is Ok <==> window_start_exists(now, window_hours),
            r is Err ==> final(self).samples@ == old(self).samples@,
            r matches Ok(cutoff) ==> cutoff == window_cutoff(now, window_hours),
            r is Ok ==> final(self).samples@ == recorded(
                old(self).samples@,
                UptimeSample { ts: now, up },
                window_cutoff(now, window_hours),
            ),
    {
        let cutoff = match window_start(now, window_hours) {
            Some(c) => c,
            None => {
                return Err(ClockRangeError);
            },
        };
        let ghost all = self.samples@.push(UptimeSample { ts: now, up });
        let ghost keep = inside_window(cutoff);
        let mut kept: Vec<UptimeSample> = Vec::new();
        let n = self.samples.len();
        let mut i: usize = 0;
        while i < n
            invariant
                n == self.samples@.len(),
                all == self.samples@.push(UptimeSample { ts: now, up }),
                keep == inside_window(cutoff),
                i <= n,
                kept@ == all.take(i as int).filter(keep),
            decreases n - i,
        {
            let s = self.samples[i];
            proof {
                assert(s == all[i as int]);
                assert(all.take(i + 1).drop_last() =~= all.take(i as int));
                reveal_with_fuel(Seq::<UptimeSample>::filter, 1);
            }
            if s.ts.secs > cutoff.secs || (s.ts.secs == cutoff.secs && s.ts.nanos >= cutoff.nanos) {
                kept.push(s);
            }
            i = i + 1;
        }
        let newest = UptimeSample { ts: now, up };
        proof {
            assert(all.drop_last() =~= all.take(n as int));
            assert(all.last() == newest);
            reveal_with_fuel(Seq::<UptimeSample>::filter, 1);
        }
        if now.secs > cutoff.secs || (now.secs == cutoff.secs && now.nanos >= cutoff.nanos) {
            kept.push(newest);
        }
        self.samples = kept;
        Ok(cutoff)
    }

    /// The uptime ratio as a percentage: observations that were up over all
    /// observations (0 % when there are none).
    pub fn uptime_ratio(&self) -> (r: Fraction)
        ensures
            r.num == self.samples@.filter(is_up()).len(),
            r.den == self.samples@.len(),
            r.num <= r.den,
    {
        let n = self.samples.len();
        let mut up: u64 = 0;
        let mut i: usize = 0;
        while i < n
            invariant
                n == self.samples@.len(),
                i <= n,
                up == self.samples@.take(i as int).filter(is_up()).len(),
                up <= i,
            decreases n - i,
        {
            proof {
                assert(self.samples@.take(i + 1).drop_last() =~= self.samples@.take(i as int));
                reveal_with_fuel(Seq::<UptimeSample>::filter, 1);
            }
            if self.samples[i].up {
                up = up + 1;
            }
            i = i + 1;
        }
        assert(self.samples@.take(n as int) =~= self.samples@);
        Fraction { num: up, den: n as u128 }
    }
}

/// The uptime ratio of a window of observations.
pub open spec fn ratio_of(samples: Seq<UptimeSample>) -> Fraction {
    Fraction { num: samples.filter(is_up()).len() as u64, den: samples.len() as u128 }
}

/// Observations in the order of their times, oldest first.
pub open spec fn in_time_order(s: Seq<UptimeSample>) -> bool {
    forall|i: int, j: int| 0 <= i < j < s.len() ==> at_or_after(#[trigger] s[j].ts, #[trigger] s[i].ts)
}

/// The up/down flags of a sequence of observations.
pub open spec fn up_flags(s: Seq<UptimeSample>) -> Seq<bool> {
    s.map_values(|x: UptimeSample| x.up)
}

/// Every observation left after recording one lies at or after the window
/// start that was used.
pub proof fn lemma_window_holds_only_recent(before: Seq<UptimeSample>, sample: UptimeSample, cutoff: Timestamp)
    ensures
        forall|i: int|
            0 <= i < recorded(before, sample, cutoff).len() ==> at_or_after(
                #[trigger] recorded(before, sample, cutoff)[i].ts,
                cutoff,
            ),
{
    let f = recorded(before, sample, cutoff);
    assert forall|i: int| 0 <= i < f.len() implies at_or_after(#[trigger] f[i].ts, cutoff) by {
        before.push(sample).lemma_filter_pred(inside_window(cutoff), i);
    }
}

/// With a non-negative window, the window start is not after `now`.
proof fn lemma_cutoff_not_after_now(now: Timestamp, window_hours: i64)
    requires
        window_hours >= 0,
        window_start_exists(now, window_hours),
    ensures
        at_or_after(now, window_cutoff(now, window_hours)),
{
}

/// An observation recorded with a non-negative window is kept, as the newest
/// one: it is the last of the history, right after what was kept of the rest.
pub proof fn lemma_newest_sample_kept(before: Seq<UptimeSample>, now: Timestamp, up: bool, window_hours: i64)
    requires
        window_hours >= 0,
        window_start_exists(now, window_hours),
    ensures
        recorded(before, UptimeSample { ts: now, up }, window_cutoff(now, window_hours))
            == before.filter(inside_window(window_cutoff(now, window_hours))).push(
            UptimeSample { ts: now, up },
        ),
{
    lemma_cutoff_not_after_now(now, window_hours);
    let s = before.push(UptimeSample { ts: now, up });
    reveal_with_fuel(Seq::<UptimeSample>::filter, 1);
    assert(s.drop_last() =~= before);
}

/// What a filter keeps has every property that all of the sequence has.
proof fn lemma_filter_keeps_all(
    s: Seq<UptimeSample>,
    p: spec_fn(UptimeSample) -> bool,
    q: spec_fn(UptimeSample) -> bool,
)
    requires
        forall|i: int| 0 <= i < s.len() ==> q(#[trigger] s[i]),
    ensures
        forall|i: int| 0 <= i < s.filter(p).len() ==> q(#[trigger] s.filter(p)[i]),
    decreases s.len(),
{
    reveal_with_fuel(Seq::<UptimeSample>::filter, 1);
    if s.len() > 0 {
        let init = s.drop_last();
        assert forall|i: int| 0 <= i < init.len() implies q(#[trigger] init[i]) by {
            assert(init[i] == s[i]);
        }
        lemma_filter_keeps_all(init, p, q);
        let last = s.last();
        assert(q(last));
        let fi = init.filter(p);
        if p(last) {
            let f = fi.push(last);
            assert(s.filter(p) == f);
            assert forall|i: int| 0 <= i < f.len() implies q(#[trigger] f[i]) by {
                if i < fi.len() {
                    assert(f[i] == fi[i]);
                }
            }
        } else {
            assert(s.filter(p) == fi);
        }
    }
}

/// A filter keeps the time order.
proof fn lemma_filter_in_time_order(s: Seq<UptimeSample>, p: spec_fn(UptimeSample) -> bool)
    requires
        in_time_order(s),
    ensures
        in_time_order(s.filter(p)),
    decreases s.len(),
{
    reveal_with_fuel(Seq::<UptimeSample>::filter, 1);
    if s.len() > 0 {
        let init = s.drop_last();
        let last = s.last();
        assert(in_time_order(init)) by {
            assert forall|i: int, j: int| 0 <= i < j < init.len() implies at_or_after(
                #[trigger] init[j].ts,
                #[trigger] init[i].ts,
            ) by {
                assert(init[i] == s[i] && init[j] == s[j]);
            }
        }
        lemma_filter_in_time_order(init, p);
        let q = |x: UptimeSample| at_or_after(last.ts, x.ts);
        assert forall|i: int| 0 <= i < init.len() implies q(#[trigger] init[i]) by {
            assert(init[i] == s[i]);
            assert(at_or_after(s[s.len() - 1].ts, s[i].ts));
        }
        lemma_filter_keeps_all(init, p, q);
        let fi = init.filter(p);
        if p(last) {
            let f = fi.push(last);
            assert forall|i: int, j: int| 0 <= i < j < f.len() implies at_or_after(
                #[trigger] f[j].ts,
                #[trigger] f[i].ts,
            ) by {
                assert(f[i] == fi[i]);
                if j < fi.len() {
                    assert(f[j] == fi[j]);
                } else {
                    assert(q(fi[i]));
                }
            }
        }
    }
}

/// Recording into a history kept in time order, with no observation after
/// `now` and a non-negative window, keeps it in time order, and leaves only
/// observations between the window start and `now`.
pub proof fn lemma_recorded_in_time_order(
    before: Seq<UptimeSample>,
    now: Timestamp,
    up: bool,
    window_hours: i64,
)
    requires
        in_time_order(before),
        forall|i: int| 0 <= i < before.len() ==> at_or_after(now, #[trigger] before[i].ts),
        window_hours >= 0,
        window_start_exists(now, window_hours),
    ensures
        in_time_order(recorded(before, UptimeSample { ts: now, up }, window_cutoff(now, window_hours))),
        forall|i: int|
            0 <= i < recorded(before, UptimeSample { ts: now, up }, window_cutoff(now, window_hours)).len()
                ==> {
                let ts = (#[trigger] recorded(
                    before,
                    UptimeSample { ts: now, up },
                    window_cutoff(now, window_hours),
                )[i]).ts;
                at_or_after(ts, window_cutoff(now, window_hours)) && at_or_after(now, ts)
            },
{
    let sample = UptimeSample { ts: now, up };
    let cutoff = window_cutoff(now, window_hours);
    let all = before.push(sample);
    assert(in_time_order(all)) by {
        assert forall|i: int, j: int| 0 <= i < j < all.len() implies at_or_after(
            #[trigger] all[j].ts,
            #[trigger] all[i].ts,
        ) by {
            assert(all[i] == before[i]);
            if j < before.len() {
                assert(all[j] == before[j]);
            }
        }
    }
    lemma_filter_in_time_order(all, inside_window(cutoff));
    let q = |x: UptimeSample| at_or_after(now, x.ts);
    assert forall|i: int| 0 <= i < all.len() implies q(#[trigger] all[i]) by {
        if i < before.len() {
            assert(all[i] == before[i]);
        }
    }
    lemma_filter_keeps_all(all, inside_window(cutoff), q);
    lemma_window_holds_only_recent(before, sample, cutoff);
    let f = recorded(before, sample, cutoff);
    assert forall|i: int| 0 <= i < f.len() implies at_or_after(#[trigger] f[i].ts, cutoff) && at_or_after(now, f[i].ts) by {
        assert(q(f[i]));
    }
}

/// A later window start keeps what an earlier one keeps, less what lies
/// before it.
proof fn lemma_filter_narrower(s: Seq<UptimeSample>, narrow: Timestamp, wide: Timestamp)
    requires
        at_or_after(narrow, wide),
    ensures
        s.filter(inside_window(narrow)) == s.filter(inside_window(wide)).filter(inside_window(narrow)),
    decreases s.len(),
{
    reveal_with_fuel(Seq::<UptimeSample>::filter, 1);
    if s.len() > 0 {
        let init = s.drop_last();
        let x = s.last();
        lemma_filter_narrower(init, narrow, wide);
        let fw = init.filter(inside_window(wide));
        if at_or_after(x.ts, wide) {
            assert(fw.push(x).drop_last() =~= fw);
        }
    }
}

/// A longer window starts no later.
proof fn lemma_cutoff_antitone(now: Timestamp, w1: i64, w2: i64)
    requires
        w1 <= w2,
        window_start_exists(now, w1),
        window_start_exists(now, w2),
    ensures
        at_or_after(window_cutoff(now, w1), window_cutoff(now, w2)),
{
}

/// A larger window never drops more: recording with a window of `w1` hours
/// keeps exactly what recording with `w2 >= w1` hours keeps that lies within
/// `w1` hours, so it keeps no more.
pub proof fn lemma_wider_window_keeps_more(
    before: Seq<UptimeSample>,
    now: Timestamp,
    up: bool,
    w1: i64,
    w2: i64,
)
    requires
        w1 <= w2,
        window_start_exists(now, w1),
        window_start_exists(now, w2),
    ensures
        recorded(before, UptimeSample { ts: now, up }, window_cutoff(now, w1)) == recorded(
            before,
            UptimeSample { ts: now, up },
            window_cutoff(now, w2),
        ).filter(inside_window(window_cutoff(now, w1))),
        recorded(before, UptimeSample { ts: now, up }, window_cutoff(now, w1)).len() <= recorded(
            before,
            UptimeSample { ts: now, up },
            window_cutoff(now, w2),
        ).len(),
{
    lemma_cutoff_antitone(now, w1, w2);
    let all = before.push(UptimeSample { ts: now, up });
    lemma_filter_narrower(all, window_cutoff(now, w1), window_cutoff(now, w2));
    all.filter(inside_window(window_cutoff(now, w2))).lemma_filter_len(
        inside_window(window_cutoff(now, w1)),
    );
}

proof fn lemma_up_count(s: Seq<UptimeSample>)
    ensures
        s.filter(is_up()).len() == up_flags(s).to_multiset().count(true),
        up_flags(s).to_multiset().len() == s.len(),
    decreases s.len(),
{
    broadcast use vstd::seq_lib::group_to_multiset_ensures;

    reveal_with_fuel(Seq::<UptimeSample>::filter, 1);
    if s.len() > 0 {
        lemma_up_count(s.drop_last());
        assert(up_flags(s) =~= up_flags(s.drop_last()).push(s.last().up));
    } else {
        assert(up_flags(s) =~= Seq::<bool>::empty());
        assert(!up_flags(s).contains(true));
    }
}

/// The uptime ratio depends only on how many observations were up and how
/// many there are: reordering the observations, or changing their times,
/// leaves it as it is.
pub proof fn lemma_ratio_ignores_order(s1: Seq<UptimeSample>, s2: Seq<UptimeSample>)
    requires
        up_flags(s1).to_multiset() == up_flags(s2).to_multiset(),
    ensures
        ratio_of(s1) == ratio_of(s2),
{
    lemma_up_count(s1);
    lemma_up_count(s2);
}

} // verus!
