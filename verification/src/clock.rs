//! The two clocks: the monotonic one of the device and the calendar time of the receiver.
use vstd::prelude::*;

verus! {

/// How far two readings may differ in what time passed between them.
pub const GPS_UTC_PROGRESS_TOLERANCE_MS: u64 = 2_000;

/// How often the own state is logged.
pub const LOCAL_SAMPLE_INTERVAL_MS: u64 = 1_000;

/// How often the age of the link is looked at.
pub const LINK_WATCHDOG_INTERVAL_MS: u64 = 250;

/// Whether calendar time went on like the device's own clock between two readings: forward by
/// both, and by nearly as much.
pub open spec fn progression_is_sane(
    previous_mono_ms: int,
    previous_utc_ms: int,
    current_mono_ms: int,
    current_utc_ms: int,
) -> bool {
    let mono_delta = current_mono_ms - previous_mono_ms;
    let utc_delta = current_utc_ms - previous_utc_ms;
    &&& mono_delta > 0
    &&& utc_delta > 0
    &&& -(GPS_UTC_PROGRESS_TOLERANCE_MS as int) <= mono_delta - utc_delta
        <= GPS_UTC_PROGRESS_TOLERANCE_MS
}

pub fn gps_utc_progression_is_sane(
    previous_mono_ms: u64,
    previous_utc_ms: u64,
    current_mono_ms: u64,
    current_utc_ms: u64,
) -> (sane: bool)
    ensures
        sane == progression_is_sane(
            previous_mono_ms as int,
            previous_utc_ms as int,
            current_mono_ms as int,
            current_utc_ms as int,
        ),
{
    if current_mono_ms <= previous_mono_ms || current_utc_ms <= previous_utc_ms {
        return false;
    }
    let mono_delta_ms: u64 = current_mono_ms - previous_mono_ms;
    let utc_delta_ms: u64 = current_utc_ms - previous_utc_ms;
    if mono_delta_ms >= utc_delta_ms {
        mono_delta_ms - utc_delta_ms <= GPS_UTC_PROGRESS_TOLERANCE_MS
    } else {
        utc_delta_ms - mono_delta_ms <= GPS_UTC_PROGRESS_TOLERANCE_MS
    }
}

/// A reading of both clocks at one moment.
#[derive(Clone, Copy, Debug, PartialEq, Eq, Structural)]
pub struct Reading {
    pub mono_ms: u64,
    pub utc_ms: u64,
}

/// Whether one reading follows another as clocks do.
pub open spec fn follows(previous: Reading, current: Reading) -> bool {
    progression_is_sane(
        previous.mono_ms as int,
        previous.utc_ms as int,
        current.mono_ms as int,
        current.utc_ms as int,
    )
}

/// What came of a reading.
#[derive(Clone, Copy, Debug, PartialEq, Eq, Structural)]
pub enum UtcVerdict {
    /// The receiver repeated the time that it gave before.
    Unchanged,
    /// A first reading; it needs a second one that follows it.
    Pending,
    /// The second reading followed the first: calendar time is known from now on.
    Synchronized,
    /// The reading followed the last accepted one.
    Accepted,
    /// The reading did not follow the last accepted one, which is given.
    Rejected(Reading),
}

/// Calendar time is believed only when two readings in a row follow each other, and a later
/// reading only when it follows the last believed one.
#[derive(Clone, Copy, Debug, PartialEq, Eq, Structural)]
pub struct UtcSync {
    pub last_seen: Option<u64>,
    pub pending: Option<Reading>,
    pub accepted: Option<Reading>,
}

impl UtcSync {
    pub fn new() -> (sync: Self)
        ensures
            sync == fresh_sync(),
    {
        UtcSync { last_seen: None, pending: None, accepted: None }
    }

    /// Takes a reading.
    pub fn observe(&mut self, mono_ms: u64, utc_ms: u64) -> (verdict: UtcVerdict)
        ensures
            verdict == utc_verdict(*old(self), Reading { mono_ms, utc_ms }),
            *final(self) == utc_after(*old(self), Reading { mono_ms, utc_ms }),
    {
        match self.last_seen {
            Some(seen) => if seen == utc_ms {
                return UtcVerdict::Unchanged;
            },
            None => {},
        }
        self.last_seen = Some(utc_ms);
        let reading = Reading { mono_ms, utc_ms };
        match self.accepted {
            Some(accepted) => {
                if gps_utc_progression_is_sane(
                    accepted.mono_ms,
                    accepted.utc_ms,
                    mono_ms,
                    utc_ms,
                ) {
                    self.accepted = Some(reading);
                    UtcVerdict::Accepted
                } else {
                    UtcVerdict::Rejected(accepted)
                }
            },
            None => {
                match self.pending {
                    Some(candidate) => {
                        if gps_utc_progression_is_sane(
                            candidate.mono_ms,
                            candidate.utc_ms,
                            mono_ms,
                            utc_ms,
                        ) {
                            self.pending = None;
                            self.accepted = Some(reading);
                            return UtcVerdict::Synchronized;
                        }
                    },
                    None => {},
                }
                self.pending = Some(reading);
                UtcVerdict::Pending
            },
        }
    }
}

/// What is known before the first reading.
pub open spec fn fresh_sync() -> UtcSync {
    UtcSync { last_seen: None, pending: None, accepted: None }
}

/// What comes of a reading.
pub open spec fn utc_verdict(sync: UtcSync, reading: Reading) -> UtcVerdict {
    if sync.last_seen == Some(reading.utc_ms) {
        UtcVerdict::Unchanged
    } else {
        match sync.accepted {
            Some(accepted) => if follows(accepted, reading) {
                UtcVerdict::Accepted
            } else {
                UtcVerdict::Rejected(accepted)
            },
            None => match sync.pending {
                Some(candidate) => if follows(candidate, reading) {
                    UtcVerdict::Synchronized
                } else {
                    UtcVerdict::Pending
                },
                None => UtcVerdict::Pending,
            },
        }
    }
}

/// What a reading leaves behind.
pub open spec fn utc_after(sync: UtcSync, reading: Reading) -> UtcSync {
    let last_seen = Some(reading.utc_ms);
    match utc_verdict(sync, reading) {
        UtcVerdict::Unchanged => sync,
        UtcVerdict::Pending => UtcSync { last_seen, pending: Some(reading), ..sync },
        UtcVerdict::Synchronized => UtcSync {
            last_seen,
            pending: None,
            accepted: Some(reading),
        },
        UtcVerdict::Accepted => UtcSync { last_seen, accepted: Some(reading), ..sync },
        UtcVerdict::Rejected(_) => UtcSync { last_seen, ..sync },
    }
}

/// Calendar time is never taken from one reading alone: a reading is believed only when it
/// follows one before it, and one that does not follow the last believed one leaves that one in
/// place.
pub proof fn law_one_reading_is_not_believed(sync: UtcSync, reading: Reading)
    ensures
        ({
            let after = utc_after(sync, reading);
            &&& after.accepted != sync.accepted ==> {
                &&& after.accepted == Some(reading)
                &&& match sync.accepted {
                    Some(accepted) => follows(accepted, reading),
                    None => sync.pending matches Some(candidate) && follows(candidate, reading),
                }
            }
            &&& sync.accepted is Some ==> after.accepted is Some
            &&& utc_verdict(sync, reading) is Rejected ==> after.accepted == sync.accepted
        }),
{
}

/// Two good readings in a row synchronize from the start on, wherever the receiver was before.
pub proof fn law_two_good_readings_synchronize(sync: UtcSync, first: Reading, second: Reading)
    requires
        sync.accepted is None,
        sync.last_seen != Some(first.utc_ms),
        utc_verdict(sync, first) == UtcVerdict::Pending,
        follows(first, second),
    ensures
        utc_verdict(utc_after(sync, first), second) == UtcVerdict::Synchronized,
        utc_after(utc_after(sync, first), second).accepted == Some(second),
{
}

/// Where the device's own clock and calendar time met.
#[derive(Clone, Copy, Debug, PartialEq, Eq, Structural)]
pub struct UtcAnchor {
    pub mono_ms: u64,
    pub unix_ms: u64,
}

/// The calendar time of a moment of the device's own clock; none where no anchor is known, and
/// for a moment so early that its calendar time would be before the epoch. Times beyond the
/// last that can be held are held at it.
pub open spec fn utc_at(anchor: Option<UtcAnchor>, mono_ms: u64) -> Option<u64> {
    match anchor {
        Some(known) => {
            let unix_ms = known.unix_ms + mono_ms - known.mono_ms;
            if unix_ms < 0 {
                None
            } else if unix_ms > u64::MAX {
                Some(u64::MAX)
            } else {
                Some(unix_ms as u64)
            }
        },
        None => None,
    }
}

pub fn utc_for_mono_ms(anchor: Option<UtcAnchor>, mono_ms: u64) -> (unix_ms: Option<u64>)
    ensures
        unix_ms == utc_at(anchor, mono_ms),
{
    match anchor {
        Some(known) => {
            if mono_ms >= known.mono_ms {
                Some(known.unix_ms.saturating_add(mono_ms - known.mono_ms))
            } else {
                known.unix_ms.checked_sub(known.mono_ms - mono_ms)
            }
        },
        None => None,
    }
}

/// An anchor gives its own moment its own time, and the times of two moments of which both are in
/// range differ as the moments do.
pub proof fn law_anchored_time_runs_with_the_clock(anchor: UtcAnchor, a: u64, b: u64)
    ensures
        utc_at(Some(anchor), anchor.mono_ms) == Some(anchor.unix_ms),
        0 <= anchor.unix_ms + a - anchor.mono_ms <= u64::MAX && 0 <= anchor.unix_ms + b
            - anchor.mono_ms <= u64::MAX ==> {
            &&& utc_at(Some(anchor), a) is Some
            &&& utc_at(Some(anchor), b) is Some
            &&& utc_at(Some(anchor), b)->0 - utc_at(Some(anchor), a)->0 == b - a
        },
{
}

/// When the own state is logged next. Deadlines keep to the times that they began with, so that
/// lateness does not add up.
#[derive(Clone, Copy, Debug, PartialEq, Eq, Structural)]
pub struct LocalSchedule {
    pub next_ms: u64,
}

impl LocalSchedule {
    pub fn new(now_ms: u64) -> (schedule: Self)
        ensures
            schedule.next_ms == now_ms,
    {
        LocalSchedule { next_ms: now_ms }
    }

    pub fn due(&self, now_ms: u64) -> (due: bool)
        ensures
            due == is_due(self.next_ms, now_ms),
    {
        now_ms >= self.next_ms
    }

    /// Goes on to the first deadline behind the moment at which the sample was done, at least by
    /// one. Deadlines that were missed are left out.
    pub fn advance(&mut self, after_ms: u64)
        requires
            after_ms < u64::MAX,
        ensures
            final(self).next_ms == deadline_after(old(self).next_ms, after_ms),
    {
        let missed: u64 = if after_ms >= self.next_ms {
            (after_ms - self.next_ms) / LOCAL_SAMPLE_INTERVAL_MS
        } else {
            0
        };
        self.next_ms = self.next_ms.saturating_add(missed * LOCAL_SAMPLE_INTERVAL_MS);
        self.next_ms = self.next_ms.saturating_add(LOCAL_SAMPLE_INTERVAL_MS);
    }

    /// How long to wait for a packet: until the next deadline, at least a millisecond, and no
    /// longer than the link is left unwatched.
    pub fn wait_ms(&self, now_ms: u64) -> (wait: u64)
        ensures
            wait == wait_before(self.next_ms, now_ms),
    {
        let until: u64 = self.next_ms.saturating_sub(now_ms);
        if until < 1 {
            1
        } else if until < LINK_WATCHDOG_INTERVAL_MS {
            until
        } else {
            LINK_WATCHDOG_INTERVAL_MS
        }
    }

    /// How late a sample is, where that is more than a wait can explain.
    pub fn lateness(&self, now_ms: u64) -> (late: Option<u64>)
        ensures
            late == lateness_of(self.next_ms, now_ms),
    {
        let lateness_ms: u64 = now_ms.saturating_sub(self.next_ms);
        if lateness_ms > LINK_WATCHDOG_INTERVAL_MS {
            Some(lateness_ms)
        } else {
            None
        }
    }
}

/// Whether a deadline has come.
pub open spec fn is_due(next_ms: u64, now_ms: u64) -> bool {
    now_ms >= next_ms
}

/// How late a sample is, where that is more than a wait can explain.
pub open spec fn lateness_of(next_ms: u64, now_ms: u64) -> Option<u64> {
    if now_ms - next_ms > LINK_WATCHDOG_INTERVAL_MS {
        Some((now_ms - next_ms) as u64)
    } else {
        None
    }
}

/// The first deadline behind a moment, at least one period behind the one before. Deadlines
/// beyond the last moment that can be held are held at it.
pub open spec fn deadline_after(next_ms: u64, after_ms: u64) -> u64 {
    let missed = if after_ms >= next_ms {
        (after_ms - next_ms) / (LOCAL_SAMPLE_INTERVAL_MS as int)
    } else {
        0
    };
    let deadline = next_ms + (missed + 1) * LOCAL_SAMPLE_INTERVAL_MS;
    if deadline <= u64::MAX {
        deadline as u64
    } else {
        u64::MAX
    }
}

/// Deadlines do not drift: the next one lies behind the moment, no more than a period, and a whole
/// number of periods behind the one before, however late the sample was.
pub proof fn law_deadlines_do_not_drift(next_ms: u64, after_ms: u64)
    requires
        next_ms <= after_ms,
        after_ms + LOCAL_SAMPLE_INTERVAL_MS <= u64::MAX,
    ensures
        after_ms < deadline_after(next_ms, after_ms) <= after_ms + LOCAL_SAMPLE_INTERVAL_MS,
        (deadline_after(next_ms, after_ms) - next_ms) % (LOCAL_SAMPLE_INTERVAL_MS as int) == 0,
{
    let missed = (after_ms - next_ms) / (LOCAL_SAMPLE_INTERVAL_MS as int);
    assert(((missed + 1) * 1_000int) % 1_000 == 0) by (nonlinear_arith);
}

/// How long to wait for a packet with the next deadline ahead.
pub open spec fn wait_before(next_ms: u64, now_ms: u64) -> u64 {
    if next_ms <= now_ms {
        1
    } else if next_ms - now_ms < LINK_WATCHDOG_INTERVAL_MS {
        (next_ms - now_ms) as u64
    } else {
        LINK_WATCHDOG_INTERVAL_MS
    }
}

/// A wait that lasts no longer than it should does not sleep past the next deadline.
pub proof fn law_waits_end_by_the_deadline(next_ms: u64, now_ms: u64)
    requires
        now_ms < next_ms,
    ensures
        now_ms + wait_before(next_ms, now_ms) <= next_ms,
        wait_before(next_ms, now_ms) > 0,
{
}

/// One reading follows another exactly where both clocks went forward, and neither by more than two
/// seconds further than the other.
pub proof fn law_clocks_go_together(previous: Reading, current: Reading)
    ensures
        follows(previous, current) <==> {
            &&& current.mono_ms > previous.mono_ms
            &&& current.utc_ms > previous.utc_ms
            &&& current.utc_ms - previous.utc_ms <= current.mono_ms - previous.mono_ms + 2_000
            &&& current.mono_ms - previous.mono_ms <= current.utc_ms - previous.utc_ms + 2_000
        },
{
}

/// Before time is known: a reading that follows on the one that is pending makes time known, any
/// other takes its place and is pending itself.
pub proof fn law_readings_before_time_is_known(sync: UtcSync, reading: Reading)
    requires
        sync.accepted is None,
        sync.last_seen != Some(reading.utc_ms),
    ensures
        ({
            let after = utc_after(sync, reading);
            let confirmed = sync.pending is Some && follows(sync.pending->0, reading);
            &&& utc_verdict(sync, reading) is Synchronized <==> confirmed
            &&& utc_verdict(sync, reading) is Pending <==> !confirmed
            &&& confirmed ==> after.accepted == Some(reading) && after.pending is None
            &&& !confirmed ==> after.accepted is None && after.pending == Some(reading)
            &&& after.last_seen == Some(reading.utc_ms)
        }),
{
}

/// Once time is known: a reading that follows on the last believed one takes its place, any other
/// is refused with that one and changes nothing of it.
pub proof fn law_readings_once_time_is_known(sync: UtcSync, reading: Reading)
    requires
        sync.accepted is Some,
        sync.last_seen != Some(reading.utc_ms),
    ensures
        ({
            let after = utc_after(sync, reading);
            let good = follows(sync.accepted->0, reading);
            &&& utc_verdict(sync, reading) is Accepted <==> good
            &&& utc_verdict(sync, reading) == UtcVerdict::Rejected(sync.accepted->0) <==> !good
            &&& after.accepted == if good {
                Some(reading)
            } else {
                sync.accepted
            }
            &&& after.pending == sync.pending
            &&& after.last_seen == Some(reading.utc_ms)
        }),
{
}

/// A time that the receiver repeats counts for nothing, whenever it comes.
pub proof fn law_repeated_time_counts_for_nothing(sync: UtcSync, first: Reading, mono_ms: u64)
    ensures
        ({
            let once = utc_after(sync, first);
            let again = Reading { mono_ms, utc_ms: first.utc_ms };
            &&& utc_verdict(once, again) is Unchanged
            &&& utc_after(once, again) == once
        }),
        utc_verdict(fresh_sync(), first) is Pending,
        utc_after(fresh_sync(), first).pending == Some(first),
{
}

/// The own state is logged once in a second: a sample that is done in its second is followed by one
/// a thousand milliseconds behind its deadline. Of one that was done later, the deadlines that have
/// passed are left out.
pub proof fn law_samples_come_every_second(next_ms: u64, after_ms: u64)
    requires
        after_ms + 1_000 <= 18_446_744_073_709_551_615,
        next_ms + 1_000 <= 18_446_744_073_709_551_615,
    ensures
        after_ms < next_ms + 1_000 ==> deadline_after(next_ms, after_ms) == next_ms + 1_000,
        after_ms >= next_ms ==> after_ms < deadline_after(next_ms, after_ms) <= after_ms + 1_000,
        after_ms >= next_ms ==> (deadline_after(next_ms, after_ms) - next_ms) % 1_000 == 0,
{
    if after_ms >= next_ms {
        law_deadlines_do_not_drift(next_ms, after_ms);
        if after_ms < next_ms + 1_000 {
            assert((after_ms - next_ms) / 1_000 == 0);
        }
    }
}

/// The link is looked at every quarter of a second: a wait lasts until the deadline, and 250
/// milliseconds where that is further away, and one where it has passed. A sample counts as late
/// where it is more than that behind its deadline.
pub proof fn law_waits_are_a_quarter_of_a_second(next_ms: u64, now_ms: u64)
    ensures
        next_ms >= now_ms + 250 ==> wait_before(next_ms, now_ms) == 250,
        now_ms < next_ms < now_ms + 250 ==> now_ms + wait_before(next_ms, now_ms) == next_ms,
        next_ms <= now_ms ==> wait_before(next_ms, now_ms) == 1,
        lateness_of(next_ms, now_ms) is Some <==> now_ms > next_ms + 250,
        lateness_of(next_ms, now_ms) matches Some(late) ==> next_ms + late == now_ms,
{
}

/// No calendar time is known without an anchor, none of a moment that would lie before the epoch,
/// and the last one that can be held of any that would lie behind it.
pub proof fn law_times_out_of_range(anchor: UtcAnchor, mono_ms: u64)
    ensures
        utc_at(None, mono_ms) is None,
        utc_at(Some(anchor), mono_ms) is None <==> anchor.mono_ms - mono_ms > anchor.unix_ms,
        anchor.unix_ms + mono_ms - anchor.mono_ms > 18_446_744_073_709_551_615 ==> utc_at(
            Some(anchor),
            mono_ms,
        ) == Some(18_446_744_073_709_551_615u64),
{
}

/// A sample is due from its deadline on: behind a wait up to the deadline it is, and the next one
/// is not until its own.
pub proof fn law_samples_are_due_at_their_deadlines(next_ms: u64, now_ms: u64)
    requires
        now_ms < 18_446_744_073_709_550_615,
    ensures
        is_due(next_ms, next_ms),
        now_ms < next_ms ==> !is_due(next_ms, now_ms),
        now_ms >= next_ms ==> is_due(next_ms, now_ms) && !is_due(
            deadline_after(next_ms, now_ms),
            now_ms,
        ),
{
    if now_ms >= next_ms {
        law_samples_come_every_second(next_ms, now_ms);
    }
}

} // verus!
