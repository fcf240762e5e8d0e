//! Noticing blocks that are published late. Times and delays are in nanoseconds.
use vstd::prelude::*;

use crate::hash::Hash256;

verus! {

/// Where a block's payload was built.
#[derive(Clone, Copy, PartialEq, Eq, Structural, Debug)]
pub enum Provenance {
    Local,
    Builder,
}

impl Provenance {
    /// The name under which delays are recorded.
    pub open spec fn name(self) -> Seq<char> {
        match self {
            Provenance::Local => "local"@,
            Provenance::Builder => "builder"@,
        }
    }

    /// The name under which delays are recorded.
    pub fn label(self) -> (r: &'static str)
        ensures
            r@ == self.name(),
    {
        match self {
            Provenance::Local => "local",
            Provenance::Builder => "builder",
        }
    }
}

/// How late a block was broadcast.
#[derive(Clone, Copy, PartialEq, Eq, Structural, Debug)]
pub enum Lateness {
    /// The block was delayed and may be orphaned.
    Delayed,
    /// The block was too late and is likely to be orphaned.
    TooLate,
}

impl Lateness {
    /// The headline of the log entry.
    pub open spec fn headline(self) -> Seq<char> {
        match self {
            Lateness::Delayed => "Block broadcast was delayed"@,
            Lateness::TooLate => "Block was broadcast too late"@,
        }
    }

    /// What the delay may lead to.
    pub open spec fn consequence(self) -> Seq<char> {
        match self {
            Lateness::Delayed => "system may be overloaded, block may be orphaned"@,
            Lateness::TooLate => "system may be overloaded, block likely to be orphaned"@,
        }
    }

    /// The headline of the log entry.
    pub fn message(self) -> (r: &'static str)
        ensures
            r@ == self.headline(),
    {
        match self {
            Lateness::Delayed => "Block broadcast was delayed",
            Lateness::TooLate => "Block was broadcast too late",
        }
    }

    /// What the delay may lead to.
    pub fn msg(self) -> (r: &'static str)
        ensures
            r@ == self.consequence(),
    {
        match self {
            Lateness::Delayed => "system may be overloaded, block may be orphaned",
            Lateness::TooLate => "system may be overloaded, block likely to be orphaned",
        }
    }
}

/// The entry that a late block makes in the log.
#[derive(Clone, Copy, PartialEq, Eq, Debug)]
pub struct LateBlockEntry {
    pub lateness: Lateness,
    pub provenance: Provenance,
    pub delay_ms: u128,
    pub slot: u64,
    pub root: Hash256,
}

/// What is recorded of a block's delay: always a measurement, and a log entry if the block is
/// late.
#[derive(Clone, Copy, PartialEq, Eq, Debug)]
pub struct LateBlockReport {
    pub provenance: Provenance,
    pub delay: u128,
    pub entry: Option<LateBlockEntry>,
}

/// How late a block is: too late from the threshold on, delayed from half of it on. A threshold of
/// zero, as very short slots have, is no threshold.
pub open spec fn lateness(delay: u128, too_late_threshold: u128) -> Option<Lateness> {
    if too_late_threshold > 0 && delay >= too_late_threshold {
        Some(Lateness::TooLate)
    } else if too_late_threshold / 2 > 0 && delay >= too_late_threshold / 2 {
        Some(Lateness::Delayed)
    } else {
        None
    }
}

/// If a block is seen some time after the start of its slot, says what to log to indicate that it
/// was published late. `delay` is the time from the start of the slot until the block was seen,
/// and `too_late_threshold` the time into a slot when unaggregated attestations are due.
///
/// Thresholds are non-zero to count, to avoid logging errors with small slot times.
pub fn late_block_logging(
    delay: u128,
    too_late_threshold: u128,
    slot: u64,
    root: Hash256,
    provenance: Provenance,
) -> (report: LateBlockReport)
    ensures
        report.provenance == provenance,
        report.delay == delay,
        match report.entry {
            Some(entry) => lateness(delay, too_late_threshold) == Some(entry.lateness)
                && entry.provenance == provenance && entry.delay_ms == delay / 1_000_000
                && entry.slot == slot && entry.root == root,
            None => lateness(delay, too_late_threshold) is None,
        },
{
    let delayed_threshold = too_late_threshold / 2;
    let lateness = if too_late_threshold > 0 && delay >= too_late_threshold {
        Some(Lateness::TooLate)
    } else if delayed_threshold > 0 && delay >= delayed_threshold {
        Some(Lateness::Delayed)
    } else {
        None
    };
    let entry = match lateness {
        Some(lateness) => Some(
            LateBlockEntry { lateness, provenance, delay_ms: delay / 1_000_000, slot, root },
        ),
        None => None,
    };
    LateBlockReport { provenance, delay, entry }
}

/// The time from when a block was seen until it is published, and zero if the clock was set back
/// in between.
pub fn publish_delay(publish_timestamp: u128, seen_timestamp: u128) -> (delay: u128)
    ensures
        delay == if publish_timestamp >= seen_timestamp {
            publish_timestamp - seen_timestamp
        } else {
            0
        },
{
    match publish_timestamp.checked_sub(seen_timestamp) {
        Some(delay) => delay,
        None => 0,
    }
}

/// A longer delay is never reported as less late.
pub proof fn lateness_grows_with_delay(a: u128, b: u128, too_late_threshold: u128)
    requires
        a <= b,
    ensures
        lateness(a, too_late_threshold) == Some(Lateness::TooLate) ==> lateness(
            b,
            too_late_threshold,
        ) == Some(Lateness::TooLate),
        lateness(a, too_late_threshold) is Some ==> lateness(b, too_late_threshold) is Some,
{
}

/// A block that is seen at the start of its slot, or before, is not late.
pub proof fn no_delay_is_not_late(too_late_threshold: u128)
    ensures
        lateness(0, too_late_threshold) is None,
{
}

/// A block is too late from a threshold on that is not zero. It is delayed from half of the threshold
/// on, rounded down, if that is not zero either. Otherwise it makes no entry in the log. An entry
/// gives the whole milliseconds of the delay, and whose block it is.
pub proof fn a_block_is_late_by_its_threshold(
    delay: u128,
    too_late_threshold: u128,
    slot: u64,
    root: Hash256,
    provenance: Provenance,
    report: LateBlockReport,
)
    requires
        call_ensures(
            late_block_logging,
            (delay, too_late_threshold, slot, root, provenance),
            report,
        ),
    ensures
        report.provenance == provenance,
        report.delay == delay,
        report.entry is None <==> too_late_threshold == 0 || too_late_threshold == 1 && delay == 0
            || 2 * delay + 1 < too_late_threshold,
        report.entry matches Some(entry) ==> {
            &&& entry.lateness is TooLate <==> delay >= too_late_threshold
            &&& entry.provenance == provenance
            &&& entry.slot == slot
            &&& entry.root == root
            &&& 1_000_000 * entry.delay_ms <= delay < 1_000_000 * (entry.delay_ms + 1)
        },
{
}

/// A longer delay never makes a log entry milder, or takes it away.
pub proof fn a_longer_delay_is_not_reported_as_less_late(
    a: u128,
    b: u128,
    too_late_threshold: u128,
    slot: u64,
    root: Hash256,
    provenance: Provenance,
    report_a: LateBlockReport,
    report_b: LateBlockReport,
)
    requires
        a <= b,
        call_ensures(late_block_logging, (a, too_late_threshold, slot, root, provenance), report_a),
        call_ensures(late_block_logging, (b, too_late_threshold, slot, root, provenance), report_b),
    ensures
        report_a.entry matches Some(entry_a) ==> {
            &&& report_b.entry matches Some(entry_b)
            &&& entry_a.lateness is TooLate ==> entry_b.lateness is TooLate
            &&& entry_a.delay_ms <= entry_b.delay_ms
        },
{
}

/// What is written of a late block, word for word.
pub proof fn late_blocks_are_put_in_words(
    provenance: Provenance,
    label: &'static str,
    lateness: Lateness,
    message: &'static str,
    msg: &'static str,
)
    requires
        call_ensures(Provenance::label, (provenance,), label),
        call_ensures(Lateness::message, (lateness,), message),
        call_ensures(Lateness::msg, (lateness,), msg),
    ensures
        provenance is Local ==> label@ == "local"@,
        provenance is Builder ==> label@ == "builder"@,
        lateness is Delayed ==> message@ == "Block broadcast was delayed"@ && msg@
            == "system may be overloaded, block may be orphaned"@,
        lateness is TooLate ==> message@ == "Block was broadcast too late"@ && msg@
            == "system may be overloaded, block likely to be orphaned"@,
{
}

/// The delay makes up the time between seeing a block and publishing it, and is zero if the clock was
/// set back.
pub proof fn the_delay_makes_up_the_time_to_publication(
    publish_timestamp: u128,
    seen_timestamp: u128,
    delay: u128,
)
    requires
        call_ensures(publish_delay, (publish_timestamp, seen_timestamp), delay),
    ensures
        publish_timestamp >= seen_timestamp ==> seen_timestamp + delay == publish_timestamp,
        publish_timestamp < seen_timestamp ==> delay == 0,
{
}

} // verus!
