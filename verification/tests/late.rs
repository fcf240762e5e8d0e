use beacon_ops::hash::Hash256;
use beacon_ops::late::{
    late_block_logging, publish_delay, LateBlockEntry, Lateness, Provenance,
};

const MS: u128 = 1_000_000;

fn lateness(delay: u128, threshold: u128) -> Option<Lateness> {
    late_block_logging(delay, threshold, 1, Hash256::zero(), Provenance::Local)
        .entry
        .map(|entry| entry.lateness)
}

#[test]
fn thresholds_are_inclusive() {
    assert_eq!(lateness(4000 * MS, 4000 * MS), Some(Lateness::TooLate));
    assert_eq!(lateness(4000 * MS - 1, 4000 * MS), Some(Lateness::Delayed));
    assert_eq!(lateness(2000 * MS, 4000 * MS), Some(Lateness::Delayed));
    assert_eq!(lateness(2000 * MS - 1, 4000 * MS), None);
    assert_eq!(lateness(0, 4000 * MS), None);
}

#[test]
fn zero_thresholds_do_not_count() {
    assert_eq!(lateness(0, 0), None);
    assert_eq!(lateness(5, 0), None);
    assert_eq!(lateness(0, 1), None);
    assert_eq!(lateness(1, 1), Some(Lateness::TooLate));
}

#[test]
fn half_of_an_odd_threshold_is_rounded_down() {
    assert_eq!(lateness(3, 7), Some(Lateness::Delayed));
    assert_eq!(lateness(2, 7), None);
}

#[test]
fn the_report_holds_the_measurement_and_the_entry() {
    let root = Hash256 { bytes: [9; 32] };
    let report = late_block_logging(4_001_999_999, 4000 * MS, 12, root, Provenance::Builder);
    assert_eq!(report.provenance, Provenance::Builder);
    assert_eq!(report.delay, 4_001_999_999);
    assert_eq!(
        report.entry,
        Some(LateBlockEntry {
            lateness: Lateness::TooLate,
            provenance: Provenance::Builder,
            delay_ms: 4001,
            slot: 12,
            root,
        })
    );
    let report = late_block_logging(3, 4000 * MS, 12, root, Provenance::Local);
    assert_eq!(report.delay, 3);
    assert_eq!(report.entry, None);
}

#[test]
fn texts_of_the_log() {
    assert_eq!(Provenance::Local.label(), "local");
    assert_eq!(Provenance::Builder.label(), "builder");
    assert_eq!(Lateness::TooLate.message(), "Block was broadcast too late");
    assert_eq!(Lateness::Delayed.message(), "Block broadcast was delayed");
    assert_eq!(
        Lateness::TooLate.msg(),
        "system may be overloaded, block likely to be orphaned"
    );
    assert_eq!(Lateness::Delayed.msg(), "system may be overloaded, block may be orphaned");
}

#[test]
fn a_clock_that_was_set_back_gives_no_delay() {
    assert_eq!(publish_delay(10, 4), 6);
    assert_eq!(publish_delay(4, 4), 0);
    assert_eq!(publish_delay(3, 4), 0);
}

#[test]
fn hashes_are_written_out_in_full() {
    let mut bytes = [0u8; 32];
    bytes[0] = 0x0a;
    bytes[1] = 0xf9;
    bytes[31] = 0x5b;
    let text = Hash256 { bytes }.to_full_text();
    assert_eq!(
        text,
        "0x0af900000000000000000000000000000000000000000000000000000000005b"
    );
    assert!(Hash256 { bytes } != Hash256::zero());
    assert!(Hash256 { bytes: [0; 32] } == Hash256::zero());
}
