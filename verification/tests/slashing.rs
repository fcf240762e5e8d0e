use beacon_ops::attestation::{
    AttestationData, AttesterSlashing, BeaconState, Checkpoint, IndexedAttestation, Validator,
    VerifySignatures,
};
use beacon_ops::hash::Hash256;
use beacon_ops::slashing::{
    get_slashable_indices, get_slashable_indices_modular, verify_attester_slashing,
    AttesterSlashingInvalid, BlockOperationError, SlashingResult,
};
use std::cell::RefCell;

fn root(byte: u8) -> Hash256 {
    Hash256 { bytes: [byte; 32] }
}

fn data(source: u64, target: u64, block: u8) -> AttestationData {
    AttestationData {
        slot: 7,
        index: 0,
        beacon_block_root: root(block),
        source: Checkpoint { epoch: source, root: root(1) },
        target: Checkpoint { epoch: target, root: root(2) },
    }
}

fn attestation(indices: &[u64], data: AttestationData) -> IndexedAttestation {
    IndexedAttestation { attesting_indices: indices.to_vec(), data, signature: [0; 96] }
}

fn validator(slashed: bool, activation_epoch: u64, withdrawable_epoch: u64) -> Validator {
    Validator {
        pubkey: [0; 48],
        withdrawal_credentials: root(0),
        effective_balance: 32_000_000_000,
        slashed,
        activation_eligibility_epoch: 0,
        activation_epoch,
        exit_epoch: withdrawable_epoch,
        withdrawable_epoch,
    }
}

/// Validators 0 to 4 at epoch 10; 1 is slashed, 3 is not active yet.
fn state() -> BeaconState {
    BeaconState {
        current_epoch: 10,
        validators: vec![
            validator(false, 0, 100),
            validator(true, 0, 100),
            validator(false, 10, 11),
            validator(false, 11, 100),
            validator(false, 0, 100),
        ],
    }
}

fn double_vote(first: &[u64], second: &[u64]) -> AttesterSlashing {
    AttesterSlashing {
        attestation_1: attestation(first, data(3, 4, 8)),
        attestation_2: attestation(second, data(3, 4, 9)),
    }
}

fn invalid<E>(reason: AttesterSlashingInvalid<E>) -> SlashingResult<E> {
    Err(BlockOperationError::Invalid(reason))
}

fn accept(
    _: &BeaconState,
    _: &IndexedAttestation,
    _: VerifySignatures,
    _: &(),
) -> Result<(), &'static str> {
    Ok(())
}

#[test]
fn double_vote_names_common_slashable_validators_in_ascending_order() {
    let slashing = double_vote(&[4, 2, 0, 1], &[0, 1, 3, 4, 2]);
    let result = verify_attester_slashing(&state(), &slashing, VerifySignatures::True, &(), accept);
    assert_eq!(result, Ok(vec![0, 2, 4]));
}

#[test]
fn repeated_indices_count_once() {
    let slashing = double_vote(&[4, 4, 0, 4], &[0, 4, 0]);
    let result: SlashingResult<()> = get_slashable_indices(&state(), &slashing);
    assert_eq!(result, Ok(vec![0, 4]));
}

#[test]
fn swapped_attestations_give_the_same_indices() {
    let one: SlashingResult<()> =
        get_slashable_indices(&state(), &double_vote(&[4, 2], &[0, 2, 4]));
    let other: SlashingResult<()> =
        get_slashable_indices(&state(), &double_vote(&[0, 2, 4], &[4, 2]));
    assert_eq!(one, Ok(vec![2, 4]));
    assert_eq!(one, other);
}

#[test]
fn surround_vote_is_slashable_in_one_direction_only() {
    let outer = attestation(&[0, 4], data(2, 6, 8));
    let inner = attestation(&[0, 4], data(3, 5, 8));
    assert!(outer.is_surround_vote(&inner));
    assert!(!inner.is_surround_vote(&outer));
    assert!(!outer.is_double_vote(&inner));
    let slashing = AttesterSlashing { attestation_1: outer, attestation_2: inner };
    let result = verify_attester_slashing(&state(), &slashing, VerifySignatures::True, &(), accept);
    assert_eq!(result, Ok(vec![0, 4]));
    let swapped = AttesterSlashing {
        attestation_1: slashing.attestation_2,
        attestation_2: slashing.attestation_1,
    };
    let result = verify_attester_slashing(&state(), &swapped, VerifySignatures::True, &(), accept);
    assert_eq!(result, invalid(AttesterSlashingInvalid::NotSlashable));
}

#[test]
fn touching_spans_do_not_surround() {
    let a = attestation(&[0], data(3, 6, 8));
    let b = attestation(&[0], data(3, 5, 8));
    let c = attestation(&[0], data(2, 6, 8));
    assert!(!a.is_surround_vote(&b));
    assert!(!c.is_surround_vote(&a));
}

#[test]
fn identical_votes_are_not_slashable() {
    let slashing = AttesterSlashing {
        attestation_1: attestation(&[0], data(3, 4, 8)),
        attestation_2: attestation(&[0], data(3, 4, 8)),
    };
    let result = verify_attester_slashing(&state(), &slashing, VerifySignatures::True, &(), accept);
    assert_eq!(result, invalid(AttesterSlashingInvalid::NotSlashable));
}

#[test]
fn any_difference_in_the_vote_makes_a_double_vote() {
    let base = data(3, 4, 8);
    let mut others = vec![base; 5];
    others[0].slot = 8;
    others[1].index = 1;
    others[2].beacon_block_root = root(9);
    others[3].source.root = root(9);
    others[4].target.root = root(9);
    for other in others {
        assert!(attestation(&[], base).is_double_vote(&attestation(&[], other)));
    }
}

#[test]
fn votes_that_do_not_conflict_are_not_judged_further() {
    let slashing = AttesterSlashing {
        attestation_1: attestation(&[0], data(3, 4, 8)),
        attestation_2: attestation(&[0], data(4, 5, 8)),
    };
    let result = verify_attester_slashing(
        &state(),
        &slashing,
        VerifySignatures::True,
        &(),
        |_, _, _, _| -> Result<(), ()> { panic!("not to be asked") },
    );
    assert_eq!(result, invalid(AttesterSlashingInvalid::NotSlashable));
}

#[test]
fn invalid_attestations_are_told_apart() {
    let slashing = double_vote(&[0, 4], &[0, 2]);
    let asked = RefCell::new(vec![]);
    let reject = |indices: &'static [u64]| {
        verify_attester_slashing(
            &state(),
            &slashing,
            VerifySignatures::False,
            &"spec",
            |state, attestation, verify_signatures, spec| {
                assert_eq!(state.current_epoch, 10);
                assert_eq!(verify_signatures, VerifySignatures::False);
                assert_eq!(*spec, "spec");
                asked.borrow_mut().push(attestation.attesting_indices.clone());
                if attestation.attesting_indices == indices {
                    Err("bad signature")
                } else {
                    Ok(())
                }
            },
        )
    };
    assert_eq!(
        reject(&[0, 4]),
        invalid(AttesterSlashingInvalid::IndexedAttestation1Invalid("bad signature"))
    );
    assert_eq!(*asked.borrow(), vec![vec![0, 4]]);
    asked.borrow_mut().clear();
    assert_eq!(
        reject(&[0, 2]),
        invalid(AttesterSlashingInvalid::IndexedAttestation2Invalid("bad signature"))
    );
    assert_eq!(*asked.borrow(), vec![vec![0, 4], vec![0, 2]]);
    assert_eq!(reject(&[]), Ok(vec![0]));
}

#[test]
fn the_lowest_unknown_common_validator_is_reported() {
    let slashing = double_vote(&[9, 0, 5, 70], &[70, 9, 5, 0]);
    let result: SlashingResult<()> = get_slashable_indices(&state(), &slashing);
    assert_eq!(result, invalid(AttesterSlashingInvalid::UnknownValidator(5)));
}

#[test]
fn an_unknown_validator_in_one_attestation_only_does_no_harm() {
    let slashing = double_vote(&[9, 0], &[0, 70]);
    let result: SlashingResult<()> = get_slashable_indices(&state(), &slashing);
    assert_eq!(result, Ok(vec![0]));
}

#[test]
fn no_slashable_validator_is_an_error() {
    let none: SlashingResult<()> = get_slashable_indices(&state(), &double_vote(&[1, 3], &[3, 1]));
    assert_eq!(none, invalid(AttesterSlashingInvalid::NoSlashableIndices));
    let disjoint: SlashingResult<()> = get_slashable_indices(&state(), &double_vote(&[0], &[2]));
    assert_eq!(disjoint, invalid(AttesterSlashingInvalid::NoSlashableIndices));
    let empty: SlashingResult<()> = get_slashable_indices(&state(), &double_vote(&[], &[]));
    assert_eq!(empty, invalid(AttesterSlashingInvalid::NoSlashableIndices));
}

#[test]
fn the_same_evidence_applies_once() {
    let slashing = double_vote(&[0, 4], &[4, 0]);
    let mut state = state();
    let first: SlashingResult<()> = get_slashable_indices(&state, &slashing);
    for index in first.unwrap() {
        state.validators[index as usize].slashed = true;
    }
    let second: SlashingResult<()> = get_slashable_indices(&state, &slashing);
    assert_eq!(second, invalid(AttesterSlashingInvalid::NoSlashableIndices));
}

#[test]
fn a_validator_is_slashable_from_activation_until_withdrawal() {
    let v = validator(false, 10, 12);
    assert!(!v.is_slashable_at(9));
    assert!(v.is_slashable_at(10));
    assert!(v.is_slashable_at(11));
    assert!(!v.is_slashable_at(12));
    assert!(!validator(true, 10, 12).is_slashable_at(11));
}

#[test]
fn the_criterion_of_the_caller_decides() {
    let slashing = double_vote(&[0, 1, 2, 3], &[3, 2, 1]);
    let odd: SlashingResult<()> =
        get_slashable_indices_modular(&state(), &slashing, |index, _| index % 2 == 1);
    assert_eq!(odd, Ok(vec![1, 3]));
    let slashed: SlashingResult<()> =
        get_slashable_indices_modular(&state(), &slashing, |_, validator| validator.slashed);
    assert_eq!(slashed, Ok(vec![1]));
    let never: SlashingResult<()> =
        get_slashable_indices_modular(&state(), &slashing, |_, _| false);
    assert_eq!(never, invalid(AttesterSlashingInvalid::NoSlashableIndices));
}
