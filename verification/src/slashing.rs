//! Checking an attester slashing and finding the validators it can slash.
use vstd::prelude::*;
use std::collections::BTreeSet;
use vstd::std_specs::cmp::OrdSpec;
use vstd::std_specs::iter::IteratorSpec;

use crate::attestation::{
    AttesterSlashing, BeaconState, IndexedAttestation, Validator, VerifySignatures,
};

verus! {

/// Why a block operation was turned down.
#[derive(PartialEq, Eq, Debug)]
pub enum BlockOperationError<R> {
    Invalid(R),
}

impl<R> BlockOperationError<R> {
    /// The error for an operation that is invalid for `reason`.
    pub fn invalid(reason: R) -> (r: Self)
        ensures
            r == BlockOperationError::Invalid(reason),
    {
        BlockOperationError::Invalid(reason)
    }
}

/// Why an attester slashing is invalid. `E` is the reason why an indexed attestation is.
#[derive(PartialEq, Eq, Debug)]
pub enum AttesterSlashingInvalid<E> {
    /// The two votes do not contradict each other.
    NotSlashable,
    /// The first attestation is invalid in itself.
    IndexedAttestation1Invalid(E),
    /// The second attestation is invalid in itself.
    IndexedAttestation2Invalid(E),
    /// A validator signed both attestations and the registry does not know it.
    UnknownValidator(u64),
    /// No validator that signed both attestations can be slashed.
    NoSlashableIndices,
}

/// The outcome of checking an attester slashing.
pub type SlashingResult<E> = Result<Vec<u64>, BlockOperationError<AttesterSlashingInvalid<E>>>;

fn error<E>(reason: AttesterSlashingInvalid<E>) -> (r: BlockOperationError<
    AttesterSlashingInvalid<E>,
>)
    ensures
        r == BlockOperationError::Invalid(reason),
{
    BlockOperationError::invalid(reason)
}

/// Every value is greater than those before it.
pub open spec fn ascending(indices: Seq<u64>) -> bool {
    forall|i: int, j: int| 0 <= i < j < indices.len() ==> indices[i] < indices[j]
}

/// The registry knows every validator below `limit` that signed both attestations.
pub open spec fn knows_attesters_below(
    state: BeaconState,
    slashing: AttesterSlashing,
    limit: int,
) -> bool {
    forall|index: u64| #[trigger]
        slashing.attested_twice_by(index) && index < limit ==> state.knows(index)
}

/// The registry knows every validator that signed both attestations.
pub open spec fn knows_attesters(state: BeaconState, slashing: AttesterSlashing) -> bool {
    forall|index: u64| #[trigger] slashing.attested_twice_by(index) ==> state.knows(index)
}

/// `index` is the lowest one that signed both attestations and that the registry does not know.
pub open spec fn first_unknown(state: BeaconState, slashing: AttesterSlashing, index: u64) -> bool {
    &&& slashing.attested_twice_by(index)
    &&& !state.knows(index)
    &&& knows_attesters_below(state, slashing, index as int)
}

/// A validator that signed both attestations and can be slashed in the state's epoch.
pub open spec fn slashable(state: BeaconState, slashing: AttesterSlashing, index: u64) -> bool {
    &&& slashing.attested_twice_by(index)
    &&& state.knows(index)
    &&& state.validator(index).slashable_at(state.current_epoch)
}

/// What the search for slashable validators returns.
pub open spec fn slashable_indices_result<E>(
    state: BeaconState,
    slashing: AttesterSlashing,
    result: SlashingResult<E>,
) -> bool {
    match result {
        Ok(indices) => {
            &&& knows_attesters(state, slashing)
            &&& indices@.len() > 0
            &&& ascending(indices@)
            &&& forall|index: u64| #[trigger]
                indices@.contains(index) <==> slashable(state, slashing, index)
        },
        Err(BlockOperationError::Invalid(AttesterSlashingInvalid::UnknownValidator(index))) => {
            first_unknown(state, slashing, index)
        },
        Err(BlockOperationError::Invalid(AttesterSlashingInvalid::NoSlashableIndices)) => {
            &&& knows_attesters(state, slashing)
            &&& forall|index: u64| !#[trigger] slashable(state, slashing, index)
        },
        Err(_) => false,
    }
}

/// What the search returns when the caller says which validators are slashable: each index that
/// signed both attestations is in the result if the criterion held for it, and left out if not.
pub open spec fn modular_result<F, E>(
    state: BeaconState,
    slashing: AttesterSlashing,
    is_slashable: F,
    result: SlashingResult<E>,
) -> bool where F: Fn(u64, &Validator) -> bool {
    match result {
        Ok(indices) => {
            &&& knows_attesters(state, slashing)
            &&& indices@.len() > 0
            &&& ascending(indices@)
            &&& forall|index: u64| #[trigger]
                indices@.contains(index) ==> slashing.attested_twice_by(index)
            &&& forall|index: u64| #[trigger]
                slashing.attested_twice_by(index) ==> call_ensures(
                    is_slashable,
                    (index, &state.validator(index)),
                    indices@.contains(index),
                )
        },
        Err(BlockOperationError::Invalid(AttesterSlashingInvalid::UnknownValidator(index))) => {
            first_unknown(state, slashing, index)
        },
        Err(BlockOperationError::Invalid(AttesterSlashingInvalid::NoSlashableIndices)) => {
            &&& knows_attesters(state, slashing)
            &&& forall|index: u64| #[trigger]
                slashing.attested_twice_by(index) ==> call_ensures(
                    is_slashable,
                    (index, &state.validator(index)),
                    false,
                )
        },
        Err(_) => false,
    }
}

/// The attesting indices as a set.
fn index_set(indices: &Vec<u64>) -> (set: BTreeSet<u64>)
    ensures
        forall|index: u64| #[trigger] set@.contains(index) <==> indices@.contains(index),
{
    broadcast use {
        vstd::std_specs::btree::group_btree_axioms,
        vstd::laws_cmp::group_laws_cmp,
    };

    let mut set: BTreeSet<u64> = BTreeSet::new();
    let mut i: usize = 0;
    while i < indices.len()
        invariant
            i <= indices.len(),
            forall|index: u64| #[trigger]
                set@.contains(index) <==> exists|j: int| 0 <= j < i && indices@[j] == index,
        decreases indices.len() - i,
    {
        set.insert(indices[i]);
        i = i + 1;
    }
    set
}

/// A set of indices is walked in ascending order.
proof fn lemma_walk_ascends(set: &BTreeSet<u64>)
    ensures
        forall|i: int, j: int|
            0 <= i < j < set.iter().remaining().len() ==> *set.iter().remaining()[i]
                < *set.iter().remaining()[j],
{
    broadcast use {
        vstd::std_specs::btree::group_btree_axioms,
        vstd::laws_cmp::group_laws_cmp,
    };

    let walk = set.iter().remaining();
    assert(vstd::laws_cmp::obeys_cmp::<&u64>());
    assert(vstd::std_specs::btree::increasing_seq(walk));
    assert forall|i: int, j: int| 0 <= i < j < walk.len() implies *walk[i] < *walk[j] by {
        assert(OrdSpec::cmp_spec(&walk[i], &walk[j]) is Less);
    }
}

/// The values that are in both sets, in ascending order.
fn intersection(left: &BTreeSet<u64>, right: &BTreeSet<u64>) -> (both: Vec<u64>)
    ensures
        ascending(both@),
        forall|index: u64| #[trigger]
            both@.contains(index) <==> left@.contains(index) && right@.contains(index),
{
    broadcast use {
        vstd::std_specs::btree::group_btree_axioms,
        vstd::laws_cmp::group_laws_cmp,
    };

    let mut both: Vec<u64> = Vec::new();
    let ghost walk = left.iter().remaining();
    proof {
        lemma_walk_ascends(left);
    }
    for index in it: left.iter()
        invariant
            it.seq() == walk,
            walk.unref().to_set() == left@,
            forall|i: int, j: int| 0 <= i < j < walk.len() ==> *walk[i] < *walk[j],
            ascending(both@),
            forall|i: int, j: int|
                0 <= i < both@.len() && it.index() <= j < walk.len() ==> both@[i] < *walk[j],
            forall|i: int|
                0 <= i < both@.len() ==> left@.contains(#[trigger] both@[i]) && right@.contains(
                    both@[i],
                ),
            forall|j: int|
                0 <= j < it.index() && right@.contains(*walk[j]) ==> both@.contains(
                    *#[trigger] walk[j],
                ),
    {
        let ghost before = both@;
        assert(walk.unref()[it.index()] == *index);
        if right.contains(index) {
            both.push(*index);
            assert(both@.last() == *index);
            assert forall|j: int|
                0 <= j <= it.index() && right@.contains(*walk[j]) implies both@.contains(
                *#[trigger] walk[j],
            ) by {
                if j < it.index() {
                    let k = choose|k: int| 0 <= k < before.len() && before[k] == *walk[j];
                    assert(both@[k] == *walk[j]);
                }
            }
        }
    }
    assert forall|index: u64| #[trigger]
        both@.contains(index) <==> left@.contains(index) && right@.contains(index) by {
        if left@.contains(index) && right@.contains(index) {
            assert(walk.unref().contains(index));
            let j = choose|j: int| 0 <= j < walk.unref().len() && walk.unref()[j] == index;
            assert(*walk[j] == index);
        }
    }
    both
}

/// What checking a slashing returns once the votes are known to contradict each other, for each
/// verdict on the two attestations. The second verdict counts only where the first is favourable.
pub open spec fn judged_result<E>(
    state: BeaconState,
    slashing: AttesterSlashing,
    validity_1: Result<(), E>,
    validity_2: Result<(), E>,
    result: SlashingResult<E>,
) -> bool {
    match validity_1 {
        Err(e) => result == SlashingResult::<E>::Err(
            BlockOperationError::Invalid(AttesterSlashingInvalid::IndexedAttestation1Invalid(e)),
        ),
        Ok(_) => match validity_2 {
            Err(e) => result == SlashingResult::<E>::Err(
                BlockOperationError::Invalid(
                    AttesterSlashingInvalid::IndexedAttestation2Invalid(e),
                ),
            ),
            Ok(_) => slashable_indices_result(state, slashing, result),
        },
    }
}

/// Indicates if an attester slashing may be included in a block in the current epoch of the given
/// state.
///
/// Returns the indices of the validators to slash, at least one and in ascending order, if it
/// may, and the reason for its invalidity otherwise. `is_valid_indexed_attestation` judges a
/// single attestation; it is asked only about attestations whose votes contradict each other, and
/// about the second one only if the first is valid.
pub fn verify_attester_slashing<C, E, V>(
    state: &BeaconState,
    attester_slashing: &AttesterSlashing,
    verify_signatures: VerifySignatures,
    spec: &C,
    is_valid_indexed_attestation: V,
) -> (result: SlashingResult<E>) where
    V: Fn(&BeaconState, &IndexedAttestation, VerifySignatures, &C) -> Result<(), E>,

    requires
        attester_slashing.attestation_1.data.slashable_with(attester_slashing.attestation_2.data)
            ==> call_requires(
            is_valid_indexed_attestation,
            (state, &attester_slashing.attestation_1, verify_signatures, spec),
        ),
        attester_slashing.attestation_1.data.slashable_with(attester_slashing.attestation_2.data)
            ==> call_requires(
            is_valid_indexed_attestation,
            (state, &attester_slashing.attestation_2, verify_signatures, spec),
        ),
    ensures
        !attester_slashing.attestation_1.data.slashable_with(attester_slashing.attestation_2.data)
            ==> result == SlashingResult::<E>::Err(
            BlockOperationError::Invalid(AttesterSlashingInvalid::NotSlashable),
        ),
        attester_slashing.attestation_1.data.slashable_with(attester_slashing.attestation_2.data)
            ==> exists|validity_1: Result<(), E>, validity_2: Result<(), E>|
            {
                &&& call_ensures(
                    is_valid_indexed_attestation,
                    (state, &attester_slashing.attestation_1, verify_signatures, spec),
                    validity_1,
                )
                &&& validity_1 is Ok ==> call_ensures(
                    is_valid_indexed_attestation,
                    (state, &attester_slashing.attestation_2, verify_signatures, spec),
                    validity_2,
                )
                &&& #[trigger] judged_result(
                    *state,
                    *attester_slashing,
                    validity_1,
                    validity_2,
                    result,
                )
            },
{
    let attestation_1 = &attester_slashing.attestation_1;
    let attestation_2 = &attester_slashing.attestation_2;

    if !(attestation_1.is_double_vote(attestation_2) || attestation_1.is_surround_vote(
        attestation_2,
    )) {
        return Err(error(AttesterSlashingInvalid::NotSlashable));
    }
    let validity_1 = is_valid_indexed_attestation(state, attestation_1, verify_signatures, spec);
    let ghost verdict_1 = validity_1;
    if let Err(e) = validity_1 {
        let result: SlashingResult<E> = Err(
            error(AttesterSlashingInvalid::IndexedAttestation1Invalid(e)),
        );
        assert(judged_result(*state, *attester_slashing, verdict_1, verdict_1, result));
        return result;
    }
    let validity_2 = is_valid_indexed_attestation(state, attestation_2, verify_signatures, spec);
    let ghost verdict_2 = validity_2;
    if let Err(e) = validity_2 {
        let result: SlashingResult<E> = Err(
            error(AttesterSlashingInvalid::IndexedAttestation2Invalid(e)),
        );
        assert(judged_result(*state, *attester_slashing, verdict_1, verdict_2, result));
        return result;
    }
    let result: SlashingResult<E> = get_slashable_indices(state, attester_slashing);
    assert(judged_result(*state, *attester_slashing, verdict_1, verdict_2, result));
    result
}

/// For a given attester slashing, return the indices able to be slashed in ascending order.
///
/// Returns an error, and never an empty list, if there is none.
pub fn get_slashable_indices<E>(
    state: &BeaconState,
    attester_slashing: &AttesterSlashing,
) -> (result: SlashingResult<E>)
    ensures
        slashable_indices_result(*state, *attester_slashing, result),
{
    let current_epoch = state.current_epoch;
    let is_slashable = |_index: u64, validator: &Validator| -> (r: bool)
        ensures
            r == validator.slashable_at(current_epoch),
        {
            validator.is_slashable_at(current_epoch)
        };
    let result: SlashingResult<E> = get_slashable_indices_modular(
        state,
        attester_slashing,
        is_slashable,
    );
    result
}

/// Same as `get_slashable_indices` but allows the caller to specify the criteria for determining
/// whether a given validator should be considered slashable.
pub fn get_slashable_indices_modular<F, E>(
    state: &BeaconState,
    attester_slashing: &AttesterSlashing,
    is_slashable: F,
) -> (result: SlashingResult<E>) where F: Fn(u64, &Validator) -> bool
    requires
        forall|index: u64| #[trigger]
            attester_slashing.attested_twice_by(index) && state.knows(index) ==> call_requires(
                is_slashable,
                (index, &state.validator(index)),
            ),
    ensures
        modular_result(*state, *attester_slashing, is_slashable, result),
{
    let attesting_indices_1 = index_set(&attester_slashing.attestation_1.attesting_indices);
    let attesting_indices_2 = index_set(&attester_slashing.attestation_2.attesting_indices);
    let common = intersection(&attesting_indices_1, &attesting_indices_2);
    assert(forall|index: u64| #[trigger]
        attester_slashing.attested_twice_by(index) <==> common@.contains(index));

    let mut slashable_indices: Vec<u64> = Vec::new();
    let mut i: usize = 0;
    while i < common.len()
        invariant
            i <= common.len(),
            ascending(common@),
            ascending(slashable_indices@),
            forall|index: u64| #[trigger]
                attester_slashing.attested_twice_by(index) <==> common@.contains(index),
            forall|index: u64| #[trigger]
                attester_slashing.attested_twice_by(index) && state.knows(index) ==> call_requires(
                    is_slashable,
                    (index, &state.validator(index)),
                ),
            forall|j: int| 0 <= j < i ==> state.knows(#[trigger] common@[j]),
            forall|k: int, j: int|
                0 <= k < slashable_indices@.len() && i <= j < common@.len()
                    ==> slashable_indices@[k] < common@[j],
            forall|k: int|
                0 <= k < slashable_indices@.len() ==> common@.contains(
                    #[trigger] slashable_indices@[k],
                ),
            forall|j: int|
                0 <= j < i ==> call_ensures(
                    is_slashable,
                    (#[trigger] common@[j], &state.validator(common@[j])),
                    slashable_indices@.contains(common@[j]),
                ),
        decreases common.len() - i,
    {
        let index = common[i];
        assert(attester_slashing.attested_twice_by(index));
        match state.get_validator(index) {
            None => {
                assert(knows_attesters_below(*state, *attester_slashing, index as int));
                return Err(error(AttesterSlashingInvalid::UnknownValidator(index)));
            },
            Some(validator) => {
                let ghost before = slashable_indices@;
                if is_slashable(index, validator) {
                    slashable_indices.push(index);
                    assert(slashable_indices@.last() == index);
                }
                assert forall|j: int| 0 <= j < i implies slashable_indices@.contains(
                    #[trigger] common@[j],
                ) == before.contains(common@[j]) by {
                    assert(common@[j] < index);
                    if before.contains(common@[j]) {
                        let k = choose|k: int| 0 <= k < before.len() && before[k] == common@[j];
                        assert(slashable_indices@[k] == common@[j]);
                    }
                }
            },
        }
        i = i + 1;
    }
    if slashable_indices.is_empty() {
        return Err(error(AttesterSlashingInvalid::NoSlashableIndices));
    }
    Ok(slashable_indices)
}

} // verus!
