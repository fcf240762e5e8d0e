//! What holds of attester slashings as a whole.
use vstd::prelude::*;

use crate::attestation::{
    AttestationData, AttesterSlashing, BeaconState, Checkpoint, IndexedAttestation, Validator,
    VerifySignatures,
};
use crate::slashing::{
    ascending, first_unknown, get_slashable_indices, get_slashable_indices_modular, judged_result,
    knows_attesters, modular_result, slashable, slashable_indices_result,
    verify_attester_slashing, AttesterSlashingInvalid, BlockOperationError, SlashingResult,
};

verus! {

/// Double voting is mutual.
pub proof fn double_vote_is_symmetric(a: AttestationData, b: AttestationData)
    ensures
        a.double_votes(b) == b.double_votes(a),
{
}

/// No vote contradicts itself.
pub proof fn no_vote_is_slashable_with_itself(a: AttestationData)
    ensures
        !a.slashable_with(a),
{
}

/// Two votes are at most one of: a double vote, the first surrounding the second, the second
/// surrounding the first. In that last case the evidence has to name the votes the other way round.
pub proof fn slashable_offences_exclude_each_other(a: AttestationData, b: AttestationData)
    ensures
        !(a.double_votes(b) && a.surrounds(b)),
        !(a.surrounds(b) && b.surrounds(a)),
        a.surrounds(b) ==> !b.slashable_with(a),
{
}

/// A sequence in ascending order holds each of its values once, so its values determine it.
proof fn lemma_ascending_is_determined(a: Seq<u64>, b: Seq<u64>)
    requires
        ascending(a),
        ascending(b),
        forall|x: u64| #[trigger] a.contains(x) <==> b.contains(x),
    ensures
        a == b,
    decreases a.len(),
{
    if a.len() == 0 {
        if b.len() > 0 {
            assert(b.contains(b[0]) && a.contains(b[0]));
        }
    } else if b.len() == 0 {
        assert(a.contains(a[0]));
    } else {
        let last_a = a.last();
        let last_b = b.last();
        assert(a.contains(last_a) && a.contains(last_b)) by {
            assert(b[b.len() - 1] == last_b);
        }
        assert(last_a == last_b) by {
            let i = choose|i: int| 0 <= i < b.len() && b[i] == last_a;
            let j = choose|j: int| 0 <= j < a.len() && a[j] == last_b;
        }
        let rest_a = a.drop_last();
        let rest_b = b.drop_last();
        assert forall|x: u64| #[trigger] rest_a.contains(x) <==> rest_b.contains(x) by {
            if rest_a.contains(x) {
                let i = choose|i: int| 0 <= i < rest_a.len() && rest_a[i] == x;
                assert(a[i] == x);
                assert(a.contains(x));
                let j = choose|j: int| 0 <= j < b.len() && b[j] == x;
                assert(rest_b[j] == x);
            }
            if rest_b.contains(x) {
                let j = choose|j: int| 0 <= j < rest_b.len() && rest_b[j] == x;
                assert(b[j] == x);
                assert(a.contains(x));
                let i = choose|i: int| 0 <= i < a.len() && a[i] == x;
                assert(rest_a[i] == x);
            }
        }
        lemma_ascending_is_determined(rest_a, rest_b);
        assert(a =~= rest_a.push(last_a));
        assert(b =~= rest_b.push(last_b));
    }
}

/// The two outcomes are the same: the same indices in the same order, or the same error.
pub open spec fn same_outcome<E>(a: SlashingResult<E>, b: SlashingResult<E>) -> bool {
    match (a, b) {
        (Ok(indices_a), Ok(indices_b)) => indices_a@ == indices_b@,
        (Err(error_a), Err(error_b)) => error_a == error_b,
        _ => false,
    }
}

/// The state and the set of validators that signed both attestations decide what is slashed: the
/// order in which indices are listed and how often they are repeated do not matter.
pub proof fn outcome_depends_on_common_signers_alone<E>(
    state: BeaconState,
    slashing_a: AttesterSlashing,
    slashing_b: AttesterSlashing,
    a: SlashingResult<E>,
    b: SlashingResult<E>,
)
    requires
        forall|index: u64| #[trigger]
            slashing_a.attested_twice_by(index) <==> slashing_b.attested_twice_by(index),
        slashable_indices_result(state, slashing_a, a),
        slashable_indices_result(state, slashing_b, b),
    ensures
        same_outcome(a, b),
{
    assert(forall|index: u64| #[trigger]
        slashable(state, slashing_a, index) <==> slashable(state, slashing_b, index));
    if let Err(BlockOperationError::Invalid(AttesterSlashingInvalid::UnknownValidator(index)))
        = a {
        assert(slashing_b.attested_twice_by(index));
    }
    if let Err(BlockOperationError::Invalid(AttesterSlashingInvalid::UnknownValidator(index)))
        = b {
        assert(slashing_a.attested_twice_by(index));
    }
    match (a, b) {
        (Ok(indices_a), Ok(indices_b)) => {
            lemma_ascending_is_determined(indices_a@, indices_b@);
        },
        (Ok(indices), Err(_)) => {
            assert(indices@.contains(indices@[0]));
            assert(slashable(state, slashing_b, indices@[0]));
        },
        (Err(_), Ok(indices)) => {
            assert(indices@.contains(indices@[0]));
            assert(slashable(state, slashing_a, indices@[0]));
        },
        (Err(_), Err(_)) => {},
    }
}

/// It does not matter which of the two attestations is named first.
pub proof fn swapping_attestations_keeps_the_outcome<E>(
    state: BeaconState,
    slashing: AttesterSlashing,
    a: SlashingResult<E>,
    b: SlashingResult<E>,
)
    requires
        slashable_indices_result(state, slashing, a),
        slashable_indices_result(state, slashing.swapped(), b),
    ensures
        same_outcome(a, b),
{
    outcome_depends_on_common_signers_alone(state, slashing, slashing.swapped(), a, b);
}

/// A search by the criterion that a validator is slashable in the state's epoch is the plain
/// search.
pub proof fn modular_search_with_the_usual_criterion_is_the_plain_search<F, E>(
    state: BeaconState,
    slashing: AttesterSlashing,
    is_slashable: F,
    result: SlashingResult<E>,
) where F: Fn(u64, &Validator) -> bool
    requires
        forall|index: u64, verdict: bool| #[trigger]
            call_ensures(is_slashable, (index, &state.validator(index)), verdict) ==> verdict
                == state.validator(index).slashable_at(state.current_epoch),
        modular_result(state, slashing, is_slashable, result),
    ensures
        slashable_indices_result(state, slashing, result),
{
    match result {
        Ok(indices) => {
            assert forall|index: u64| #[trigger]
                indices@.contains(index) <==> slashable(state, slashing, index) by {
                if indices@.contains(index) || slashing.attested_twice_by(index) {
                    assert(slashing.attested_twice_by(index));
                }
            }
        },
        Err(_) => {},
    }
}

/// An accepted slashing names validators only, at least one and in ascending order, and each of
/// them signed both attestations and can be slashed.
pub proof fn accepted_slashing_names_slashable_validators<E>(
    state: BeaconState,
    slashing: AttesterSlashing,
    validity_1: Result<(), E>,
    validity_2: Result<(), E>,
    result: SlashingResult<E>,
)
    requires
        judged_result(state, slashing, validity_1, validity_2, result),
        result is Ok,
    ensures
        validity_1 is Ok,
        validity_2 is Ok,
        result->Ok_0@.len() > 0,
        ascending(result->Ok_0@),
        forall|i: int|
            0 <= i < result->Ok_0@.len() ==> slashable(
                state,
                slashing,
                #[trigger] result->Ok_0@[i],
            ),
{
    assert forall|i: int| 0 <= i < result->Ok_0@.len() implies slashable(
        state,
        slashing,
        #[trigger] result->Ok_0@[i],
    ) by {
        assert(result->Ok_0@.contains(result->Ok_0@[i]));
    }
}

/// The registry once the validators at `indices` have been slashed, and nothing else changed.
pub open spec fn slashed_since(before: BeaconState, after: BeaconState, indices: Seq<u64>) -> bool {
    &&& after.current_epoch == before.current_epoch
    &&& after.validators@.len() == before.validators@.len()
    &&& forall|index: u64| #[trigger]
        indices.contains(index) && before.knows(index) ==> after.validator(index).slashed
    &&& forall|index: u64|
        !#[trigger] indices.contains(index) && before.knows(index) ==> after.validator(index)
            == before.validator(index)
}

/// The same evidence does not slash a validator twice: once all the validators that it names have
/// been slashed, it names none.
pub proof fn a_slashing_applies_once<E>(
    before: BeaconState,
    after: BeaconState,
    slashing: AttesterSlashing,
    first: SlashingResult<E>,
    second: SlashingResult<E>,
)
    requires
        slashable_indices_result(before, slashing, first),
        first is Ok,
        slashed_since(before, after, first->Ok_0@),
        slashable_indices_result(after, slashing, second),
    ensures
        second == SlashingResult::<E>::Err(
            BlockOperationError::Invalid(AttesterSlashingInvalid::NoSlashableIndices),
        ),
{
    let indices = first->Ok_0@;
    assert(knows_attesters(before, slashing));
    assert forall|index: u64| !slashable(after, slashing, index) by {
        if slashable(after, slashing, index) {
            assert(before.knows(index));
            if !indices.contains(index) {
                assert(slashable(before, slashing, index));
            }
        }
    }
    match second {
        Ok(again) => {
            assert(again@.contains(again@[0]));
            assert(slashable(after, slashing, again@[0]));
        },
        Err(BlockOperationError::Invalid(AttesterSlashingInvalid::UnknownValidator(index))) => {
            assert(first_unknown(after, slashing, index));
            assert(before.knows(index));
        },
        Err(_) => {},
    }
}

/// `index` is listed by both attestations.
pub open spec fn listed_twice(slashing: AttesterSlashing, index: u64) -> bool {
    &&& exists|i: int|
        0 <= i < slashing.attestation_1.attesting_indices@.len()
            && #[trigger] slashing.attestation_1.attesting_indices@[i] == index
    &&& exists|j: int|
        0 <= j < slashing.attestation_2.attesting_indices@.len()
            && #[trigger] slashing.attestation_2.attesting_indices@[j] == index
}

/// The registry has an entry at the place that `index` stands for.
pub open spec fn registered(state: BeaconState, index: u64) -> bool {
    (index as usize) < state.validators@.len()
}

/// Nobody who is listed by both attestations is missing from the registry.
pub open spec fn all_registered(state: BeaconState, slashing: AttesterSlashing) -> bool {
    forall|index: u64| #[trigger] listed_twice(slashing, index) ==> registered(state, index)
}

/// `index` is registered, and its entry says that it has not been slashed, has been activated and
/// cannot withdraw yet. Whether it has exited does not matter.
pub open spec fn entry_can_be_slashed(state: BeaconState, index: u64) -> bool {
    let entry = state.validators@[index as usize as int];
    &&& registered(state, index)
    &&& entry.slashed == false
    &&& entry.activation_epoch <= state.current_epoch
    &&& state.current_epoch < entry.withdrawable_epoch
}

/// The error for `reason`.
pub open spec fn refused_for<E>(reason: AttesterSlashingInvalid<E>) -> SlashingResult<E> {
    Err(BlockOperationError::Invalid(reason))
}

/// The result is what the entries of the registry call for: all who are listed twice and whose
/// entry can be slashed, each once and in ascending order; or the lowest index that is listed twice
/// and not registered; or that there is nobody to slash.
pub open spec fn slashes_by_the_registry<E>(
    state: BeaconState,
    slashing: AttesterSlashing,
    result: SlashingResult<E>,
) -> bool {
    &&& result is Ok ==> {
        let indices = result->Ok_0@;
        &&& indices.len() >= 1
        &&& forall|i: int, j: int| 0 <= i < j < indices.len() ==> indices[i] < indices[j]
        &&& forall|i: int|
            0 <= i < indices.len() ==> listed_twice(slashing, #[trigger] indices[i])
                && entry_can_be_slashed(state, indices[i])
        &&& forall|index: u64| #[trigger]
            listed_twice(slashing, index) && entry_can_be_slashed(state, index)
                ==> exists|i: int| 0 <= i < indices.len() && #[trigger] indices[i] == index
    }
    &&& result is Ok <==> all_registered(state, slashing) && exists|index: u64| #[trigger]
        listed_twice(slashing, index) && entry_can_be_slashed(state, index)
    &&& result == refused_for::<E>(AttesterSlashingInvalid::NoSlashableIndices)
        <==> all_registered(state, slashing) && forall|index: u64| #[trigger]
        listed_twice(slashing, index) ==> !entry_can_be_slashed(state, index)
    &&& !all_registered(state, slashing) ==> exists|index: u64|
        result == #[trigger] refused_for::<E>(AttesterSlashingInvalid::UnknownValidator(index))
    &&& forall|index: u64|
        result == #[trigger] refused_for::<E>(AttesterSlashingInvalid::UnknownValidator(index))
            <==> {
            &&& listed_twice(slashing, index)
            &&& !registered(state, index)
            &&& forall|lower: u64| #[trigger]
                listed_twice(slashing, lower) && lower < index ==> registered(state, lower)
        }
}

/// The contract of the search, read off the registry.
proof fn lemma_search_reads_the_registry<E>(
    state: BeaconState,
    slashing: AttesterSlashing,
    result: SlashingResult<E>,
)
    requires
        slashable_indices_result(state, slashing, result),
    ensures
        slashes_by_the_registry(state, slashing, result),
{
    assert forall|index: u64| #[trigger]
        listed_twice(slashing, index) <==> slashing.attested_twice_by(index) by {}
    assert forall|index: u64| #[trigger] slashable(state, slashing, index) <==> listed_twice(
        slashing,
        index,
    ) && entry_can_be_slashed(state, index) by {}
    match result {
        Ok(indices) => {
            assert(indices@.contains(indices@[0]));
            assert(listed_twice(slashing, indices@[0]));
            assert forall|i: int| 0 <= i < indices@.len() implies listed_twice(
                slashing,
                #[trigger] indices@[i],
            ) && entry_can_be_slashed(state, indices@[i]) by {
                assert(indices@.contains(indices@[i]));
            }
            assert forall|index: u64| #[trigger]
                listed_twice(slashing, index) && entry_can_be_slashed(
                    state,
                    index,
                ) implies exists|i: int| 0 <= i < indices@.len() && #[trigger] indices@[i]
                == index by {
                assert(slashable(state, slashing, index));
                assert(indices@.contains(index));
            }
        },
        Err(BlockOperationError::Invalid(AttesterSlashingInvalid::UnknownValidator(index))) => {
            assert(listed_twice(slashing, index));
            assert(result == refused_for::<E>(AttesterSlashingInvalid::UnknownValidator(index)));
            assert forall|other: u64| listed_twice(slashing, other) && !registered(state, other)
                && (forall|lower: u64| #[trigger]
                listed_twice(slashing, lower) && lower < other ==> registered(
                    state,
                    lower,
                )) implies other == index by {
                assert(slashing.attested_twice_by(other));
            }
        },
        Err(_) => {
            assert forall|index: u64| #[trigger] listed_twice(slashing, index) implies registered(
                state,
                index,
            ) && !entry_can_be_slashed(state, index) by {
                assert(!slashable(state, slashing, index));
            }
        },
    }
}

/// Whom the search for slashable validators finds is decided by what the two attestations list and
/// by the entries of the registry: whether somebody has exited plays no part.
pub proof fn the_search_goes_by_the_registry<E>(
    state: BeaconState,
    slashing: AttesterSlashing,
    result: SlashingResult<E>,
)
    requires
        call_ensures(get_slashable_indices::<E>, (&state, &slashing), result),
    ensures
        slashes_by_the_registry(state, slashing, result),
{
    lemma_search_reads_the_registry(state, slashing, result);
}

/// Changing when validators exit, what they own or how they are named does not change whom the
/// search finds.
pub proof fn exits_do_not_protect_from_slashing<E>(
    before: BeaconState,
    after: BeaconState,
    slashing: AttesterSlashing,
    first: SlashingResult<E>,
    second: SlashingResult<E>,
)
    requires
        before.current_epoch == after.current_epoch,
        before.validators@.len() == after.validators@.len(),
        forall|i: int|
            #![trigger before.validators@[i]]
            #![trigger after.validators@[i]]
            0 <= i < before.validators@.len() ==> {
                &&& before.validators@[i].slashed == after.validators@[i].slashed
                &&& before.validators@[i].activation_epoch == after.validators@[i].activation_epoch
                &&& before.validators@[i].withdrawable_epoch
                    == after.validators@[i].withdrawable_epoch
            },
        call_ensures(get_slashable_indices::<E>, (&before, &slashing), first),
        call_ensures(get_slashable_indices::<E>, (&after, &slashing), second),
    ensures
        match (first, second) {
            (Ok(a), Ok(b)) => a@ == b@,
            (Err(a), Err(b)) => a == b,
            _ => false,
        },
{
    assert forall|index: u64| #[trigger]
        slashable(before, slashing, index) <==> slashable(after, slashing, index) by {
        let place = index as usize as int;
        if 0 <= place < before.validators@.len() {
            assert(before.validators@[place].slashed == after.validators@[place].slashed);
        }
    }
    lemma_search_reads_the_registry(before, slashing, first);
    lemma_search_reads_the_registry(after, slashing, second);
    assert forall|index: u64| #[trigger] listed_twice(slashing, index) implies registered(
        before,
        index,
    ) == registered(after, index) && entry_can_be_slashed(before, index) == entry_can_be_slashed(
        after,
        index,
    ) by {
        let place = index as usize as int;
        if 0 <= place < before.validators@.len() {
            assert(before.validators@[place].slashed == after.validators@[place].slashed);
        }
    }
    assert(all_registered(before, slashing) == all_registered(after, slashing)) by {
        if all_registered(before, slashing) {
            assert(forall|index: u64| #[trigger]
                listed_twice(slashing, index) ==> registered(after, index));
        }
        if all_registered(after, slashing) {
            assert(forall|index: u64| #[trigger]
                listed_twice(slashing, index) ==> registered(before, index));
        }
    }
    match (first, second) {
        (Ok(a), Ok(b)) => {
            lemma_ascending_is_determined(a@, b@);
        },
        _ => {
            if let Err(BlockOperationError::Invalid(AttesterSlashingInvalid::UnknownValidator(i)))
                = first {
                assert(first == refused_for::<E>(AttesterSlashingInvalid::UnknownValidator(i)));
                assert(second == refused_for::<E>(AttesterSlashingInvalid::UnknownValidator(i)));
            }
        },
    }
}

/// With a criterion of the caller's own, those are found who are listed twice and meet it.
pub proof fn the_modular_search_goes_by_the_criterion<F, E>(
    state: BeaconState,
    slashing: AttesterSlashing,
    is_slashable: F,
    criterion: spec_fn(u64, Validator) -> bool,
    result: SlashingResult<E>,
) where F: Fn(u64, &Validator) -> bool
    requires
        forall|index: u64, validator: Validator, verdict: bool| #[trigger]
            call_ensures(is_slashable, (index, &validator), verdict) ==> verdict == criterion(
                index,
                validator,
            ),
        call_ensures(
            get_slashable_indices_modular::<F, E>,
            (&state, &slashing, is_slashable),
            result,
        ),
    ensures
        result is Ok ==> {
            let indices = result->Ok_0@;
            &&& all_registered(state, slashing)
            &&& indices.len() >= 1
            &&& forall|i: int, j: int| 0 <= i < j < indices.len() ==> indices[i] < indices[j]
            &&& forall|index: u64| #[trigger]
                listed_twice(slashing, index) && criterion(
                    index,
                    state.validators@[index as usize as int],
                ) <==> indices.contains(index)
        },
        result == refused_for::<E>(AttesterSlashingInvalid::NoSlashableIndices) ==> {
            &&& all_registered(state, slashing)
            &&& forall|index: u64| #[trigger]
                listed_twice(slashing, index) ==> !criterion(
                    index,
                    state.validators@[index as usize as int],
                )
        },
        !all_registered(state, slashing) ==> exists|index: u64|
            {
                &&& result == #[trigger] refused_for::<E>(
                    AttesterSlashingInvalid::UnknownValidator(index),
                )
                &&& listed_twice(slashing, index)
                &&& !registered(state, index)
                &&& forall|lower: u64| #[trigger]
                    listed_twice(slashing, lower) && lower < index ==> registered(state, lower)
            },
        all_registered(state, slashing) ==> result is Ok || result == refused_for::<E>(
            AttesterSlashingInvalid::NoSlashableIndices,
        ),
{
    assert forall|index: u64| #[trigger]
        listed_twice(slashing, index) <==> slashing.attested_twice_by(index) by {}
    match result {
        Ok(indices) => {
            assert forall|index: u64| #[trigger]
                listed_twice(slashing, index) && criterion(
                    index,
                    state.validators@[index as usize as int],
                ) <==> indices@.contains(index) by {
                if listed_twice(slashing, index) {
                    assert(slashing.attested_twice_by(index));
                }
                if indices@.contains(index) {
                    assert(slashing.attested_twice_by(index));
                    assert(listed_twice(slashing, index));
                }
            }
        },
        Err(BlockOperationError::Invalid(AttesterSlashingInvalid::UnknownValidator(index))) => {
            assert(listed_twice(slashing, index));
            assert(result == refused_for::<E>(AttesterSlashingInvalid::UnknownValidator(index)));
        },
        Err(_) => {
            assert forall|index: u64| #[trigger] listed_twice(slashing, index) implies !criterion(
                index,
                state.validators@[index as usize as int],
            ) by {
                assert(slashing.attested_twice_by(index));
            }
        },
    }
}

/// The epochs of two votes are nested: the first reaches further at both ends.
pub open spec fn epochs_enclose(a: AttestationData, b: AttestationData) -> bool {
    a.source.epoch < b.source.epoch && b.target.epoch < a.target.epoch
}

/// Two votes for one target epoch differ in something.
pub open spec fn one_target_two_votes(a: AttestationData, b: AttestationData) -> bool {
    &&& a.target.epoch == b.target.epoch
    &&& {
        ||| a.slot != b.slot
        ||| a.index != b.index
        ||| a.beacon_block_root.bytes@ != b.beacon_block_root.bytes@
        ||| a.source.epoch != b.source.epoch
        ||| a.source.root.bytes@ != b.source.root.bytes@
        ||| a.target.root.bytes@ != b.target.root.bytes@
    }
}

/// Data whose fields are all equal is equal.
proof fn lemma_votes_differ_in_a_field(a: AttestationData, b: AttestationData)
    requires
        a.target.epoch == b.target.epoch,
    ensures
        one_target_two_votes(a, b) <==> a != b,
{
    if !one_target_two_votes(a, b) {
        assert(a.beacon_block_root.bytes =~= b.beacon_block_root.bytes);
        assert(a.source.root.bytes =~= b.source.root.bytes);
        assert(a.target.root.bytes =~= b.target.root.bytes);
    }
}

/// The verdicts by which conflicting votes were judged.
proof fn lemma_verdicts<C, E, V>(
    state: BeaconState,
    slashing: AttesterSlashing,
    verify_signatures: VerifySignatures,
    spec: C,
    is_valid: V,
    result: SlashingResult<E>,
) -> (verdicts: (Result<(), E>, Result<(), E>)) where
    V: Fn(&BeaconState, &IndexedAttestation, VerifySignatures, &C) -> Result<(), E>,

    requires
        call_ensures(
            verify_attester_slashing::<C, E, V>,
            (&state, &slashing, verify_signatures, &spec, is_valid),
            result,
        ),
        epochs_enclose(slashing.attestation_1.data, slashing.attestation_2.data)
            || one_target_two_votes(slashing.attestation_1.data, slashing.attestation_2.data),
    ensures
        call_ensures(
            is_valid,
            (&state, &slashing.attestation_1, verify_signatures, &spec),
            verdicts.0,
        ),
        verdicts.0 is Ok ==> call_ensures(
            is_valid,
            (&state, &slashing.attestation_2, verify_signatures, &spec),
            verdicts.1,
        ),
        match verdicts {
            (Err(e), _) => result == refused_for(
                AttesterSlashingInvalid::IndexedAttestation1Invalid(e),
            ),
            (Ok(_), Err(e)) => result == refused_for(
                AttesterSlashingInvalid::IndexedAttestation2Invalid(e),
            ),
            (Ok(_), Ok(_)) => slashes_by_the_registry(state, slashing, result),
        },
{
    let a = slashing.attestation_1.data;
    let b = slashing.attestation_2.data;
    if a.target.epoch == b.target.epoch {
        lemma_votes_differ_in_a_field(a, b);
    }
    let (validity_1, validity_2) = choose|validity_1: Result<(), E>, validity_2: Result<(), E>|
        {
            &&& call_ensures(
                is_valid,
                (&state, &slashing.attestation_1, verify_signatures, &spec),
                validity_1,
            )
            &&& validity_1 is Ok ==> call_ensures(
                is_valid,
                (&state, &slashing.attestation_2, verify_signatures, &spec),
                validity_2,
            )
            &&& #[trigger] judged_result(state, slashing, validity_1, validity_2, result)
        };
    assert(judged_result(state, slashing, validity_1, validity_2, result));
    if validity_1 is Ok && validity_2 is Ok {
        lemma_search_reads_the_registry(state, slashing, result);
    }
    (validity_1, validity_2)
}

/// A slashing is turned down for its votes exactly if their epochs are not nested and they are not
/// two votes for one target. Whatever else the votes say, such as their slots, does not matter to
/// nested epochs.
pub proof fn conflicting_votes_are_told_by_their_epochs<C, E, V>(
    state: BeaconState,
    slashing: AttesterSlashing,
    verify_signatures: VerifySignatures,
    spec: C,
    is_valid: V,
    result: SlashingResult<E>,
) where V: Fn(&BeaconState, &IndexedAttestation, VerifySignatures, &C) -> Result<(), E>
    requires
        call_ensures(
            verify_attester_slashing::<C, E, V>,
            (&state, &slashing, verify_signatures, &spec, is_valid),
            result,
        ),
    ensures
        result == refused_for::<E>(AttesterSlashingInvalid::NotSlashable) <==> !epochs_enclose(
            slashing.attestation_1.data,
            slashing.attestation_2.data,
        ) && !one_target_two_votes(slashing.attestation_1.data, slashing.attestation_2.data),
{
    let a = slashing.attestation_1.data;
    let b = slashing.attestation_2.data;
    if a.target.epoch == b.target.epoch {
        lemma_votes_differ_in_a_field(a, b);
    }
    if epochs_enclose(a, b) || one_target_two_votes(a, b) {
        let verdicts = lemma_verdicts(
            state,
            slashing,
            verify_signatures,
            spec,
            is_valid,
            result,
        );
    }
}

/// Once the votes conflict, the first attestation found invalid decides, and if both are valid the
/// registry does.
pub proof fn conflicting_votes_are_judged_in_turn<C, E, V>(
    state: BeaconState,
    slashing: AttesterSlashing,
    verify_signatures: VerifySignatures,
    spec: C,
    is_valid: V,
    verdict: spec_fn(IndexedAttestation) -> Result<(), E>,
    result: SlashingResult<E>,
) where V: Fn(&BeaconState, &IndexedAttestation, VerifySignatures, &C) -> Result<(), E>
    requires
        forall|attestation: IndexedAttestation, given: Result<(), E>| #[trigger]
            call_ensures(is_valid, (&state, &attestation, verify_signatures, &spec), given)
                ==> given == verdict(attestation),
        call_ensures(
            verify_attester_slashing::<C, E, V>,
            (&state, &slashing, verify_signatures, &spec, is_valid),
            result,
        ),
        epochs_enclose(slashing.attestation_1.data, slashing.attestation_2.data)
            || one_target_two_votes(slashing.attestation_1.data, slashing.attestation_2.data),
    ensures
        match (verdict(slashing.attestation_1), verdict(slashing.attestation_2)) {
            (Err(e), _) => result == refused_for(
                AttesterSlashingInvalid::IndexedAttestation1Invalid(e),
            ),
            (Ok(_), Err(e)) => result == refused_for(
                AttesterSlashingInvalid::IndexedAttestation2Invalid(e),
            ),
            (Ok(_), Ok(_)) => slashes_by_the_registry(state, slashing, result),
        },
{
    let verdicts = lemma_verdicts(state, slashing, verify_signatures, spec, is_valid, result);
}

/// Valid attestations with nested epochs slash every registered validator that signed both and can
/// be slashed, whatever the slots, committees and roots of the votes.
pub proof fn a_surround_vote_slashes_its_signers<C, E, V>(
    state: BeaconState,
    slashing: AttesterSlashing,
    verify_signatures: VerifySignatures,
    spec: C,
    is_valid: V,
    index: u64,
    result: SlashingResult<E>,
) where V: Fn(&BeaconState, &IndexedAttestation, VerifySignatures, &C) -> Result<(), E>
    requires
        call_ensures(
            verify_attester_slashing::<C, E, V>,
            (&state, &slashing, verify_signatures, &spec, is_valid),
            result,
        ),
        forall|attestation: IndexedAttestation, given: Result<(), E>| #[trigger]
            call_ensures(is_valid, (&state, &attestation, verify_signatures, &spec), given)
                ==> given is Ok,
        slashing.attestation_1.data.source.epoch < slashing.attestation_2.data.source.epoch,
        slashing.attestation_2.data.target.epoch < slashing.attestation_1.data.target.epoch,
        all_registered(state, slashing),
        listed_twice(slashing, index),
        entry_can_be_slashed(state, index),
    ensures
        result is Ok,
        result->Ok_0@.contains(index),
{
    let verdicts = lemma_verdicts(state, slashing, verify_signatures, spec, is_valid, result);
}

/// The same for two different votes with one target epoch.
pub proof fn a_double_vote_slashes_its_signers<C, E, V>(
    state: BeaconState,
    slashing: AttesterSlashing,
    verify_signatures: VerifySignatures,
    spec: C,
    is_valid: V,
    index: u64,
    result: SlashingResult<E>,
) where V: Fn(&BeaconState, &IndexedAttestation, VerifySignatures, &C) -> Result<(), E>
    requires
        call_ensures(
            verify_attester_slashing::<C, E, V>,
            (&state, &slashing, verify_signatures, &spec, is_valid),
            result,
        ),
        forall|attestation: IndexedAttestation, given: Result<(), E>| #[trigger]
            call_ensures(is_valid, (&state, &attestation, verify_signatures, &spec), given)
                ==> given is Ok,
        one_target_two_votes(slashing.attestation_1.data, slashing.attestation_2.data),
        all_registered(state, slashing),
        listed_twice(slashing, index),
        entry_can_be_slashed(state, index),
    ensures
        result is Ok,
        result->Ok_0@.contains(index),
{
    let verdicts = lemma_verdicts(state, slashing, verify_signatures, spec, is_valid, result);
}

/// How single votes, validators and entries are told apart.
pub proof fn votes_and_entries_are_read_by_their_fields(
    a: IndexedAttestation,
    b: IndexedAttestation,
    double: bool,
    surround: bool,
    validator: Validator,
    epoch: u64,
    can_be_slashed: bool,
    state: BeaconState,
    index: u64,
    entry: Option<&Validator>,
)
    requires
        call_ensures(IndexedAttestation::is_double_vote, (&a, &b), double),
        call_ensures(IndexedAttestation::is_surround_vote, (&a, &b), surround),
        call_ensures(Validator::is_slashable_at, (&validator, epoch), can_be_slashed),
        call_ensures(BeaconState::get_validator, (&state, index), entry),
    ensures
        double == one_target_two_votes(a.data, b.data),
        surround == epochs_enclose(a.data, b.data),
        can_be_slashed == (!validator.slashed && validator.activation_epoch <= epoch && epoch
            < validator.withdrawable_epoch),
        match entry {
            Some(found) => registered(state, index) && *found
                == state.validators@[index as usize as int],
            None => !registered(state, index),
        },
{
    if a.data.target.epoch == b.data.target.epoch {
        lemma_votes_differ_in_a_field(a.data, b.data);
    }
}

/// Two votes are equal exactly if all their fields are, and so are two checkpoints. An error carries
/// the reason that it was made for.
pub proof fn votes_are_compared_field_by_field<R>(
    a: AttestationData,
    b: AttestationData,
    votes_equal: bool,
    c: Checkpoint,
    d: Checkpoint,
    checkpoints_equal: bool,
    reason: R,
    error: BlockOperationError<R>,
)
    requires
        call_ensures(AttestationData::eq, (&a, &b), votes_equal),
        call_ensures(Checkpoint::eq, (&c, &d), checkpoints_equal),
        call_ensures(BlockOperationError::<R>::invalid, (reason,), error),
    ensures
        votes_equal <==> {
            &&& a.slot == b.slot
            &&& a.index == b.index
            &&& a.beacon_block_root.bytes@ == b.beacon_block_root.bytes@
            &&& a.source.epoch == b.source.epoch
            &&& a.source.root.bytes@ == b.source.root.bytes@
            &&& a.target.epoch == b.target.epoch
            &&& a.target.root.bytes@ == b.target.root.bytes@
        },
        checkpoints_equal <==> c.epoch == d.epoch && c.root.bytes@ == d.root.bytes@,
        error matches BlockOperationError::Invalid(held) && held == reason,
{
    if a.target.epoch == b.target.epoch {
        lemma_votes_differ_in_a_field(a, b);
    }
    if c.root.bytes@ == d.root.bytes@ {
        assert(c.root.bytes =~= d.root.bytes);
    }
}

} // verus!
