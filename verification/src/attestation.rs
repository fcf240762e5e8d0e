//! Attestations, validators and the state that an attester slashing is checked against.
use vstd::prelude::*;

use crate::hash::Hash256;

verus! {

/// A vote's reference to the boundary block of an epoch.
#[derive(Clone, Copy, Eq, Debug)]
pub struct Checkpoint {
    pub epoch: u64,
    pub root: Hash256,
}

impl PartialEq for Checkpoint {
    fn eq(&self, other: &Self) -> (r: bool) {
        self.epoch == other.epoch && self.root == other.root
    }
}

impl vstd::std_specs::cmp::PartialEqSpecImpl for Checkpoint {
    open spec fn obeys_eq_spec() -> bool {
        true
    }

    open spec fn eq_spec(&self, other: &Self) -> bool {
        *self == *other
    }
}

/// What an attestation votes for.
#[derive(Clone, Copy, Eq, Debug)]
pub struct AttestationData {
    pub slot: u64,
    pub index: u64,
    pub beacon_block_root: Hash256,
    pub source: Checkpoint,
    pub target: Checkpoint,
}

impl PartialEq for AttestationData {
    fn eq(&self, other: &Self) -> (r: bool) {
        self.slot == other.slot && self.index == other.index && self.beacon_block_root
            == other.beacon_block_root && self.source == other.source && self.target
            == other.target
    }
}

impl vstd::std_specs::cmp::PartialEqSpecImpl for AttestationData {
    open spec fn obeys_eq_spec() -> bool {
        true
    }

    open spec fn eq_spec(&self, other: &Self) -> bool {
        *self == *other
    }
}

impl AttestationData {
    /// Two different votes with the same target epoch.
    pub open spec fn double_votes(self, other: Self) -> bool {
        self.target.epoch == other.target.epoch && self != other
    }

    /// The vote's span from source to target strictly encloses that of `other`.
    pub open spec fn surrounds(self, other: Self) -> bool {
        self.source.epoch < other.source.epoch && other.target.epoch < self.target.epoch
    }

    /// A validator that signs both votes, this one first, may be slashed for it.
    pub open spec fn slashable_with(self, other: Self) -> bool {
        self.double_votes(other) || self.surrounds(other)
    }
}

/// An attestation together with the indices of the validators that signed it.
#[derive(PartialEq, Eq, Debug)]
pub struct IndexedAttestation {
    pub attesting_indices: Vec<u64>,
    pub data: AttestationData,
    pub signature: [u8; 96],
}

impl IndexedAttestation {
    /// The validator with this index signed the attestation.
    pub open spec fn attested_by(self, index: u64) -> bool {
        self.attesting_indices@.contains(index)
    }

    /// Both attestations vote for the same target epoch, with different votes.
    pub fn is_double_vote(&self, other: &Self) -> (r: bool)
        ensures
            r == self.data.double_votes(other.data),
    {
        self.data.target.epoch == other.data.target.epoch && self.data != other.data
    }

    /// This attestation's vote strictly encloses the other's.
    pub fn is_surround_vote(&self, other: &Self) -> (r: bool)
        ensures
            r == self.data.surrounds(other.data),
    {
        self.data.source.epoch < other.data.source.epoch && other.data.target.epoch
            < self.data.target.epoch
    }
}

/// Evidence against validators: two attestations that they should not both have signed.
#[derive(PartialEq, Eq, Debug)]
pub struct AttesterSlashing {
    pub attestation_1: IndexedAttestation,
    pub attestation_2: IndexedAttestation,
}

impl AttesterSlashing {
    /// The validator with this index signed both attestations.
    pub open spec fn attested_twice_by(self, index: u64) -> bool {
        self.attestation_1.attested_by(index) && self.attestation_2.attested_by(index)
    }

    /// The same evidence with its two attestations the other way round.
    pub open spec fn swapped(self) -> Self {
        AttesterSlashing { attestation_1: self.attestation_2, attestation_2: self.attestation_1 }
    }
}

/// A validator's record in the registry.
#[derive(PartialEq, Eq, Debug)]
pub struct Validator {
    pub pubkey: [u8; 48],
    pub withdrawal_credentials: Hash256,
    pub effective_balance: u64,
    pub slashed: bool,
    pub activation_eligibility_epoch: u64,
    pub activation_epoch: u64,
    pub exit_epoch: u64,
    pub withdrawable_epoch: u64,
}

impl Validator {
    /// The validator has not been slashed yet, and at `epoch` it is active or its stake is still
    /// locked.
    pub open spec fn slashable_at(self, epoch: u64) -> bool {
        !self.slashed && self.activation_epoch <= epoch < self.withdrawable_epoch
    }

    /// Whether the validator can be slashed at `epoch`.
    pub fn is_slashable_at(&self, epoch: u64) -> (r: bool)
        ensures
            r == self.slashable_at(epoch),
    {
        !self.slashed && self.activation_epoch <= epoch && epoch < self.withdrawable_epoch
    }
}

/// The part of a beacon state that a slashing is judged by.
#[derive(PartialEq, Eq, Debug)]
pub struct BeaconState {
    pub current_epoch: u64,
    pub validators: Vec<Validator>,
}

impl BeaconState {
    /// The place in the registry that a validator index stands for.
    pub open spec fn position(index: u64) -> int {
        index as usize as int
    }

    /// The registry has a validator with this index.
    pub open spec fn knows(self, index: u64) -> bool {
        Self::position(index) < self.validators@.len()
    }

    /// The validator with this index, where the registry has one.
    pub open spec fn validator(self, index: u64) -> Validator {
        self.validators@[Self::position(index)]
    }

    /// The registry's entry for `index`, if there is one.
    pub fn get_validator(&self, index: u64) -> (r: Option<&Validator>)
        ensures
            match r {
                Some(validator) => self.knows(index) && *validator == self.validator(index),
                None => !self.knows(index),
            },
    {
        let position = index as usize;
        if position < self.validators.len() {
            Some(&self.validators[position])
        } else {
            None
        }
    }
}

/// Whether signatures are to be checked.
#[derive(Clone, Copy, PartialEq, Eq, Structural, Debug)]
pub enum VerifySignatures {
    True,
    False,
}

} // verus!
