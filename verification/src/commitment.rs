use vstd::prelude::*;

use crate::errors::DrawError;
use crate::identity::Identity;
use crate::oracle::{
    oracle_account_ok, oracle_reveal_slot, oracle_seed_slot, oracle_value, parse_oracle_account,
};

verus! {

/// Where a randomness request stands in its lifecycle.
#[derive(Clone, Copy, PartialEq, Eq, Structural, Debug)]
pub enum CommitmentStatus {
    /// No randomness has been requested.
    Uncommitted,
    /// A request is committed against a specific oracle account and clock
    /// tick; the value is not yet revealed.
    Committed,
    /// The committed value has been revealed and handed out.
    Resolved,
}

/// A per-authority record tracking one randomness request.
///
/// The record is bound to its authority at creation and only that authority
/// may drive its transitions. `commit_clock` remembers the clock tick seen
/// when the commitment was made; the later reveal must name exactly that
/// tick again.
#[derive(Clone, Copy, Debug)]
pub struct CommitmentState {
    pub authority: Identity,
    pub oracle_ref: Option<Identity>,
    pub commit_clock: Option<u64>,
    pub status: CommitmentStatus,
}

impl CommitmentState {
    /// The record invariant: an uncommitted record references no oracle and
    /// no clock tick; a committed or resolved one references both.
    pub open spec fn well_formed(&self) -> bool {
        match self.status {
            CommitmentStatus::Uncommitted => self.oracle_ref is None && self.commit_clock is None,
            _ => self.oracle_ref is Some && self.commit_clock is Some,
        }
    }

    /// A fresh record, bound to `authority`, with nothing requested yet.
    pub fn new(authority: Identity) -> (r: CommitmentState)
        ensures
            r.authority == authority,
            r.status is Uncommitted,
            r.oracle_ref is None,
            r.commit_clock is None,
            r.well_formed(),
    {
        CommitmentState {
            authority,
            oracle_ref: None,
            commit_clock: None,
            status: CommitmentStatus::Uncommitted,
        }
    }

    /// When a commitment attempt is allowed: the caller is the bound
    /// authority and the oracle's seed is exactly one tick old — neither
    /// stale nor not-yet-committed.
    pub open spec fn spec_commit_allowed(
        &self,
        caller: Identity,
        current_clock: u64,
        seed_slot: u64,
    ) -> bool {
        caller == self.authority && seed_slot + 1 == current_clock
    }

    /// Commits the record to an oracle whose seed slot is exactly one tick
    /// older than the clock.
    ///
    /// Succeeds precisely when `spec_commit_allowed` holds; a wrong caller
    /// fails `Unauthorized` and any other slot relation fails `StaleSeed`,
    /// both leaving the record unchanged.
    pub fn commit(
        &mut self,
        caller: Identity,
        oracle_ref: Identity,
        current_clock: u64,
        seed_slot: u64,
    ) -> (r: Result<(), DrawError>)
        ensures
            r is Ok <==> old(self).spec_commit_allowed(caller, current_clock, seed_slot),
            caller != old(self).authority ==> r == Err::<(), DrawError>(DrawError::Unauthorized)
                && *final(self) == *old(self),
            caller == old(self).authority && seed_slot + 1 != current_clock ==> r == Err::<
                (),
                DrawError,
            >(DrawError::StaleSeed) && *final(self) == *old(self),
            r is Ok ==> *final(self) == (CommitmentState {
                oracle_ref: Some(oracle_ref),
                commit_clock: Some(current_clock),
                status: CommitmentStatus::Committed,
                ..*old(self)
            }),
            final(self).authority == old(self).authority,
            final(self).well_formed() <== old(self).well_formed(),
    {
        if caller != self.authority {
            return Err(DrawError::Unauthorized);
        }
        if !(current_clock >= 1 && seed_slot == current_clock - 1) {
            return Err(DrawError::StaleSeed);
        }
        self.oracle_ref = Some(oracle_ref);
        self.commit_clock = Some(current_clock);
        self.status = CommitmentStatus::Committed;
        Ok(())
    }

    /// When a reveal attempt matches the live commitment: the record is
    /// committed and the oracle still names the committed clock tick.
    pub open spec fn spec_reveal_matches(&self, seed_slot: u64) -> bool {
        self.status is Committed && self.commit_clock == Some(seed_slot)
    }

    /// Applies the oracle's answer to the record.
    ///
    /// An oracle that does not match the live commitment fails `Expired`; a
    /// matching oracle whose value is still unrevealed fails `NotResolved`,
    /// leaving the record committed so the caller may retry. A matching,
    /// revealed oracle hands its value out and marks the record resolved —
    /// after which any further attempt fails `Expired`.
    pub fn apply_reveal(&mut self, seed_slot: u64, resolved: Option<Vec<u8>>) -> (r: Result<
        Vec<u8>,
        DrawError,
    >)
        ensures
            r is Ok <==> old(self).spec_reveal_matches(seed_slot) && resolved is Some,
            !old(self).spec_reveal_matches(seed_slot) ==> r == Err::<Vec<u8>, DrawError>(
                DrawError::Expired,
            ) && *final(self) == *old(self),
            old(self).spec_reveal_matches(seed_slot) && resolved is None ==> r == Err::<
                Vec<u8>,
                DrawError,
            >(DrawError::NotResolved) && *final(self) == *old(self),
            (r matches Ok(v) ==> resolved matches Some(w) && v@ == w@ && *final(self)
                == (CommitmentState { status: CommitmentStatus::Resolved, ..*old(self) })),
            final(self).authority == old(self).authority,
            final(self).well_formed() <== old(self).well_formed(),
    {
        let matches_commit = match self.commit_clock {
            Some(c) => self.status == CommitmentStatus::Committed && c == seed_slot,
            None => false,
        };
        if !matches_commit {
            return Err(DrawError::Expired);
        }
        match resolved {
            None => Err(DrawError::NotResolved),
            Some(v) => {
                self.status = CommitmentStatus::Resolved;
                Ok(v)
            },
        }
    }

    /// Commits against a raw oracle account: the seed slot is read from the
    /// account bytes, then the commitment rule of `commit` is applied.
    ///
    /// Account bytes that do not parse carry no seed slot at all, so they
    /// fail `StaleSeed` like any seed whose freshness cannot be shown.
    pub fn generate_randomness(
        &mut self,
        caller: Identity,
        oracle_ref: Identity,
        oracle_data: &Vec<u8>,
        current_clock: u64,
    ) -> (r: Result<(), DrawError>)
        ensures
            r is Ok <==> oracle_account_ok(oracle_data@) && old(self).spec_commit_allowed(
                caller,
                current_clock,
                oracle_seed_slot(oracle_data@),
            ),
            r is Ok ==> *final(self) == (CommitmentState {
                oracle_ref: Some(oracle_ref),
                commit_clock: Some(current_clock),
                status: CommitmentStatus::Committed,
                ..*old(self)
            }),
            !(r is Ok) ==> *final(self) == *old(self) && (r == Err::<(), DrawError>(
                DrawError::Unauthorized,
            ) || r == Err::<(), DrawError>(DrawError::StaleSeed)),
            caller != old(self).authority ==> r == Err::<(), DrawError>(DrawError::Unauthorized),
            caller == old(self).authority && !(r is Ok) ==> r == Err::<(), DrawError>(
                DrawError::StaleSeed,
            ),
            final(self).authority == old(self).authority,
            final(self).well_formed() <== old(self).well_formed(),
    {
        if caller != self.authority {
            return Err(DrawError::Unauthorized);
        }
        match parse_oracle_account(oracle_data) {
            None => Err(DrawError::StaleSeed),
            Some(view) => self.commit(caller, oracle_ref, current_clock, view.seed_slot),
        }
    }

    /// Reveals against a raw oracle account: the seed slot, reveal slot and
    /// value are read from the account bytes; the value counts as revealed
    /// only in the very clock slot the oracle revealed it, and the reveal
    /// rule of `apply_reveal` is applied.
    ///
    /// Account bytes that do not parse cannot match the commitment, so they
    /// fail `Expired`.
    pub fn get_randomness(&mut self, oracle_data: &Vec<u8>, clock_slot: u64) -> (r: Result<
        Vec<u8>,
        DrawError,
    >)
        ensures
            r is Ok <==> oracle_account_ok(oracle_data@) && old(self).spec_reveal_matches(
                oracle_seed_slot(oracle_data@),
            ) && clock_slot == oracle_reveal_slot(oracle_data@),
            r matches Ok(v) ==> v@ == oracle_value(oracle_data@) && *final(self)
                == (CommitmentState { status: CommitmentStatus::Resolved, ..*old(self) }),
            !(r is Ok) ==> *final(self) == *old(self),
            !oracle_account_ok(oracle_data@) ==> r == Err::<Vec<u8>, DrawError>(DrawError::Expired),
            oracle_account_ok(oracle_data@) && !old(self).spec_reveal_matches(
                oracle_seed_slot(oracle_data@),
            ) ==> r == Err::<Vec<u8>, DrawError>(DrawError::Expired),
            oracle_account_ok(oracle_data@) && old(self).spec_reveal_matches(
                oracle_seed_slot(oracle_data@),
            ) && clock_slot != oracle_reveal_slot(oracle_data@) ==> r == Err::<Vec<u8>, DrawError>(
                DrawError::NotResolved,
            ),
            final(self).authority == old(self).authority,
            final(self).well_formed() <== old(self).well_formed(),
    {
        match parse_oracle_account(oracle_data) {
            None => Err(DrawError::Expired),
            Some(view) => {
                let resolved = if clock_slot == view.reveal_slot {
                    Some(view.value)
                } else {
                    None
                };
                self.apply_reveal(view.seed_slot, resolved)
            },
        }
    }
}

/// Law: a reveal is one-shot. A successful `reveal` moves the record to
/// `Resolved`, and no record in that state matches a further reveal attempt,
/// whatever seed slot the oracle then reports — the second attempt fails.
pub proof fn lemma_reveal_is_one_shot(s: CommitmentState, seed_slot: u64, later_slot: u64)
    requires
        s.spec_reveal_matches(seed_slot),
    ensures
        !(CommitmentState { status: CommitmentStatus::Resolved, ..s }).spec_reveal_matches(
            later_slot,
        ),
{
}

} // verus!
