//! Governance records. They are carried in the data model as the provenance of
//! a pool; the pricing engine does not act on them.
use crate::state::address::Address;
use vstd::prelude::*;

verus! {

/// The identifying data of a pool: its two assets and its swap fee.
#[derive(Clone, Copy, PartialEq, Eq, Debug)]
pub struct PairMeta {
    /// The platform's base asset.
    pub base_mint: Address,
    /// The asset paired with it.
    pub paired_mint: Address,
    /// The pool's swap fee in basis points.
    pub proposed_fee_bps: u16,
}

/// The votes cast on a proposal.
#[derive(Clone, Copy, PartialEq, Eq, Debug)]
pub struct VoteTally {
    pub for_votes: u64,
    pub against_votes: u64,
    pub abstain_votes: u64,
}

/// What executing a proposal produced.
#[derive(Clone, Copy, PartialEq, Eq, Debug)]
pub struct ExecContext {
    /// The pool created on execution.
    pub created_pair: Option<Address>,
    /// When the proposal was executed.
    pub executed_at: Option<i64>,
}

/// Where a proposal stands.
#[derive(Clone, Copy, PartialEq, Eq, Structural, Debug)]
pub enum ProposalState {
    Draft,
    Active,
    Succeeded,
    Defeated,
    Executed,
}

/// A proposal to create a pool.
#[derive(Clone, Copy, PartialEq, Eq, Debug)]
pub struct Proposal {
    pub id: u64,
    pub pair_meta: PairMeta,
    pub state: ProposalState,
    pub votes: VoteTally,
    pub exec_context: ExecContext,
    pub bump: u8,
}

} // verus!
