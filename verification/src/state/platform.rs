//! The platform record: who administers it, where protocol fees go, whether
//! trading is paused, and the running totals.
use crate::state::address::Address;
use vstd::prelude::*;

verus! {

/// The schema version written by this library.
pub const CURRENT_VERSION: u8 = 1;

/// The protocol-level fee cap, in basis points (2%).
pub const MAX_PROTOCOL_FEE_BPS: u16 = 200;

/// Pause state and its audit trail.
#[derive(Clone, Copy, PartialEq, Eq, Structural, Debug)]
pub struct PlatformSecurity {
    pub is_paused: bool,
    /// When the platform was last paused.
    pub last_pause_time: i64,
    /// How many times it has been paused.
    pub pause_count: u32,
}

impl Default for PlatformSecurity {
    fn default() -> (security: PlatformSecurity)
        ensures
            security == (PlatformSecurity { is_paused: false, last_pause_time: 0, pause_count: 0 }),
    {
        PlatformSecurity { is_paused: false, last_pause_time: 0, pause_count: 0 }
    }
}

/// Running totals over the platform's life. None of them ever decreases.
#[derive(Clone, Copy, PartialEq, Eq, Structural, Debug)]
pub struct PlatformStats {
    /// Pools created.
    pub pair_count: u64,
    /// The sum of the input amounts of all swaps.
    pub total_volume: u64,
    /// The sum of the protocol fees of all swaps.
    pub total_fees: u64,
}

impl PlatformStats {
    /// No total of `self` is below the same total of `earlier`.
    pub open spec fn not_below(&self, earlier: &PlatformStats) -> bool {
        &&& self.pair_count >= earlier.pair_count
        &&& self.total_volume >= earlier.total_volume
        &&& self.total_fees >= earlier.total_fees
    }
}

impl Default for PlatformStats {
    fn default() -> (stats: PlatformStats)
        ensures
            stats == (PlatformStats { pair_count: 0, total_volume: 0, total_fees: 0 }),
    {
        PlatformStats { pair_count: 0, total_volume: 0, total_fees: 0 }
    }
}

/// The governance programme attached to a platform.
#[derive(Clone, Copy, PartialEq, Eq, Debug)]
pub struct DaoConfigInfo {
    pub dao_program: Address,
    pub governance_token_mint: Address,
    pub proposal_count: u64,
}

/// The platform: one per deployment, created once and never removed.
#[derive(Clone, Copy, PartialEq, Eq, Debug)]
pub struct PlatformState {
    /// The canonical base asset. Fixed at creation.
    pub base_token_mint: Address,
    /// Who may pause, resume, change the fee rate and withdraw protocol fees.
    pub admin: Address,
    /// Where protocol fees are sent.
    pub fee_collector: Address,
    pub dao_config: Option<DaoConfigInfo>,
    pub security: PlatformSecurity,
    pub stats: PlatformStats,
    /// The protocol fee on swaps, in basis points.
    pub protocol_fee_bps: u16,
    pub bump: u8,
    /// The schema version of this record.
    pub version: u8,
}

impl PlatformState {
    /// Whether `caller` is the admin.
    pub fn is_admin(&self, caller: &Address) -> (yes: bool)
        ensures
            yes == (self.admin == *caller),
    {
        self.admin == *caller
    }

    /// Whether the record was written under the schema this library reads.
    pub fn is_current_version(&self) -> (yes: bool)
        ensures
            yes == (self.version == CURRENT_VERSION),
    {
        self.version == CURRENT_VERSION
    }
}

/// The record of a platform's creation.
#[derive(Clone, Copy, PartialEq, Eq, Debug)]
pub struct PlatformInitialized {
    pub timestamp: i64,
    pub admin: Address,
    pub base_token: Address,
}

/// The record of a change of the pause flag.
#[derive(Clone, Copy, PartialEq, Eq, Debug)]
pub struct PlatformPauseChanged {
    pub admin: Address,
    pub paused: bool,
    pub timestamp: i64,
}

/// Governance parameters.
#[derive(Clone, Copy, PartialEq, Eq, Structural, Debug)]
pub struct DaoParams {
    /// Seconds a vote stays open.
    pub voting_period: i64,
    /// Percent of supply that must vote.
    pub quorum_percent: u8,
    /// Percent of votes that must approve.
    pub approval_threshold: u8,
    pub min_proposal_deposit: u64,
    /// The share of protocol fees that goes to governance, in basis points.
    pub fee_share_bps: u16,
}

/// The governance configuration.
#[derive(Clone, Copy, PartialEq, Eq, Debug)]
pub struct DaoConfig {
    pub governance_mint: Address,
    pub admin: Address,
    pub proposal_count: u64,
    pub params: DaoParams,
    pub bump: u8,
}

} // verus!
