//! The failure kinds of the engine.
//!
//! Every operation either completes or returns exactly one of these kinds and
//! leaves all state as it was.
use vstd::prelude::*;

verus! {

/// Why an operation was refused.
#[derive(Clone, Copy, PartialEq, Eq, Structural, Debug, Hash)]
pub enum AmmError {
    /// The realised amount is below the caller's minimum.
    SlippageExceeded,
    /// The platform is paused.
    TradingPaused,
    /// A swap was asked for with no input.
    ZeroAmount,
    /// Reserved for arithmetic faults other than overflow.
    MathError,
    /// The pool was traded too recently.
    SwapCooldown,
    /// The two assets do not form a valid pool.
    InvalidPair,
    /// A fee configuration is inconsistent.
    InvalidFeeConfig,
    /// A fee rate above the pool-level cap of 10%.
    FeeTooHigh,
    /// A fee rate above the protocol-level cap of 2%.
    ProtocolFeeTooHigh,
    /// The base asset is not the platform's base asset.
    InvalidBaseToken,
    /// The paired asset is not acceptable.
    InvalidPairedToken,
    /// The caller is not the platform's admin.
    Unauthorized,
    /// Two accounts that must hold the same asset do not.
    TokenMintMismatch,
    /// An amount that must be positive is zero.
    InvalidAmount,
    /// Pause was asked for while paused.
    AlreadyPaused,
    /// Resume was asked for while running.
    NotPaused,
    /// A pause transition that is not allowed.
    InvalidPauseState,
    /// A deposit that would mint no claim tokens.
    InsufficientLiquidityMinted,
    /// The pool has no liquidity to trade against.
    InsufficientLiquidity,
    /// Overflow, underflow or division by zero.
    MathOverflow,
    /// The fee collector does not hold the base asset.
    InvalidFeeCollectorMint,
}

impl AmmError {
    /// The text shown to a caller for each kind.
    pub open spec fn message_text(self) -> Seq<char> {
        match self {
            AmmError::SlippageExceeded => "Slippage tolerance exceeded"@,
            AmmError::TradingPaused => "Trading is paused"@,
            AmmError::ZeroAmount => "Invalid zero amount"@,
            AmmError::MathError => "Arithmetic error"@,
            AmmError::SwapCooldown => "Swap cooldown not expired"@,
            AmmError::InvalidPair => "Invalid token pair"@,
            AmmError::InvalidFeeConfig => "Invalid fee configuration"@,
            AmmError::FeeTooHigh => "Fee rate cannot exceed 10%"@,
            AmmError::ProtocolFeeTooHigh => "Protocol fee rate cannot exceed 2%"@,
            AmmError::InvalidBaseToken => "Base token must be the platform's base token (MOJO)"@,
            AmmError::InvalidPairedToken => "Invalid paired token"@,
            AmmError::Unauthorized => "Unauthorized access"@,
            AmmError::TokenMintMismatch => "Token mint mismatch"@,
            AmmError::InvalidAmount => "Invalid amount"@,
            AmmError::AlreadyPaused => "Platform is already paused"@,
            AmmError::NotPaused => "Platform is not paused"@,
            AmmError::InvalidPauseState => "Invalid pause transition"@,
            AmmError::InsufficientLiquidityMinted => "Insufficient liquidity minted"@,
            AmmError::InsufficientLiquidity => "Insufficient liquidity"@,
            AmmError::MathOverflow => "Math overflow occurred"@,
            AmmError::InvalidFeeCollectorMint => "Invalid fee collector mint"@,
        }
    }

    /// The text for this kind.
    pub fn message(&self) -> (text: &'static str)
        ensures
            text@ == self.message_text(),
    {
        match self {
            AmmError::SlippageExceeded => "Slippage tolerance exceeded",
            AmmError::TradingPaused => "Trading is paused",
            AmmError::ZeroAmount => "Invalid zero amount",
            AmmError::MathError => "Arithmetic error",
            AmmError::SwapCooldown => "Swap cooldown not expired",
            AmmError::InvalidPair => "Invalid token pair",
            AmmError::InvalidFeeConfig => "Invalid fee configuration",
            AmmError::FeeTooHigh => "Fee rate cannot exceed 10%",
            AmmError::ProtocolFeeTooHigh => "Protocol fee rate cannot exceed 2%",
            AmmError::InvalidBaseToken => "Base token must be the platform's base token (MOJO)",
            AmmError::InvalidPairedToken => "Invalid paired token",
            AmmError::Unauthorized => "Unauthorized access",
            AmmError::TokenMintMismatch => "Token mint mismatch",
            AmmError::InvalidAmount => "Invalid amount",
            AmmError::AlreadyPaused => "Platform is already paused",
            AmmError::NotPaused => "Platform is not paused",
            AmmError::InvalidPauseState => "Invalid pause transition",
            AmmError::InsufficientLiquidityMinted => "Insufficient liquidity minted",
            AmmError::InsufficientLiquidity => "Insufficient liquidity",
            AmmError::MathOverflow => "Math overflow occurred",
            AmmError::InvalidFeeCollectorMint => "Invalid fee collector mint",
        }
    }
}

} // verus!
