//! Hashlock/timelock escrow components for cross-chain atomic swaps.
//!
//! The crate models four cooperating components as owned-state values:
//! an escrow ledger ([`escrow::HashLockedEscrowFactory`]) holding source- and
//! destination-side escrow records, an order book
//! ([`orderbook::SimpleLimitOrderProtocol`]) doing per-order fill bookkeeping
//! and allowance custody, a privileged coordinator
//! ([`resolver::SimpleResolver`]) composing the two, and a reduced escrow
//! variant ([`minimal::MinimalEscrowFactory`]).
//!
//! The host environment is kept outside: the current time and the identity of
//! the (already authenticated) caller are passed in explicitly, and every fund
//! movement is returned as a list of [`TokenTransfer`] instructions for the
//! host's token contract to execute. A failing operation returns its error and
//! leaves all state exactly as it was.

use vstd::prelude::*;

pub mod hashing;
pub mod merkle;
pub mod escrow;
pub mod orderbook;
pub mod resolver;
pub mod minimal;

verus! {

/// A principal or contract identity, as the host numbers them.
pub type AccountId = u64;

/// Fixed security deposit escrowed beside the principal, paid out as a
/// redemption incentive.
pub const DEPOSIT_AMOUNT: i128 = 1_000_000;

/// Grace delay (in seconds) past the last cancellation boundary before the
/// rescue path opens.
pub const RESCUE_DELAY: u64 = 7 * 24 * 60 * 60;

/// Every way an operation of this crate can fail. A failed call commits no
/// state change and moves no funds.
#[derive(Clone, Copy, Debug, PartialEq, Eq, Structural)]
pub enum SwapError {
    /// The principal amount is not strictly positive.
    InvalidAmount,
    /// The phase boundaries are not strictly increasing.
    InvalidTimeWindow,
    /// An order was asked to split into zero parts.
    InvalidPartCount,
    /// A part index at or past the declared part count.
    InvalidPartIndex,
    /// The (order, part) slot — or the (root, part) leaf — was consumed
    /// before, and can never be filled again.
    AlreadyFilled,
    /// The escrow record is terminal: its funds were withdrawn.
    AlreadyWithdrawn,
    /// The record is terminal: it was cancelled. Also reported for an order
    /// part whose active flag was already cleared.
    AlreadyCancelled,
    /// The time window for this operation has not opened yet.
    NotYetOpen,
    /// The time window for this operation has closed.
    WindowClosed,
    /// The caller lacks standing for this operation at this time.
    Unauthorized,
    /// The owner's allowance does not cover the requested amount.
    InsufficientAllowance,
    /// The revealed secret does not hash to the record's commitment.
    InvalidSecret,
    /// The Merkle proof does not connect the leaf to the committed root.
    InvalidProof,
    /// The proof-withdrawal path was used on a full-fill record.
    NotPartialFill,
    /// A partial-fill record requires a non-empty Merkle proof.
    ProofRequired,
    /// The (order, part) slot was never filled.
    PartNotFilled,
    /// No record exists under the given reference.
    RecordNotFound,
}

/// One fund movement for the host's token contract to execute: move `amount`
/// of `token` from `from` to `to`; `uses_allowance` selects the
/// pull-through-a-pre-authorized-allowance variant over the direct transfer.
#[derive(Clone, Copy, Debug, PartialEq, Eq, Structural)]
pub struct TokenTransfer {
    pub token: AccountId,
    pub from: AccountId,
    pub to: AccountId,
    pub amount: i128,
    pub uses_allowance: bool,
}

} // verus!
