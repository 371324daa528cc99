//! The escrow ledger: source- and destination-side escrow records, their time
//! windows, allowance custody, partial-fill leaf tracking, and fund movement
//! on creation, withdrawal, cancellation and rescue.
//!
//! Records are stored in an arena; an escrow reference is the record's index,
//! minted once per creation and never reused. Every mutating operation takes
//! the authenticated caller and, where time matters, the current time, and
//! returns the transfers the host must execute. A failing operation returns
//! its error and changes nothing.

use vstd::prelude::*;
use crate::{AccountId, SwapError, TokenTransfer, DEPOSIT_AMOUNT, RESCUE_DELAY};
use crate::hashing::{bytes_eq, copy_bytes, sha256, sha256_of};
use crate::merkle::{generate_leaf, leaf_hash, proof_fold, verify_merkle_proof};

verus! {

/// A source-side escrow record: funds locked on the chain the maker pays on.
pub struct SourceEscrowData {
    pub creator: AccountId,
    pub recipient: AccountId,
    pub hashed_secret: Vec<u8>,
    pub token: AccountId,
    pub amount: i128,
    pub security_deposit: i128,
    pub withdrawal_start: u64,
    pub public_withdrawal_start: u64,
    pub cancellation_start: u64,
    pub public_cancellation_start: u64,
    pub funds_withdrawn: bool,
    pub cancelled: bool,
    pub part_index: u64,
    pub total_parts: u32,
    pub is_partial_fill: bool,
}

/// A destination-side escrow record: the counter-leg of a swap. Its
/// cancellation window has no public phase.
pub struct DestinationEscrowData {
    pub creator: AccountId,
    pub recipient: AccountId,
    pub hashed_secret: Vec<u8>,
    pub token: AccountId,
    pub amount: i128,
    pub security_deposit: i128,
    pub withdrawal_start: u64,
    pub public_withdrawal_start: u64,
    pub cancellation_start: u64,
    pub funds_withdrawn: bool,
    pub cancelled: bool,
    pub part_index: u64,
    pub total_parts: u32,
    pub is_partial_fill: bool,
}

/// The four phase boundaries of a source escrow, strictly increasing when
/// valid.
#[derive(Clone, Copy, Debug, PartialEq, Eq, Structural)]
pub struct TimeWindows {
    pub withdrawal_start: u64,
    pub public_withdrawal_start: u64,
    pub cancellation_start: u64,
    pub public_cancellation_start: u64,
}

impl TimeWindows {
    /// The boundaries are strictly increasing.
    pub open spec fn well_ordered(self) -> bool {
        self.withdrawal_start < self.public_withdrawal_start
            < self.cancellation_start < self.public_cancellation_start
    }

    /// Check that the boundaries are strictly increasing.
    pub fn is_well_ordered(&self) -> (r: bool)
        ensures
            r == self.well_ordered(),
    {
        self.withdrawal_start < self.public_withdrawal_start
            && self.public_withdrawal_start < self.cancellation_start
            && self.cancellation_start < self.public_cancellation_start
    }
}

/// The mathematical value of a source escrow record.
#[verifier::ext_equal]
pub ghost struct SourceEscrowView {
    pub creator: AccountId,
    pub recipient: AccountId,
    pub hashed_secret: Seq<u8>,
    pub token: AccountId,
    pub amount: i128,
    pub security_deposit: i128,
    pub withdrawal_start: u64,
    pub public_withdrawal_start: u64,
    pub cancellation_start: u64,
    pub public_cancellation_start: u64,
    pub funds_withdrawn: bool,
    pub cancelled: bool,
    pub part_index: u64,
    pub total_parts: u32,
    pub is_partial_fill: bool,
}

/// The mathematical value of a destination escrow record.
#[verifier::ext_equal]
pub ghost struct DestinationEscrowView {
    pub creator: AccountId,
    pub recipient: AccountId,
    pub hashed_secret: Seq<u8>,
    pub token: AccountId,
    pub amount: i128,
    pub security_deposit: i128,
    pub withdrawal_start: u64,
    pub public_withdrawal_start: u64,
    pub cancellation_start: u64,
    pub funds_withdrawn: bool,
    pub cancelled: bool,
    pub part_index: u64,
    pub total_parts: u32,
    pub is_partial_fill: bool,
}

impl View for SourceEscrowData {
    type V = SourceEscrowView;

    open spec fn view(&self) -> SourceEscrowView {
        SourceEscrowView {
            creator: self.creator,
            recipient: self.recipient,
            hashed_secret: self.hashed_secret@,
            token: self.token,
            amount: self.amount,
            security_deposit: self.security_deposit,
            withdrawal_start: self.withdrawal_start,
            public_withdrawal_start: self.public_withdrawal_start,
            cancellation_start: self.cancellation_start,
            public_cancellation_start: self.public_cancellation_start,
            funds_withdrawn: self.funds_withdrawn,
            cancelled: self.cancelled,
            part_index: self.part_index,
            total_parts: self.total_parts,
            is_partial_fill: self.is_partial_fill,
        }
    }
}

impl View for DestinationEscrowData {
    type V = DestinationEscrowView;

    open spec fn view(&self) -> DestinationEscrowView {
        DestinationEscrowView {
            creator: self.creator,
            recipient: self.recipient,
            hashed_secret: self.hashed_secret@,
            token: self.token,
            amount: self.amount,
            security_deposit: self.security_deposit,
            withdrawal_start: self.withdrawal_start,
            public_withdrawal_start: self.public_withdrawal_start,
            cancellation_start: self.cancellation_start,
            funds_withdrawn: self.funds_withdrawn,
            cancelled: self.cancelled,
            part_index: self.part_index,
            total_parts: self.total_parts,
            is_partial_fill: self.is_partial_fill,
        }
    }
}

/// One arena slot: a source or a destination record.
pub enum EscrowSlot {
    Src(SourceEscrowData),
    Dst(DestinationEscrowData),
}

/// The mathematical value of an arena slot.
#[verifier::ext_equal]
pub ghost enum EscrowSlotView {
    Src(SourceEscrowView),
    Dst(DestinationEscrowView),
}

impl View for EscrowSlot {
    type V = EscrowSlotView;

    open spec fn view(&self) -> EscrowSlotView {
        match self {
            EscrowSlot::Src(e) => EscrowSlotView::Src(e@),
            EscrowSlot::Dst(e) => EscrowSlotView::Dst(e@),
        }
    }
}

/// The mathematical state of the escrow ledger. The allowance table and the
/// user index are kept as append-only logs; the spec functions below read the
/// current value out of them.
#[verifier::ext_equal]
pub ghost struct FactoryView {
    pub contract_address: AccountId,
    pub native_token: AccountId,
    pub escrows: Seq<EscrowSlotView>,
    pub allowances: Seq<(AccountId, i128)>,
    pub user_escrows: Seq<(AccountId, u64)>,
    pub partial_fills_used: Seq<(Seq<u8>, u64)>,
}

/// The current allowance an owner has granted this component: the most recent
/// entry for that owner, or zero if there is none.
pub open spec fn allowance_of(log: Seq<(AccountId, i128)>, owner: AccountId) -> i128
    decreases log.len(),
{
    if log.len() == 0 {
        0
    } else if log.last().0 == owner {
        log.last().1
    } else {
        allowance_of(log.drop_last(), owner)
    }
}

/// The escrow references recorded for a user, in creation order.
pub open spec fn user_escrow_ids(log: Seq<(AccountId, u64)>, user: AccountId) -> Seq<u64>
    decreases log.len(),
{
    if log.len() == 0 {
        Seq::empty()
    } else {
        let rest = user_escrow_ids(log.drop_last(), user);
        if log.last().0 == user {
            rest.push(log.last().1)
        } else {
            rest
        }
    }
}

/// Whether the leaf at `part` under the Merkle root `root` was consumed.
pub open spec fn partial_fill_used(log: Seq<(Seq<u8>, u64)>, root: Seq<u8>, part: u64) -> bool {
    exists|j: int| 0 <= j < log.len() && log[j].0 == root && log[j].1 == part
}

/// How many leaves under the root were consumed.
pub open spec fn partial_fill_count(log: Seq<(Seq<u8>, u64)>, root: Seq<u8>) -> nat
    decreases log.len(),
{
    if log.len() == 0 {
        0
    } else {
        partial_fill_count(log.drop_last(), root) + (if log.last().0 == root { 1nat } else { 0nat })
    }
}

/// A source record the ledger would accept: positive amount, the fixed
/// deposit, strictly increasing windows, not terminal in both ways at once,
/// and consistent partial-fill identity.
pub open spec fn src_wf(e: SourceEscrowView) -> bool {
    &&& e.amount > 0
    &&& e.security_deposit == DEPOSIT_AMOUNT
    &&& e.withdrawal_start < e.public_withdrawal_start < e.cancellation_start
        < e.public_cancellation_start
    &&& !(e.funds_withdrawn && e.cancelled)
    &&& e.is_partial_fill == (e.total_parts > 1)
    &&& (e.is_partial_fill ==> e.part_index < e.total_parts as u64)
}

/// A destination record the ledger would accept.
pub open spec fn dst_wf(e: DestinationEscrowView) -> bool {
    &&& e.amount > 0
    &&& e.security_deposit == DEPOSIT_AMOUNT
    &&& e.withdrawal_start < e.public_withdrawal_start < e.cancellation_start
    &&& !(e.funds_withdrawn && e.cancelled)
    &&& e.is_partial_fill == (e.total_parts > 1)
    &&& (e.is_partial_fill ==> e.part_index < e.total_parts as u64)
}

/// A slot the ledger would accept, whichever side it is.
pub open spec fn slot_wf(s: EscrowSlotView) -> bool {
    match s {
        EscrowSlotView::Src(e) => src_wf(e),
        EscrowSlotView::Dst(e) => dst_wf(e),
    }
}

impl FactoryView {
    /// Every record is acceptable and every user-index entry points at a
    /// minted record.
    pub open spec fn wf(self) -> bool {
        &&& forall|i: int| 0 <= i < self.escrows.len() ==> slot_wf(#[trigger] self.escrows[i])
        &&& forall|i: int|
            0 <= i < self.user_escrows.len()
                ==> (#[trigger] self.user_escrows[i]).1 < self.escrows.len()
    }

    /// The source record under the given reference, if one was minted there.
    pub open spec fn src_view(self, escrow_id: u64) -> Option<SourceEscrowView> {
        if escrow_id < self.escrows.len() {
            match self.escrows[escrow_id as int] {
                EscrowSlotView::Src(e) => Some(e),
                EscrowSlotView::Dst(_) => None,
            }
        } else {
            None
        }
    }

    /// The destination record under the given reference, if one was minted
    /// there.
    pub open spec fn dst_view(self, escrow_id: u64) -> Option<DestinationEscrowView> {
        if escrow_id < self.escrows.len() {
            match self.escrows[escrow_id as int] {
                EscrowSlotView::Src(_) => None,
                EscrowSlotView::Dst(e) => Some(e),
            }
        } else {
            None
        }
    }
}

/// The escrow ledger.
pub struct HashLockedEscrowFactory {
    contract_address: AccountId,
    native_token: AccountId,
    escrows: Vec<EscrowSlot>,
    allowances: Vec<(AccountId, i128)>,
    user_escrows: Vec<(AccountId, u64)>,
    partial_fills_used: Vec<(Vec<u8>, u64)>,
}

impl View for HashLockedEscrowFactory {
    type V = FactoryView;

    closed spec fn view(&self) -> FactoryView {
        FactoryView {
            contract_address: self.contract_address,
            native_token: self.native_token,
            escrows: Seq::new(self.escrows@.len(), |i: int| self.escrows@[i]@),
            allowances: self.allowances@,
            user_escrows: self.user_escrows@,
            partial_fills_used: Seq::new(
                self.partial_fills_used@.len(),
                |i: int| (self.partial_fills_used@[i].0@, self.partial_fills_used@[i].1),
            ),
        }
    }
}

/// Why a full-fill creation fails, in the order the checks run; `None` means
/// it succeeds. `require_pcs` distinguishes the source side (which has a
/// public cancellation boundary) from the destination side.
pub open spec fn create_window_error(
    token_amount: i128,
    withdrawal_start: u64,
    public_withdrawal_start: u64,
    cancellation_start: u64,
) -> Option<SwapError> {
    if token_amount <= 0 {
        Some(SwapError::InvalidAmount)
    } else if public_withdrawal_start <= withdrawal_start
        || cancellation_start <= public_withdrawal_start {
        Some(SwapError::InvalidTimeWindow)
    } else {
        None
    }
}

/// Why `create_src_escrow` fails; `None` means it succeeds.
pub open spec fn src_create_error(
    fv: FactoryView,
    buyer: AccountId,
    token_amount: i128,
    windows: TimeWindows,
) -> Option<SwapError> {
    if token_amount <= 0 {
        Some(SwapError::InvalidAmount)
    } else if !windows.well_ordered() {
        Some(SwapError::InvalidTimeWindow)
    } else if allowance_of(fv.allowances, buyer) < token_amount {
        Some(SwapError::InsufficientAllowance)
    } else {
        None
    }
}

/// Why `create_src_escrow_partial` fails; `None` means it succeeds. When the
/// creator is a third party (an order-matching component) the allowance was
/// already consumed on that component's side, so no allowance is checked or
/// reduced here — a documented trust assumption carried over from the
/// protocol's custody model.
pub open spec fn src_partial_create_error(
    fv: FactoryView,
    creator: AccountId,
    hashed_secret: Seq<u8>,
    buyer: AccountId,
    token_amount: i128,
    withdrawal_start: u64,
    public_withdrawal_start: u64,
    cancellation_start: u64,
    part_index: u64,
    total_parts: u32,
) -> Option<SwapError> {
    let is_partial = total_parts > 1;
    if token_amount <= 0 {
        Some(SwapError::InvalidAmount)
    } else if public_withdrawal_start <= withdrawal_start
        || cancellation_start <= public_withdrawal_start {
        Some(SwapError::InvalidTimeWindow)
    } else if is_partial && part_index >= total_parts as u64 {
        Some(SwapError::InvalidPartIndex)
    } else if is_partial && partial_fill_used(fv.partial_fills_used, hashed_secret, part_index) {
        Some(SwapError::AlreadyFilled)
    } else if creator == buyer && allowance_of(fv.allowances, buyer) < token_amount {
        Some(SwapError::InsufficientAllowance)
    } else {
        None
    }
}

/// Why `create_dst_escrow_partial` fails; `None` means it succeeds.
pub open spec fn dst_partial_create_error(
    token_amount: i128,
    withdrawal_start: u64,
    public_withdrawal_start: u64,
    cancellation_start: u64,
    part_index: u64,
    total_parts: u32,
) -> Option<SwapError> {
    let is_partial = total_parts > 1;
    if token_amount <= 0 {
        Some(SwapError::InvalidAmount)
    } else if public_withdrawal_start <= withdrawal_start
        || cancellation_start <= public_withdrawal_start {
        Some(SwapError::InvalidTimeWindow)
    } else if is_partial && part_index >= total_parts as u64 {
        Some(SwapError::InvalidPartIndex)
    } else {
        None
    }
}

impl HashLockedEscrowFactory {
    /// Set up an empty ledger. `contract_address` is this component's own
    /// identity — the vault that locked funds sit in — and `native_token` is
    /// the token every escrow of this ledger is denominated in.
    pub fn initialize(contract_address: AccountId, native_token: AccountId) -> (r: Self)
        ensures
            r@ == (FactoryView {
                contract_address,
                native_token,
                escrows: Seq::empty(),
                allowances: Seq::empty(),
                user_escrows: Seq::empty(),
                partial_fills_used: Seq::empty(),
            }),
            r@.wf(),
    {
        let r = HashLockedEscrowFactory {
            contract_address,
            native_token,
            escrows: Vec::new(),
            allowances: Vec::new(),
            user_escrows: Vec::new(),
            partial_fills_used: Vec::new(),
        };
        proof {
            assert(r@.escrows =~= Seq::<EscrowSlotView>::empty());
            assert(r@.partial_fills_used =~= Seq::<(Seq<u8>, u64)>::empty());
        }
        r
    }

    /// This component's own identity.
    pub fn contract_address(&self) -> (r: AccountId)
        ensures
            r == self@.contract_address,
    {
        self.contract_address
    }

    /// Grant this component an allowance of exactly `amount` from the caller:
    /// an absolute set, not an increment.
    pub fn approve(&mut self, caller: AccountId, amount: i128)
        ensures
            final(self)@ == (FactoryView {
                allowances: old(self)@.allowances.push((caller, amount)),
                ..old(self)@
            }),
            allowance_of(final(self)@.allowances, caller) == amount,
            forall|o: AccountId| o != caller
                ==> allowance_of(final(self)@.allowances, o)
                    == allowance_of(old(self)@.allowances, o),
            old(self)@.wf() ==> final(self)@.wf(),
    {
        self.allowances.push((caller, amount));
        proof {
            assert(final(self)@.allowances.drop_last() =~= old(self)@.allowances);
            assert(final(self)@.escrows =~= old(self)@.escrows);
            assert(final(self)@.partial_fills_used =~= old(self)@.partial_fills_used);
        }
    }

    /// The most recent allowance entry for `owner`, or zero.
    fn allowance_lookup(&self, owner: AccountId) -> (r: i128)
        ensures
            r == allowance_of(self@.allowances, owner),
    {
        let ghost log = self@.allowances;
        let mut i: usize = self.allowances.len();
        proof {
            assert(log.take(log.len() as int) =~= log);
        }
        while i > 0
            invariant
                i <= self.allowances.len(),
                log == self@.allowances,
                allowance_of(log, owner) == allowance_of(log.take(i as int), owner),
            decreases i,
        {
            i = i - 1;
            let entry = self.allowances[i];
            proof {
                assert(log.take(i + 1).last() == log[i as int]);
                assert(log.take(i + 1).drop_last() =~= log.take(i as int));
            }
            if entry.0 == owner {
                return entry.1;
            }
        }
        0
    }

    /// The allowance `owner` has granted `spender`. Only this component can
    /// be granted anything here, so any other spender reads zero.
    pub fn allowance(&self, owner: AccountId, spender: AccountId) -> (r: i128)
        ensures
            r == (if spender == self@.contract_address {
                allowance_of(self@.allowances, owner)
            } else {
                0
            }),
    {
        if spender == self.contract_address {
            self.allowance_lookup(owner)
        } else {
            0
        }
    }

    /// Create a full-fill source escrow: validate the amount and the four
    /// strictly increasing boundaries, consume `token_amount` of the buyer's
    /// allowance, mint the record (the buyer stands as its creator), index it
    /// under the buyer, and lock the buyer's principal plus the creator's
    /// fixed deposit in the vault. Returns the new escrow reference and the
    /// two transfers.
    pub fn create_src_escrow(
        &mut self,
        creator: AccountId,
        hashed_secret: &Vec<u8>,
        recipient: AccountId,
        buyer: AccountId,
        token_amount: i128,
        windows: TimeWindows,
    ) -> (r: Result<(u64, Vec<TokenTransfer>), SwapError>)
        requires
            old(self)@.wf(),
        ensures
            final(self)@.wf(),
            match r {
                Ok(out) => {
                    &&& src_create_error(old(self)@, buyer, token_amount, windows) is None
                    &&& out.0 == old(self)@.escrows.len() as u64
                    &&& final(self)@ == (FactoryView {
                        escrows: old(self)@.escrows.push(
                            EscrowSlotView::Src(SourceEscrowView {
                                creator: buyer,
                                recipient,
                                hashed_secret: hashed_secret@,
                                token: old(self)@.native_token,
                                amount: token_amount,
                                security_deposit: DEPOSIT_AMOUNT,
                                withdrawal_start: windows.withdrawal_start,
                                public_withdrawal_start: windows.public_withdrawal_start,
                                cancellation_start: windows.cancellation_start,
                                public_cancellation_start: windows.public_cancellation_start,
                                funds_withdrawn: false,
                                cancelled: false,
                                part_index: 0,
                                total_parts: 1,
                                is_partial_fill: false,
                            }),
                        ),
                        allowances: old(self)@.allowances.push(
                            (buyer, (allowance_of(old(self)@.allowances, buyer) - token_amount) as i128),
                        ),
                        user_escrows: old(self)@.user_escrows.push((buyer, out.0)),
                        ..old(self)@
                    })
                    &&& out.1@ == seq![
                        (TokenTransfer {
                            token: old(self)@.native_token,
                            from: buyer,
                            to: old(self)@.contract_address,
                            amount: token_amount,
                            uses_allowance: true,
                        }),
                        (TokenTransfer {
                            token: old(self)@.native_token,
                            from: creator,
                            to: old(self)@.contract_address,
                            amount: DEPOSIT_AMOUNT,
                            uses_allowance: false,
                        }),
                    ]
                },
                Err(e) => {
                    &&& *final(self) == *old(self)
                    &&& Some(e) == src_create_error(old(self)@, buyer, token_amount, windows)
                },
            },
    {
        if token_amount <= 0 {
            return Err(SwapError::InvalidAmount);
        }
        if !windows.is_well_ordered() {
            return Err(SwapError::InvalidTimeWindow);
        }
        let current_allowance = self.allowance_lookup(buyer);
        if current_allowance < token_amount {
            return Err(SwapError::InsufficientAllowance);
        }

        self.allowances.push((buyer, current_allowance - token_amount));
        let escrow_id = self.escrows.len() as u64;
        let record = SourceEscrowData {
            creator: buyer,
            recipient,
            hashed_secret: copy_bytes(hashed_secret),
            token: self.native_token,
            amount: token_amount,
            security_deposit: DEPOSIT_AMOUNT,
            withdrawal_start: windows.withdrawal_start,
            public_withdrawal_start: windows.public_withdrawal_start,
            cancellation_start: windows.cancellation_start,
            public_cancellation_start: windows.public_cancellation_start,
            funds_withdrawn: false,
            cancelled: false,
            part_index: 0,
            total_parts: 1,
            is_partial_fill: false,
        };
        self.escrows.push(EscrowSlot::Src(record));
        self.user_escrows.push((buyer, escrow_id));

        let transfers = pay_pair(
            TokenTransfer {
                token: self.native_token,
                from: buyer,
                to: self.contract_address,
                amount: token_amount,
                uses_allowance: true,
            },
            TokenTransfer {
                token: self.native_token,
                from: creator,
                to: self.contract_address,
                amount: DEPOSIT_AMOUNT,
                uses_allowance: false,
            },
        );
        proof {
            assert(final(self)@.escrows =~= old(self)@.escrows.push(
                final(self)@.escrows.last(),
            ));
            assert(final(self)@.partial_fills_used =~= old(self)@.partial_fills_used);
        }
        Ok((escrow_id, transfers))
    }
}


/// Why a plain-secret source withdrawal fails, in the order the checks run;
/// `None` means it succeeds.
pub open spec fn src_withdraw_error(
    e: SourceEscrowView,
    caller: AccountId,
    now: u64,
    secret_hash: Seq<u8>,
) -> Option<SwapError> {
    if e.funds_withdrawn {
        Some(SwapError::AlreadyWithdrawn)
    } else if e.cancelled {
        Some(SwapError::AlreadyCancelled)
    } else if now < e.withdrawal_start {
        Some(SwapError::NotYetOpen)
    } else if now >= e.cancellation_start {
        Some(SwapError::WindowClosed)
    } else if now < e.public_withdrawal_start && caller != e.recipient {
        Some(SwapError::Unauthorized)
    } else if secret_hash != e.hashed_secret {
        Some(SwapError::InvalidSecret)
    } else {
        None
    }
}

/// Why a proof-carrying source withdrawal fails; `None` means it succeeds.
/// The secret is not compared against the commitment directly: it feeds the
/// leaf, and the proof must fold that leaf to the committed Merkle root.
pub open spec fn src_withdraw_proof_error(
    e: SourceEscrowView,
    caller: AccountId,
    now: u64,
    secret_hash: Seq<u8>,
    proof: Seq<Seq<u8>>,
) -> Option<SwapError> {
    if e.funds_withdrawn {
        Some(SwapError::AlreadyWithdrawn)
    } else if e.cancelled {
        Some(SwapError::AlreadyCancelled)
    } else if now < e.withdrawal_start {
        Some(SwapError::NotYetOpen)
    } else if now >= e.cancellation_start {
        Some(SwapError::WindowClosed)
    } else if !e.is_partial_fill {
        Some(SwapError::NotPartialFill)
    } else if now < e.public_withdrawal_start && caller != e.recipient {
        Some(SwapError::Unauthorized)
    } else if proof_fold(leaf_hash(e.part_index, secret_hash), proof) != e.hashed_secret {
        Some(SwapError::InvalidProof)
    } else {
        None
    }
}

/// Why a plain-secret destination withdrawal fails; `None` means it succeeds.
/// In the private window both the recipient and the creator have standing.
pub open spec fn dst_withdraw_error(
    e: DestinationEscrowView,
    caller: AccountId,
    now: u64,
    secret_hash: Seq<u8>,
) -> Option<SwapError> {
    if e.funds_withdrawn {
        Some(SwapError::AlreadyWithdrawn)
    } else if e.cancelled {
        Some(SwapError::AlreadyCancelled)
    } else if now < e.withdrawal_start {
        Some(SwapError::NotYetOpen)
    } else if now >= e.cancellation_start {
        Some(SwapError::WindowClosed)
    } else if now < e.public_withdrawal_start && caller != e.recipient && caller != e.creator {
        Some(SwapError::Unauthorized)
    } else if secret_hash != e.hashed_secret {
        Some(SwapError::InvalidSecret)
    } else {
        None
    }
}

/// Why a proof-carrying destination withdrawal fails; `None` means it
/// succeeds.
pub open spec fn dst_withdraw_proof_error(
    e: DestinationEscrowView,
    caller: AccountId,
    now: u64,
    secret_hash: Seq<u8>,
    proof: Seq<Seq<u8>>,
) -> Option<SwapError> {
    if e.funds_withdrawn {
        Some(SwapError::AlreadyWithdrawn)
    } else if e.cancelled {
        Some(SwapError::AlreadyCancelled)
    } else if now < e.withdrawal_start {
        Some(SwapError::NotYetOpen)
    } else if now >= e.cancellation_start {
        Some(SwapError::WindowClosed)
    } else if !e.is_partial_fill {
        Some(SwapError::NotPartialFill)
    } else if now < e.public_withdrawal_start && caller != e.recipient && caller != e.creator {
        Some(SwapError::Unauthorized)
    } else if proof_fold(leaf_hash(e.part_index, secret_hash), proof) != e.hashed_secret {
        Some(SwapError::InvalidProof)
    } else {
        None
    }
}

/// Why a source cancellation fails; `None` means it succeeds. At and past the
/// public cancellation boundary the attempt is rejected outright — an
/// asymmetry of this protocol that callers must expect.
pub open spec fn src_cancel_error(
    e: SourceEscrowView,
    caller: AccountId,
    now: u64,
) -> Option<SwapError> {
    if e.funds_withdrawn {
        Some(SwapError::AlreadyWithdrawn)
    } else if e.cancelled {
        Some(SwapError::AlreadyCancelled)
    } else if now < e.cancellation_start {
        Some(SwapError::NotYetOpen)
    } else if now >= e.public_cancellation_start {
        Some(SwapError::WindowClosed)
    } else if caller != e.creator {
        Some(SwapError::Unauthorized)
    } else {
        None
    }
}

/// Why a destination cancellation fails; `None` means it succeeds.
pub open spec fn dst_cancel_error(
    e: DestinationEscrowView,
    caller: AccountId,
    now: u64,
) -> Option<SwapError> {
    if e.funds_withdrawn {
        Some(SwapError::AlreadyWithdrawn)
    } else if e.cancelled {
        Some(SwapError::AlreadyCancelled)
    } else if now < e.cancellation_start {
        Some(SwapError::NotYetOpen)
    } else if caller != e.creator {
        Some(SwapError::Unauthorized)
    } else {
        None
    }
}

/// Why a source rescue fails; `None` means it succeeds. Rescue opens a full
/// grace delay past the public cancellation boundary and belongs to the
/// recipient.
pub open spec fn src_rescue_error(
    e: SourceEscrowView,
    caller: AccountId,
    now: u64,
) -> Option<SwapError> {
    if e.funds_withdrawn {
        Some(SwapError::AlreadyWithdrawn)
    } else if e.cancelled {
        Some(SwapError::AlreadyCancelled)
    } else if (now as int) < e.public_cancellation_start as int + RESCUE_DELAY as int {
        Some(SwapError::NotYetOpen)
    } else if caller != e.recipient {
        Some(SwapError::Unauthorized)
    } else {
        None
    }
}

/// Why a destination rescue fails; `None` means it succeeds. Rescue opens a
/// full grace delay past the cancellation boundary and belongs to the
/// creator.
pub open spec fn dst_rescue_error(
    e: DestinationEscrowView,
    caller: AccountId,
    now: u64,
) -> Option<SwapError> {
    if e.funds_withdrawn {
        Some(SwapError::AlreadyWithdrawn)
    } else if e.cancelled {
        Some(SwapError::AlreadyCancelled)
    } else if (now as int) < e.cancellation_start as int + RESCUE_DELAY as int {
        Some(SwapError::NotYetOpen)
    } else if caller != e.creator {
        Some(SwapError::Unauthorized)
    } else {
        None
    }
}

/// What a successful destination-part creation leaves behind: the record
/// minted under a fresh reference, indexed under its creator, and the
/// creator's principal and deposit locked in the vault.
pub open spec fn dst_partial_created_post(
    old_f: FactoryView,
    new_f: FactoryView,
    escrow_id: u64,
    transfers: Seq<TokenTransfer>,
    creator: AccountId,
    hashed_secret: Seq<u8>,
    recipient: AccountId,
    token_amount: i128,
    withdrawal_start: u64,
    public_withdrawal_start: u64,
    cancellation_start: u64,
    part_index: u64,
    total_parts: u32,
) -> bool {
    &&& escrow_id == old_f.escrows.len() as u64
    &&& new_f == (FactoryView {
        escrows: old_f.escrows.push(
            EscrowSlotView::Dst(DestinationEscrowView {
                creator,
                recipient,
                hashed_secret,
                token: old_f.native_token,
                amount: token_amount,
                security_deposit: DEPOSIT_AMOUNT,
                withdrawal_start,
                public_withdrawal_start,
                cancellation_start,
                funds_withdrawn: false,
                cancelled: false,
                part_index,
                total_parts,
                is_partial_fill: total_parts > 1,
            }),
        ),
        user_escrows: old_f.user_escrows.push((creator, escrow_id)),
        ..old_f
    })
    &&& transfers == seq![
        (TokenTransfer {
            token: old_f.native_token,
            from: creator,
            to: old_f.contract_address,
            amount: token_amount,
            uses_allowance: false,
        }),
        (TokenTransfer {
            token: old_f.native_token,
            from: creator,
            to: old_f.contract_address,
            amount: DEPOSIT_AMOUNT,
            uses_allowance: false,
        }),
    ]
}

/// What a successful source withdrawal leaves behind: the record turned
/// withdrawn, everything else untouched, the principal paid to the
/// contractual recipient, and the deposit to the caller as the redemption
/// incentive.
pub open spec fn src_withdrawn_post(
    old_f: FactoryView,
    new_f: FactoryView,
    transfers: Seq<TokenTransfer>,
    e: SourceEscrowView,
    escrow_id: u64,
    caller: AccountId,
) -> bool {
    &&& new_f == (FactoryView {
        escrows: old_f.escrows.update(
            escrow_id as int,
            EscrowSlotView::Src(SourceEscrowView { funds_withdrawn: true, ..e }),
        ),
        ..old_f
    })
    &&& transfers == seq![
        (TokenTransfer {
            token: e.token,
            from: old_f.contract_address,
            to: e.recipient,
            amount: e.amount,
            uses_allowance: false,
        }),
        (TokenTransfer {
            token: e.token,
            from: old_f.contract_address,
            to: caller,
            amount: e.security_deposit,
            uses_allowance: false,
        }),
    ]
}

/// What a successful destination withdrawal leaves behind: the record turned
/// withdrawn, the principal paid to the contractual recipient, and the
/// deposit to the caller.
pub open spec fn dst_withdrawn_post(
    old_f: FactoryView,
    new_f: FactoryView,
    transfers: Seq<TokenTransfer>,
    e: DestinationEscrowView,
    escrow_id: u64,
    caller: AccountId,
) -> bool {
    &&& new_f == (FactoryView {
        escrows: old_f.escrows.update(
            escrow_id as int,
            EscrowSlotView::Dst(DestinationEscrowView { funds_withdrawn: true, ..e }),
        ),
        ..old_f
    })
    &&& transfers == seq![
        (TokenTransfer {
            token: e.token,
            from: old_f.contract_address,
            to: e.recipient,
            amount: e.amount,
            uses_allowance: false,
        }),
        (TokenTransfer {
            token: e.token,
            from: old_f.contract_address,
            to: caller,
            amount: e.security_deposit,
            uses_allowance: false,
        }),
    ]
}

/// A vector of exactly the two given transfers.
fn pay_pair(first: TokenTransfer, second: TokenTransfer) -> (r: Vec<TokenTransfer>)
    ensures
        r@ == seq![first, second],
{
    let mut r: Vec<TokenTransfer> = Vec::new();
    r.push(first);
    r.push(second);
    proof {
        assert(r@ =~= seq![first, second]);
    }
    r
}

impl HashLockedEscrowFactory {
    /// Whether the leaf at `part` under `root` was consumed before.
    fn partial_used_lookup(&self, root: &Vec<u8>, part: u64) -> (r: bool)
        ensures
            r == partial_fill_used(self@.partial_fills_used, root@, part),
    {
        let ghost log = self@.partial_fills_used;
        let mut i: usize = 0;
        while i < self.partial_fills_used.len()
            invariant
                i <= self.partial_fills_used.len(),
                log == self@.partial_fills_used,
                log.len() == self.partial_fills_used.len(),
                forall|j: int| 0 <= j < i ==> !(log[j].0 == root@ && log[j].1 == part),
            decreases self.partial_fills_used.len() - i,
        {
            let entry = &self.partial_fills_used[i];
            if entry.1 == part && bytes_eq(&entry.0, root) {
                proof {
                    assert(log[i as int].0 == root@ && log[i as int].1 == part);
                }
                return true;
            }
            i = i + 1;
        }
        false
    }

    /// Create a source escrow for one part of an order. For a partial fill
    /// the secret commitment is the Merkle root over all part leaves; the
    /// (root, part) leaf is consumed here, permanently. The public
    /// cancellation boundary is derived one hour past the cancellation
    /// boundary. The buyer's allowance is consumed only when the buyer
    /// creates for themself; a third-party creator is trusted to have
    /// consumed it on its own side.
    pub fn create_src_escrow_partial(
        &mut self,
        creator: AccountId,
        hashed_secret: &Vec<u8>,
        recipient: AccountId,
        buyer: AccountId,
        token_amount: i128,
        withdrawal_start: u64,
        public_withdrawal_start: u64,
        cancellation_start: u64,
        part_index: u64,
        total_parts: u32,
    ) -> (r: Result<(u64, Vec<TokenTransfer>), SwapError>)
        requires
            old(self)@.wf(),
            cancellation_start as int + 3600 <= u64::MAX as int,
        ensures
            final(self)@.wf(),
            match r {
                Ok(out) => {
                    &&& src_partial_create_error(
                        old(self)@, creator, hashed_secret@, buyer, token_amount,
                        withdrawal_start, public_withdrawal_start, cancellation_start,
                        part_index, total_parts,
                    ) is None
                    &&& out.0 == old(self)@.escrows.len() as u64
                    &&& final(self)@ == (FactoryView {
                        escrows: old(self)@.escrows.push(
                            EscrowSlotView::Src(SourceEscrowView {
                                creator: buyer,
                                recipient,
                                hashed_secret: hashed_secret@,
                                token: old(self)@.native_token,
                                amount: token_amount,
                                security_deposit: DEPOSIT_AMOUNT,
                                withdrawal_start,
                                public_withdrawal_start,
                                cancellation_start,
                                public_cancellation_start: (cancellation_start + 3600) as u64,
                                funds_withdrawn: false,
                                cancelled: false,
                                part_index,
                                total_parts,
                                is_partial_fill: total_parts > 1,
                            }),
                        ),
                        allowances: if creator == buyer {
                            old(self)@.allowances.push(
                                (buyer, (allowance_of(old(self)@.allowances, buyer) - token_amount) as i128),
                            )
                        } else {
                            old(self)@.allowances
                        },
                        user_escrows: old(self)@.user_escrows.push((buyer, out.0)),
                        partial_fills_used: if total_parts > 1 {
                            old(self)@.partial_fills_used.push((hashed_secret@, part_index))
                        } else {
                            old(self)@.partial_fills_used
                        },
                        ..old(self)@
                    })
                    &&& out.1@ == seq![
                        (TokenTransfer {
                            token: old(self)@.native_token,
                            from: buyer,
                            to: old(self)@.contract_address,
                            amount: token_amount,
                            uses_allowance: true,
                        }),
                        (TokenTransfer {
                            token: old(self)@.native_token,
                            from: creator,
                            to: old(self)@.contract_address,
                            amount: DEPOSIT_AMOUNT,
                            uses_allowance: false,
                        }),
                    ]
                },
                Err(e) => {
                    &&& *final(self) == *old(self)
                    &&& Some(e) == src_partial_create_error(
                        old(self)@, creator, hashed_secret@, buyer, token_amount,
                        withdrawal_start, public_withdrawal_start, cancellation_start,
                        part_index, total_parts,
                    )
                },
            },
    {
        if token_amount <= 0 {
            return Err(SwapError::InvalidAmount);
        }
        if public_withdrawal_start <= withdrawal_start
            || cancellation_start <= public_withdrawal_start {
            return Err(SwapError::InvalidTimeWindow);
        }
        let is_partial_fill = total_parts > 1;
        if is_partial_fill {
            if part_index >= total_parts as u64 {
                return Err(SwapError::InvalidPartIndex);
            }
            if self.partial_used_lookup(hashed_secret, part_index) {
                return Err(SwapError::AlreadyFilled);
            }
        }
        if creator == buyer {
            let current_allowance = self.allowance_lookup(buyer);
            if current_allowance < token_amount {
                return Err(SwapError::InsufficientAllowance);
            }
            self.allowances.push((buyer, current_allowance - token_amount));
        }
        if is_partial_fill {
            self.partial_fills_used.push((copy_bytes(hashed_secret), part_index));
        }
        let escrow_id = self.escrows.len() as u64;
        let record = SourceEscrowData {
            creator: buyer,
            recipient,
            hashed_secret: copy_bytes(hashed_secret),
            token: self.native_token,
            amount: token_amount,
            security_deposit: DEPOSIT_AMOUNT,
            withdrawal_start,
            public_withdrawal_start,
            cancellation_start,
            public_cancellation_start: cancellation_start + 3600,
            funds_withdrawn: false,
            cancelled: false,
            part_index,
            total_parts,
            is_partial_fill,
        };
        self.escrows.push(EscrowSlot::Src(record));
        self.user_escrows.push((buyer, escrow_id));
        let transfers = pay_pair(
            TokenTransfer {
                token: self.native_token,
                from: buyer,
                to: self.contract_address,
                amount: token_amount,
                uses_allowance: true,
            },
            TokenTransfer {
                token: self.native_token,
                from: creator,
                to: self.contract_address,
                amount: DEPOSIT_AMOUNT,
                uses_allowance: false,
            },
        );
        proof {
            assert(final(self)@.escrows =~= old(self)@.escrows.push(
                final(self)@.escrows.last(),
            ));
            if is_partial_fill {
                assert(final(self)@.partial_fills_used =~= old(self)@.partial_fills_used.push(
                    (hashed_secret@, part_index),
                ));
            } else {
                assert(final(self)@.partial_fills_used =~= old(self)@.partial_fills_used);
            }
        }
        Ok((escrow_id, transfers))
    }

    /// Create a full-fill destination escrow: the creator locks their own
    /// principal and deposit for the recipient; no allowance is involved.
    pub fn create_dst_escrow(
        &mut self,
        creator: AccountId,
        hashed_secret: &Vec<u8>,
        recipient: AccountId,
        token_amount: i128,
        withdrawal_start: u64,
        public_withdrawal_start: u64,
        cancellation_start: u64,
    ) -> (r: Result<(u64, Vec<TokenTransfer>), SwapError>)
        requires
            old(self)@.wf(),
        ensures
            final(self)@.wf(),
            match r {
                Ok(out) => {
                    &&& create_window_error(
                        token_amount, withdrawal_start, public_withdrawal_start,
                        cancellation_start,
                    ) is None
                    &&& out.0 == old(self)@.escrows.len() as u64
                    &&& final(self)@ == (FactoryView {
                        escrows: old(self)@.escrows.push(
                            EscrowSlotView::Dst(DestinationEscrowView {
                                creator,
                                recipient,
                                hashed_secret: hashed_secret@,
                                token: old(self)@.native_token,
                                amount: token_amount,
                                security_deposit: DEPOSIT_AMOUNT,
                                withdrawal_start,
                                public_withdrawal_start,
                                cancellation_start,
                                funds_withdrawn: false,
                                cancelled: false,
                                part_index: 0,
                                total_parts: 1,
                                is_partial_fill: false,
                            }),
                        ),
                        user_escrows: old(self)@.user_escrows.push((creator, out.0)),
                        ..old(self)@
                    })
                    &&& out.1@ == seq![
                        (TokenTransfer {
                            token: old(self)@.native_token,
                            from: creator,
                            to: old(self)@.contract_address,
                            amount: token_amount,
                            uses_allowance: false,
                        }),
                        (TokenTransfer {
                            token: old(self)@.native_token,
                            from: creator,
                            to: old(self)@.contract_address,
                            amount: DEPOSIT_AMOUNT,
                            uses_allowance: false,
                        }),
                    ]
                },
                Err(e) => {
                    &&& *final(self) == *old(self)
                    &&& Some(e) == create_window_error(
                        token_amount, withdrawal_start, public_withdrawal_start,
                        cancellation_start,
                    )
                },
            },
    {
        if token_amount <= 0 {
            return Err(SwapError::InvalidAmount);
        }
        if public_withdrawal_start <= withdrawal_start
            || cancellation_start <= public_withdrawal_start {
            return Err(SwapError::InvalidTimeWindow);
        }
        let escrow_id = self.escrows.len() as u64;
        let record = DestinationEscrowData {
            creator,
            recipient,
            hashed_secret: copy_bytes(hashed_secret),
            token: self.native_token,
            amount: token_amount,
            security_deposit: DEPOSIT_AMOUNT,
            withdrawal_start,
            public_withdrawal_start,
            cancellation_start,
            funds_withdrawn: false,
            cancelled: false,
            part_index: 0,
            total_parts: 1,
            is_partial_fill: false,
        };
        self.escrows.push(EscrowSlot::Dst(record));
        self.user_escrows.push((creator, escrow_id));
        let transfers = pay_pair(
            TokenTransfer {
                token: self.native_token,
                from: creator,
                to: self.contract_address,
                amount: token_amount,
                uses_allowance: false,
            },
            TokenTransfer {
                token: self.native_token,
                from: creator,
                to: self.contract_address,
                amount: DEPOSIT_AMOUNT,
                uses_allowance: false,
            },
        );
        proof {
            assert(final(self)@.escrows =~= old(self)@.escrows.push(
                final(self)@.escrows.last(),
            ));
            assert(final(self)@.partial_fills_used =~= old(self)@.partial_fills_used);
        }
        Ok((escrow_id, transfers))
    }

    /// Create a destination escrow for one part of an order. Unlike the
    /// source side, destination parts are not tracked against the root.
    pub fn create_dst_escrow_partial(
        &mut self,
        creator: AccountId,
        hashed_secret: &Vec<u8>,
        recipient: AccountId,
        token_amount: i128,
        withdrawal_start: u64,
        public_withdrawal_start: u64,
        cancellation_start: u64,
        part_index: u64,
        total_parts: u32,
    ) -> (r: Result<(u64, Vec<TokenTransfer>), SwapError>)
        requires
            old(self)@.wf(),
        ensures
            final(self)@.wf(),
            match r {
                Ok(out) => {
                    &&& dst_partial_create_error(
                        token_amount, withdrawal_start, public_withdrawal_start,
                        cancellation_start, part_index, total_parts,
                    ) is None
                    &&& dst_partial_created_post(
                        old(self)@, final(self)@, out.0, out.1@, creator, hashed_secret@,
                        recipient, token_amount, withdrawal_start, public_withdrawal_start,
                        cancellation_start, part_index, total_parts,
                    )
                },
                Err(e) => {
                    &&& *final(self) == *old(self)
                    &&& Some(e) == dst_partial_create_error(
                        token_amount, withdrawal_start, public_withdrawal_start,
                        cancellation_start, part_index, total_parts,
                    )
                },
            },
    {
        if token_amount <= 0 {
            return Err(SwapError::InvalidAmount);
        }
        if public_withdrawal_start <= withdrawal_start
            || cancellation_start <= public_withdrawal_start {
            return Err(SwapError::InvalidTimeWindow);
        }
        let is_partial_fill = total_parts > 1;
        if is_partial_fill && part_index >= total_parts as u64 {
            return Err(SwapError::InvalidPartIndex);
        }
        let escrow_id = self.escrows.len() as u64;
        let record = DestinationEscrowData {
            creator,
            recipient,
            hashed_secret: copy_bytes(hashed_secret),
            token: self.native_token,
            amount: token_amount,
            security_deposit: DEPOSIT_AMOUNT,
            withdrawal_start,
            public_withdrawal_start,
            cancellation_start,
            funds_withdrawn: false,
            cancelled: false,
            part_index,
            total_parts,
            is_partial_fill,
        };
        self.escrows.push(EscrowSlot::Dst(record));
        self.user_escrows.push((creator, escrow_id));
        let transfers = pay_pair(
            TokenTransfer {
                token: self.native_token,
                from: creator,
                to: self.contract_address,
                amount: token_amount,
                uses_allowance: false,
            },
            TokenTransfer {
                token: self.native_token,
                from: creator,
                to: self.contract_address,
                amount: DEPOSIT_AMOUNT,
                uses_allowance: false,
            },
        );
        proof {
            assert(final(self)@.escrows =~= old(self)@.escrows.push(
                final(self)@.escrows.last(),
            ));
            assert(final(self)@.partial_fills_used =~= old(self)@.partial_fills_used);
            assert(final(self)@.user_escrows == old(self)@.user_escrows.push(
                (creator, escrow_id),
            ));
        }
        Ok((escrow_id, transfers))
    }
}

impl HashLockedEscrowFactory {
    /// Redeem a full-fill source escrow with the revealed secret. Within the
    /// open window, and privately only for the recipient, the record turns
    /// terminal; the principal goes to the contractual recipient and the
    /// deposit rewards whoever made the call.
    pub fn withdraw_src_escrow(&mut self, caller: AccountId, escrow_id: u64, secret: &Vec<u8>, now: u64) -> (r: Result<
        Vec<TokenTransfer>,
        SwapError,
    >)
        requires
            old(self)@.wf(),
        ensures
            final(self)@.wf(),
            match r {
                Ok(ts) => {
                    let e = old(self)@.src_view(escrow_id).unwrap();
                    &&& old(self)@.src_view(escrow_id) is Some
                    &&& src_withdraw_error(e, caller, now, sha256_of(secret@)) is None
                    &&& src_withdrawn_post(old(self)@, final(self)@, ts@, e, escrow_id, caller)
                },
                Err(err) => {
                    &&& *final(self) == *old(self)
                    &&& match old(self)@.src_view(escrow_id) {
                        Option::None => err == SwapError::RecordNotFound,
                        Option::Some(e) => Some(err) == src_withdraw_error(e, caller, now, sha256_of(secret@)),
                    }
                },
            },
    {
        if escrow_id >= self.escrows.len() as u64 {
            return Err(SwapError::RecordNotFound);
        }
        let idx = escrow_id as usize;
        let (updated, transfers) = match &self.escrows[idx] {
            EscrowSlot::Dst(_) => {
                return Err(SwapError::RecordNotFound);
            },
            EscrowSlot::Src(e) => {
                if e.funds_withdrawn {
                    return Err(SwapError::AlreadyWithdrawn);
                }
                if e.cancelled {
                    return Err(SwapError::AlreadyCancelled);
                }
                if now < e.withdrawal_start {
                    return Err(SwapError::NotYetOpen);
                }
                if now >= e.cancellation_start {
                    return Err(SwapError::WindowClosed);
                }
                if now < e.public_withdrawal_start && caller != e.recipient {
                    return Err(SwapError::Unauthorized);
                }
                let computed = sha256(secret);
                if !bytes_eq(&computed, &e.hashed_secret) {
                    return Err(SwapError::InvalidSecret);
                }
                let updated = SourceEscrowData {
                    creator: e.creator,
                    recipient: e.recipient,
                    hashed_secret: copy_bytes(&e.hashed_secret),
                    token: e.token,
                    amount: e.amount,
                    security_deposit: e.security_deposit,
                    withdrawal_start: e.withdrawal_start,
                    public_withdrawal_start: e.public_withdrawal_start,
                    cancellation_start: e.cancellation_start,
                    public_cancellation_start: e.public_cancellation_start,
                    funds_withdrawn: true,
                    cancelled: e.cancelled,
                    part_index: e.part_index,
                    total_parts: e.total_parts,
                    is_partial_fill: e.is_partial_fill,
                };
                let transfers = pay_pair(
                    TokenTransfer {
                        token: e.token,
                        from: self.contract_address,
                        to: e.recipient,
                        amount: e.amount,
                        uses_allowance: false,
                    },
                    TokenTransfer {
                        token: e.token,
                        from: self.contract_address,
                        to: caller,
                        amount: e.security_deposit,
                        uses_allowance: false,
                    },
                );
                (updated, transfers)
            },
        };
        let slot = &mut self.escrows[idx];
        *slot = EscrowSlot::Src(updated);
        proof {
            let e = old(self)@.src_view(escrow_id).unwrap();
            assert(final(self)@.escrows =~= old(self)@.escrows.update(
                escrow_id as int,
                EscrowSlotView::Src(SourceEscrowView { funds_withdrawn: true, ..e }),
            ));
            assert(final(self)@.partial_fills_used =~= old(self)@.partial_fills_used);
            assert(final(self)@.user_escrows == old(self)@.user_escrows);
            assert(final(self)@.escrows.len() == old(self)@.escrows.len());
            assert forall|i: int| 0 <= i < final(self)@.escrows.len() implies slot_wf(
                #[trigger] final(self)@.escrows[i],
            ) by {
                if i != escrow_id as int {
                    assert(final(self)@.escrows[i] == old(self)@.escrows[i]);
                }
            }
        }
        Ok(transfers)
    }

    /// Redeem one part of a partial-fill source escrow: the secret's hash
    /// forms the part's leaf, and the Merkle proof must fold that leaf to the
    /// committed root.
    pub fn withdraw_src_escrow_with_proof(&mut self, caller: AccountId, escrow_id: u64, secret: &Vec<u8>, merkle_proof: &Vec<Vec<u8>>, now: u64) -> (r: Result<
        Vec<TokenTransfer>,
        SwapError,
    >)
        requires
            old(self)@.wf(),
        ensures
            final(self)@.wf(),
            match r {
                Ok(ts) => {
                    let e = old(self)@.src_view(escrow_id).unwrap();
                    &&& old(self)@.src_view(escrow_id) is Some
                    &&& src_withdraw_proof_error(e, caller, now, sha256_of(secret@), merkle_proof.deep_view()) is None
                    &&& src_withdrawn_post(old(self)@, final(self)@, ts@, e, escrow_id, caller)
                },
                Err(err) => {
                    &&& *final(self) == *old(self)
                    &&& match old(self)@.src_view(escrow_id) {
                        Option::None => err == SwapError::RecordNotFound,
                        Option::Some(e) => Some(err) == src_withdraw_proof_error(e, caller, now, sha256_of(secret@), merkle_proof.deep_view()),
                    }
                },
            },
    {
        if escrow_id >= self.escrows.len() as u64 {
            return Err(SwapError::RecordNotFound);
        }
        let idx = escrow_id as usize;
        let (updated, transfers) = match &self.escrows[idx] {
            EscrowSlot::Dst(_) => {
                return Err(SwapError::RecordNotFound);
            },
            EscrowSlot::Src(e) => {
                if e.funds_withdrawn {
                    return Err(SwapError::AlreadyWithdrawn);
                }
                if e.cancelled {
                    return Err(SwapError::AlreadyCancelled);
                }
                if now < e.withdrawal_start {
                    return Err(SwapError::NotYetOpen);
                }
                if now >= e.cancellation_start {
                    return Err(SwapError::WindowClosed);
                }
                if !e.is_partial_fill {
                    return Err(SwapError::NotPartialFill);
                }
                if now < e.public_withdrawal_start && caller != e.recipient {
                    return Err(SwapError::Unauthorized);
                }
                let secret_hash = sha256(secret);
                let leaf = generate_leaf(e.part_index, &secret_hash);
                if !verify_merkle_proof(merkle_proof, &e.hashed_secret, &leaf) {
                    return Err(SwapError::InvalidProof);
                }
                let updated = SourceEscrowData {
                    creator: e.creator,
                    recipient: e.recipient,
                    hashed_secret: copy_bytes(&e.hashed_secret),
                    token: e.token,
                    amount: e.amount,
                    security_deposit: e.security_deposit,
                    withdrawal_start: e.withdrawal_start,
                    public_withdrawal_start: e.public_withdrawal_start,
                    cancellation_start: e.cancellation_start,
                    public_cancellation_start: e.public_cancellation_start,
                    funds_withdrawn: true,
                    cancelled: e.cancelled,
                    part_index: e.part_index,
                    total_parts: e.total_parts,
                    is_partial_fill: e.is_partial_fill,
                };
                let transfers = pay_pair(
                    TokenTransfer {
                        token: e.token,
                        from: self.contract_address,
                        to: e.recipient,
                        amount: e.amount,
                        uses_allowance: false,
                    },
                    TokenTransfer {
                        token: e.token,
                        from: self.contract_address,
                        to: caller,
                        amount: e.security_deposit,
                        uses_allowance: false,
                    },
                );
                (updated, transfers)
            },
        };
        let slot = &mut self.escrows[idx];
        *slot = EscrowSlot::Src(updated);
        proof {
            let e = old(self)@.src_view(escrow_id).unwrap();
            assert(final(self)@.escrows =~= old(self)@.escrows.update(
                escrow_id as int,
                EscrowSlotView::Src(SourceEscrowView { funds_withdrawn: true, ..e }),
            ));
            assert(final(self)@.partial_fills_used =~= old(self)@.partial_fills_used);
            assert(final(self)@.user_escrows == old(self)@.user_escrows);
            assert(final(self)@.escrows.len() == old(self)@.escrows.len());
            assert forall|i: int| 0 <= i < final(self)@.escrows.len() implies slot_wf(
                #[trigger] final(self)@.escrows[i],
            ) by {
                if i != escrow_id as int {
                    assert(final(self)@.escrows[i] == old(self)@.escrows[i]);
                }
            }
        }
        Ok(transfers)
    }

    /// Redeem a full-fill destination escrow. The principal always goes to
    /// the contractual recipient; the deposit rewards whoever made the call.
    pub fn withdraw_dst_escrow(&mut self, caller: AccountId, escrow_id: u64, secret: &Vec<u8>, now: u64) -> (r: Result<
        Vec<TokenTransfer>,
        SwapError,
    >)
        requires
            old(self)@.wf(),
        ensures
            final(self)@.wf(),
            match r {
                Ok(ts) => {
                    let e = old(self)@.dst_view(escrow_id).unwrap();
                    &&& old(self)@.dst_view(escrow_id) is Some
                    &&& dst_withdraw_error(e, caller, now, sha256_of(secret@)) is None
                    &&& dst_withdrawn_post(old(self)@, final(self)@, ts@, e, escrow_id, caller)
                },
                Err(err) => {
                    &&& *final(self) == *old(self)
                    &&& match old(self)@.dst_view(escrow_id) {
                        Option::None => err == SwapError::RecordNotFound,
                        Option::Some(e) => Some(err) == dst_withdraw_error(e, caller, now, sha256_of(secret@)),
                    }
                },
            },
    {
        if escrow_id >= self.escrows.len() as u64 {
            return Err(SwapError::RecordNotFound);
        }
        let idx = escrow_id as usize;
        let (updated, transfers) = match &self.escrows[idx] {
            EscrowSlot::Src(_) => {
                return Err(SwapError::RecordNotFound);
            },
            EscrowSlot::Dst(e) => {
                if e.funds_withdrawn {
                    return Err(SwapError::AlreadyWithdrawn);
                }
                if e.cancelled {
                    return Err(SwapError::AlreadyCancelled);
                }
                if now < e.withdrawal_start {
                    return Err(SwapError::NotYetOpen);
                }
                if now >= e.cancellation_start {
                    return Err(SwapError::WindowClosed);
                }
                if now < e.public_withdrawal_start && caller != e.recipient && caller != e.creator {
                    return Err(SwapError::Unauthorized);
                }
                let computed = sha256(secret);
                if !bytes_eq(&computed, &e.hashed_secret) {
                    return Err(SwapError::InvalidSecret);
                }
                let updated = DestinationEscrowData {
                    creator: e.creator,
                    recipient: e.recipient,
                    hashed_secret: copy_bytes(&e.hashed_secret),
                    token: e.token,
                    amount: e.amount,
                    security_deposit: e.security_deposit,
                    withdrawal_start: e.withdrawal_start,
                    public_withdrawal_start: e.public_withdrawal_start,
                    cancellation_start: e.cancellation_start,
                    funds_withdrawn: true,
                    cancelled: e.cancelled,
                    part_index: e.part_index,
                    total_parts: e.total_parts,
                    is_partial_fill: e.is_partial_fill,
                };
                let transfers = pay_pair(
                    TokenTransfer {
                        token: e.token,
                        from: self.contract_address,
                        to: e.recipient,
                        amount: e.amount,
                        uses_allowance: false,
                    },
                    TokenTransfer {
                        token: e.token,
                        from: self.contract_address,
                        to: caller,
                        amount: e.security_deposit,
                        uses_allowance: false,
                    },
                );
                (updated, transfers)
            },
        };
        let slot = &mut self.escrows[idx];
        *slot = EscrowSlot::Dst(updated);
        proof {
            let e = old(self)@.dst_view(escrow_id).unwrap();
            assert(final(self)@.escrows =~= old(self)@.escrows.update(
                escrow_id as int,
                EscrowSlotView::Dst(DestinationEscrowView { funds_withdrawn: true, ..e }),
            ));
            assert(final(self)@.partial_fills_used =~= old(self)@.partial_fills_used);
            assert(final(self)@.user_escrows == old(self)@.user_escrows);
            assert(final(self)@.escrows.len() == old(self)@.escrows.len());
            assert forall|i: int| 0 <= i < final(self)@.escrows.len() implies slot_wf(
                #[trigger] final(self)@.escrows[i],
            ) by {
                if i != escrow_id as int {
                    assert(final(self)@.escrows[i] == old(self)@.escrows[i]);
                }
            }
        }
        Ok(transfers)
    }

    /// Redeem one part of a partial-fill destination escrow against the
    /// committed Merkle root.
    pub fn withdraw_dst_escrow_with_proof(&mut self, caller: AccountId, escrow_id: u64, secret: &Vec<u8>, merkle_proof: &Vec<Vec<u8>>, now: u64) -> (r: Result<
        Vec<TokenTransfer>,
        SwapError,
    >)
        requires
            old(self)@.wf(),
        ensures
            final(self)@.wf(),
            match r {
                Ok(ts) => {
                    let e = old(self)@.dst_view(escrow_id).unwrap();
                    &&& old(self)@.dst_view(escrow_id) is Some
                    &&& dst_withdraw_proof_error(e, caller, now, sha256_of(secret@), merkle_proof.deep_view()) is None
                    &&& dst_withdrawn_post(old(self)@, final(self)@, ts@, e, escrow_id, caller)
                },
                Err(err) => {
                    &&& *final(self) == *old(self)
                    &&& match old(self)@.dst_view(escrow_id) {
                        Option::None => err == SwapError::RecordNotFound,
                        Option::Some(e) => Some(err) == dst_withdraw_proof_error(e, caller, now, sha256_of(secret@), merkle_proof.deep_view()),
                    }
                },
            },
    {
        if escrow_id >= self.escrows.len() as u64 {
            return Err(SwapError::RecordNotFound);
        }
        let idx = escrow_id as usize;
        let (updated, transfers) = match &self.escrows[idx] {
            EscrowSlot::Src(_) => {
                return Err(SwapError::RecordNotFound);
            },
            EscrowSlot::Dst(e) => {
                if e.funds_withdrawn {
                    return Err(SwapError::AlreadyWithdrawn);
                }
                if e.cancelled {
                    return Err(SwapError::AlreadyCancelled);
                }
                if now < e.withdrawal_start {
                    return Err(SwapError::NotYetOpen);
                }
                if now >= e.cancellation_start {
                    return Err(SwapError::WindowClosed);
                }
                if !e.is_partial_fill {
                    return Err(SwapError::NotPartialFill);
                }
                if now < e.public_withdrawal_start && caller != e.recipient && caller != e.creator {
                    return Err(SwapError::Unauthorized);
                }
                let secret_hash = sha256(secret);
                let leaf = generate_leaf(e.part_index, &secret_hash);
                if !verify_merkle_proof(merkle_proof, &e.hashed_secret, &leaf) {
                    return Err(SwapError::InvalidProof);
                }
                let updated = DestinationEscrowData {
                    creator: e.creator,
                    recipient: e.recipient,
                    hashed_secret: copy_bytes(&e.hashed_secret),
                    token: e.token,
                    amount: e.amount,
                    security_deposit: e.security_deposit,
                    withdrawal_start: e.withdrawal_start,
                    public_withdrawal_start: e.public_withdrawal_start,
                    cancellation_start: e.cancellation_start,
                    funds_withdrawn: true,
                    cancelled: e.cancelled,
                    part_index: e.part_index,
                    total_parts: e.total_parts,
                    is_partial_fill: e.is_partial_fill,
                };
                let transfers = pay_pair(
                    TokenTransfer {
                        token: e.token,
                        from: self.contract_address,
                        to: e.recipient,
                        amount: e.amount,
                        uses_allowance: false,
                    },
                    TokenTransfer {
                        token: e.token,
                        from: self.contract_address,
                        to: caller,
                        amount: e.security_deposit,
                        uses_allowance: false,
                    },
                );
                (updated, transfers)
            },
        };
        let slot = &mut self.escrows[idx];
        *slot = EscrowSlot::Dst(updated);
        proof {
            let e = old(self)@.dst_view(escrow_id).unwrap();
            assert(final(self)@.escrows =~= old(self)@.escrows.update(
                escrow_id as int,
                EscrowSlotView::Dst(DestinationEscrowView { funds_withdrawn: true, ..e }),
            ));
            assert(final(self)@.partial_fills_used =~= old(self)@.partial_fills_used);
            assert(final(self)@.user_escrows == old(self)@.user_escrows);
            assert(final(self)@.escrows.len() == old(self)@.escrows.len());
            assert forall|i: int| 0 <= i < final(self)@.escrows.len() implies slot_wf(
                #[trigger] final(self)@.escrows[i],
            ) by {
                if i != escrow_id as int {
                    assert(final(self)@.escrows[i] == old(self)@.escrows[i]);
                }
            }
        }
        Ok(transfers)
    }

    /// Cancel a source escrow: only its creator, only inside the private
    /// cancellation window; principal and deposit return to the creator.
    pub fn cancel_src_escrow(&mut self, caller: AccountId, escrow_id: u64, now: u64) -> (r: Result<
        Vec<TokenTransfer>,
        SwapError,
    >)
        requires
            old(self)@.wf(),
        ensures
            final(self)@.wf(),
            match r {
                Ok(ts) => {
                    let e = old(self)@.src_view(escrow_id).unwrap();
                    &&& old(self)@.src_view(escrow_id) is Some
                    &&& src_cancel_error(e, caller, now) is None
                    &&& final(self)@ == (FactoryView {
                        escrows: old(self)@.escrows.update(
                            escrow_id as int,
                            EscrowSlotView::Src(SourceEscrowView { cancelled: true, ..e }),
                        ),
                        ..old(self)@
                    })
                    &&& ts@ == seq![
                        (TokenTransfer {
                            token: e.token,
                            from: old(self)@.contract_address,
                            to: e.creator,
                            amount: e.amount,
                            uses_allowance: false,
                        }),
                        (TokenTransfer {
                            token: e.token,
                            from: old(self)@.contract_address,
                            to: e.creator,
                            amount: e.security_deposit,
                            uses_allowance: false,
                        }),
                    ]
                },
                Err(err) => {
                    &&& *final(self) == *old(self)
                    &&& match old(self)@.src_view(escrow_id) {
                        Option::None => err == SwapError::RecordNotFound,
                        Option::Some(e) => Some(err) == src_cancel_error(e, caller, now),
                    }
                },
            },
    {
        if escrow_id >= self.escrows.len() as u64 {
            return Err(SwapError::RecordNotFound);
        }
        let idx = escrow_id as usize;
        let (updated, transfers) = match &self.escrows[idx] {
            EscrowSlot::Dst(_) => {
                return Err(SwapError::RecordNotFound);
            },
            EscrowSlot::Src(e) => {
                if e.funds_withdrawn {
                    return Err(SwapError::AlreadyWithdrawn);
                }
                if e.cancelled {
                    return Err(SwapError::AlreadyCancelled);
                }
                if now < e.cancellation_start {
                    return Err(SwapError::NotYetOpen);
                }
                if now >= e.public_cancellation_start {
                    return Err(SwapError::WindowClosed);
                }
                if caller != e.creator {
                    return Err(SwapError::Unauthorized);
                }
                let updated = SourceEscrowData {
                    creator: e.creator,
                    recipient: e.recipient,
                    hashed_secret: copy_bytes(&e.hashed_secret),
                    token: e.token,
                    amount: e.amount,
                    security_deposit: e.security_deposit,
                    withdrawal_start: e.withdrawal_start,
                    public_withdrawal_start: e.public_withdrawal_start,
                    cancellation_start: e.cancellation_start,
                    public_cancellation_start: e.public_cancellation_start,
                    funds_withdrawn: e.funds_withdrawn,
                    cancelled: true,
                    part_index: e.part_index,
                    total_parts: e.total_parts,
                    is_partial_fill: e.is_partial_fill,
                };
                let transfers = pay_pair(
                    TokenTransfer {
                        token: e.token,
                        from: self.contract_address,
                        to: e.creator,
                        amount: e.amount,
                        uses_allowance: false,
                    },
                    TokenTransfer {
                        token: e.token,
                        from: self.contract_address,
                        to: e.creator,
                        amount: e.security_deposit,
                        uses_allowance: false,
                    },
                );
                (updated, transfers)
            },
        };
        let slot = &mut self.escrows[idx];
        *slot = EscrowSlot::Src(updated);
        proof {
            let e = old(self)@.src_view(escrow_id).unwrap();
            assert(final(self)@.escrows =~= old(self)@.escrows.update(
                escrow_id as int,
                EscrowSlotView::Src(SourceEscrowView { cancelled: true, ..e }),
            ));
            assert(final(self)@.partial_fills_used =~= old(self)@.partial_fills_used);
            assert(final(self)@.user_escrows == old(self)@.user_escrows);
            assert(final(self)@.escrows.len() == old(self)@.escrows.len());
            assert forall|i: int| 0 <= i < final(self)@.escrows.len() implies slot_wf(
                #[trigger] final(self)@.escrows[i],
            ) by {
                if i != escrow_id as int {
                    assert(final(self)@.escrows[i] == old(self)@.escrows[i]);
                }
            }
        }
        Ok(transfers)
    }

    /// Cancel a destination escrow: only its creator, once the cancellation
    /// window opened; principal and deposit return to the creator.
    pub fn cancel_dst_escrow(&mut self, caller: AccountId, escrow_id: u64, now: u64) -> (r: Result<
        Vec<TokenTransfer>,
        SwapError,
    >)
        requires
            old(self)@.wf(),
        ensures
            final(self)@.wf(),
            match r {
                Ok(ts) => {
                    let e = old(self)@.dst_view(escrow_id).unwrap();
                    &&& old(self)@.dst_view(escrow_id) is Some
                    &&& dst_cancel_error(e, caller, now) is None
                    &&& final(self)@ == (FactoryView {
                        escrows: old(self)@.escrows.update(
                            escrow_id as int,
                            EscrowSlotView::Dst(DestinationEscrowView { cancelled: true, ..e }),
                        ),
                        ..old(self)@
                    })
                    &&& ts@ == seq![
                        (TokenTransfer {
                            token: e.token,
                            from: old(self)@.contract_address,
                            to: e.creator,
                            amount: e.amount,
                            uses_allowance: false,
                        }),
                        (TokenTransfer {
                            token: e.token,
                            from: old(self)@.contract_address,
                            to: e.creator,
                            amount: e.security_deposit,
                            uses_allowance: false,
                        }),
                    ]
                },
                Err(err) => {
                    &&& *final(self) == *old(self)
                    &&& match old(self)@.dst_view(escrow_id) {
                        Option::None => err == SwapError::RecordNotFound,
                        Option::Some(e) => Some(err) == dst_cancel_error(e, caller, now),
                    }
                },
            },
    {
        if escrow_id >= self.escrows.len() as u64 {
            return Err(SwapError::RecordNotFound);
        }
        let idx = escrow_id as usize;
        let (updated, transfers) = match &self.escrows[idx] {
            EscrowSlot::Src(_) => {
                return Err(SwapError::RecordNotFound);
            },
            EscrowSlot::Dst(e) => {
                if e.funds_withdrawn {
                    return Err(SwapError::AlreadyWithdrawn);
                }
                if e.cancelled {
                    return Err(SwapError::AlreadyCancelled);
                }
                if now < e.cancellation_start {
                    return Err(SwapError::NotYetOpen);
                }
                if caller != e.creator {
                    return Err(SwapError::Unauthorized);
                }
                let updated = DestinationEscrowData {
                    creator: e.creator,
                    recipient: e.recipient,
                    hashed_secret: copy_bytes(&e.hashed_secret),
                    token: e.token,
                    amount: e.amount,
                    security_deposit: e.security_deposit,
                    withdrawal_start: e.withdrawal_start,
                    public_withdrawal_start: e.public_withdrawal_start,
                    cancellation_start: e.cancellation_start,
                    funds_withdrawn: e.funds_withdrawn,
                    cancelled: true,
                    part_index: e.part_index,
                    total_parts: e.total_parts,
                    is_partial_fill: e.is_partial_fill,
                };
                let transfers = pay_pair(
                    TokenTransfer {
                        token: e.token,
                        from: self.contract_address,
                        to: e.creator,
                        amount: e.amount,
                        uses_allowance: false,
                    },
                    TokenTransfer {
                        token: e.token,
                        from: self.contract_address,
                        to: e.creator,
                        amount: e.security_deposit,
                        uses_allowance: false,
                    },
                );
                (updated, transfers)
            },
        };
        let slot = &mut self.escrows[idx];
        *slot = EscrowSlot::Dst(updated);
        proof {
            let e = old(self)@.dst_view(escrow_id).unwrap();
            assert(final(self)@.escrows =~= old(self)@.escrows.update(
                escrow_id as int,
                EscrowSlotView::Dst(DestinationEscrowView { cancelled: true, ..e }),
            ));
            assert(final(self)@.partial_fills_used =~= old(self)@.partial_fills_used);
            assert(final(self)@.user_escrows == old(self)@.user_escrows);
            assert(final(self)@.escrows.len() == old(self)@.escrows.len());
            assert forall|i: int| 0 <= i < final(self)@.escrows.len() implies slot_wf(
                #[trigger] final(self)@.escrows[i],
            ) by {
                if i != escrow_id as int {
                    assert(final(self)@.escrows[i] == old(self)@.escrows[i]);
                }
            }
        }
        Ok(transfers)
    }

    /// Force-withdraw a stuck source escrow: only the recipient, only a full
    /// grace delay past the public cancellation boundary. The principal goes
    /// to the recipient, the deposit back to the creator.
    pub fn rescue_src_escrow(&mut self, caller: AccountId, escrow_id: u64, now: u64) -> (r: Result<
        Vec<TokenTransfer>,
        SwapError,
    >)
        requires
            old(self)@.wf(),
        ensures
            final(self)@.wf(),
            match r {
                Ok(ts) => {
                    let e = old(self)@.src_view(escrow_id).unwrap();
                    &&& old(self)@.src_view(escrow_id) is Some
                    &&& src_rescue_error(e, caller, now) is None
                    &&& final(self)@ == (FactoryView {
                        escrows: old(self)@.escrows.update(
                            escrow_id as int,
                            EscrowSlotView::Src(SourceEscrowView { funds_withdrawn: true, ..e }),
                        ),
                        ..old(self)@
                    })
                    &&& ts@ == seq![
                        (TokenTransfer {
                            token: e.token,
                            from: old(self)@.contract_address,
                            to: e.recipient,
                            amount: e.amount,
                            uses_allowance: false,
                        }),
                        (TokenTransfer {
                            token: e.token,
                            from: old(self)@.contract_address,
                            to: e.creator,
                            amount: e.security_deposit,
                            uses_allowance: false,
                        }),
                    ]
                },
                Err(err) => {
                    &&& *final(self) == *old(self)
                    &&& match old(self)@.src_view(escrow_id) {
                        Option::None => err == SwapError::RecordNotFound,
                        Option::Some(e) => Some(err) == src_rescue_error(e, caller, now),
                    }
                },
            },
    {
        if escrow_id >= self.escrows.len() as u64 {
            return Err(SwapError::RecordNotFound);
        }
        let idx = escrow_id as usize;
        let (updated, transfers) = match &self.escrows[idx] {
            EscrowSlot::Dst(_) => {
                return Err(SwapError::RecordNotFound);
            },
            EscrowSlot::Src(e) => {
                if e.funds_withdrawn {
                    return Err(SwapError::AlreadyWithdrawn);
                }
                if e.cancelled {
                    return Err(SwapError::AlreadyCancelled);
                }
                if (now as u128) < (e.public_cancellation_start as u128) + (RESCUE_DELAY as u128) {
                    return Err(SwapError::NotYetOpen);
                }
                if caller != e.recipient {
                    return Err(SwapError::Unauthorized);
                }
                let updated = SourceEscrowData {
                    creator: e.creator,
                    recipient: e.recipient,
                    hashed_secret: copy_bytes(&e.hashed_secret),
                    token: e.token,
                    amount: e.amount,
                    security_deposit: e.security_deposit,
                    withdrawal_start: e.withdrawal_start,
                    public_withdrawal_start: e.public_withdrawal_start,
                    cancellation_start: e.cancellation_start,
                    public_cancellation_start: e.public_cancellation_start,
                    funds_withdrawn: true,
                    cancelled: e.cancelled,
                    part_index: e.part_index,
                    total_parts: e.total_parts,
                    is_partial_fill: e.is_partial_fill,
                };
                let transfers = pay_pair(
                    TokenTransfer {
                        token: e.token,
                        from: self.contract_address,
                        to: e.recipient,
                        amount: e.amount,
                        uses_allowance: false,
                    },
                    TokenTransfer {
                        token: e.token,
                        from: self.contract_address,
                        to: e.creator,
                        amount: e.security_deposit,
                        uses_allowance: false,
                    },
                );
                (updated, transfers)
            },
        };
        let slot = &mut self.escrows[idx];
        *slot = EscrowSlot::Src(updated);
        proof {
            let e = old(self)@.src_view(escrow_id).unwrap();
            assert(final(self)@.escrows =~= old(self)@.escrows.update(
                escrow_id as int,
                EscrowSlotView::Src(SourceEscrowView { funds_withdrawn: true, ..e }),
            ));
            assert(final(self)@.partial_fills_used =~= old(self)@.partial_fills_used);
            assert(final(self)@.user_escrows == old(self)@.user_escrows);
            assert(final(self)@.escrows.len() == old(self)@.escrows.len());
            assert forall|i: int| 0 <= i < final(self)@.escrows.len() implies slot_wf(
                #[trigger] final(self)@.escrows[i],
            ) by {
                if i != escrow_id as int {
                    assert(final(self)@.escrows[i] == old(self)@.escrows[i]);
                }
            }
        }
        Ok(transfers)
    }

    /// Force-withdraw a stuck destination escrow: only the creator, only a
    /// full grace delay past the cancellation boundary. Principal and deposit
    /// return to the creator.
    pub fn rescue_dst_escrow(&mut self, caller: AccountId, escrow_id: u64, now: u64) -> (r: Result<
        Vec<TokenTransfer>,
        SwapError,
    >)
        requires
            old(self)@.wf(),
        ensures
            final(self)@.wf(),
            match r {
                Ok(ts) => {
                    let e = old(self)@.dst_view(escrow_id).unwrap();
                    &&& old(self)@.dst_view(escrow_id) is Some
                    &&& dst_rescue_error(e, caller, now) is None
                    &&& final(self)@ == (FactoryView {
                        escrows: old(self)@.escrows.update(
                            escrow_id as int,
                            EscrowSlotView::Dst(DestinationEscrowView { funds_withdrawn: true, ..e }),
                        ),
                        ..old(self)@
                    })
                    &&& ts@ == seq![
                        (TokenTransfer {
                            token: e.token,
                            from: old(self)@.contract_address,
                            to: e.creator,
                            amount: e.amount,
                            uses_allowance: false,
                        }),
                        (TokenTransfer {
                            token: e.token,
                            from: old(self)@.contract_address,
                            to: e.creator,
                            amount: e.security_deposit,
                            uses_allowance: false,
                        }),
                    ]
                },
                Err(err) => {
                    &&& *final(self) == *old(self)
                    &&& match old(self)@.dst_view(escrow_id) {
                        Option::None => err == SwapError::RecordNotFound,
                        Option::Some(e) => Some(err) == dst_rescue_error(e, caller, now),
                    }
                },
            },
    {
        if escrow_id >= self.escrows.len() as u64 {
            return Err(SwapError::RecordNotFound);
        }
        let idx = escrow_id as usize;
        let (updated, transfers) = match &self.escrows[idx] {
            EscrowSlot::Src(_) => {
                return Err(SwapError::RecordNotFound);
            },
            EscrowSlot::Dst(e) => {
                if e.funds_withdrawn {
                    return Err(SwapError::AlreadyWithdrawn);
                }
                if e.cancelled {
                    return Err(SwapError::AlreadyCancelled);
                }
                if (now as u128) < (e.cancellation_start as u128) + (RESCUE_DELAY as u128) {
                    return Err(SwapError::NotYetOpen);
                }
                if caller != e.creator {
                    return Err(SwapError::Unauthorized);
                }
                let updated = DestinationEscrowData {
                    creator: e.creator,
                    recipient: e.recipient,
                    hashed_secret: copy_bytes(&e.hashed_secret),
                    token: e.token,
                    amount: e.amount,
                    security_deposit: e.security_deposit,
                    withdrawal_start: e.withdrawal_start,
                    public_withdrawal_start: e.public_withdrawal_start,
                    cancellation_start: e.cancellation_start,
                    funds_withdrawn: true,
                    cancelled: e.cancelled,
                    part_index: e.part_index,
                    total_parts: e.total_parts,
                    is_partial_fill: e.is_partial_fill,
                };
                let transfers = pay_pair(
                    TokenTransfer {
                        token: e.token,
                        from: self.contract_address,
                        to: e.creator,
                        amount: e.amount,
                        uses_allowance: false,
                    },
                    TokenTransfer {
                        token: e.token,
                        from: self.contract_address,
                        to: e.creator,
                        amount: e.security_deposit,
                        uses_allowance: false,
                    },
                );
                (updated, transfers)
            },
        };
        let slot = &mut self.escrows[idx];
        *slot = EscrowSlot::Dst(updated);
        proof {
            let e = old(self)@.dst_view(escrow_id).unwrap();
            assert(final(self)@.escrows =~= old(self)@.escrows.update(
                escrow_id as int,
                EscrowSlotView::Dst(DestinationEscrowView { funds_withdrawn: true, ..e }),
            ));
            assert(final(self)@.partial_fills_used =~= old(self)@.partial_fills_used);
            assert(final(self)@.user_escrows == old(self)@.user_escrows);
            assert(final(self)@.escrows.len() == old(self)@.escrows.len());
            assert forall|i: int| 0 <= i < final(self)@.escrows.len() implies slot_wf(
                #[trigger] final(self)@.escrows[i],
            ) by {
                if i != escrow_id as int {
                    assert(final(self)@.escrows[i] == old(self)@.escrows[i]);
                }
            }
        }
        Ok(transfers)
    }
}

impl HashLockedEscrowFactory {
    /// The escrow references minted for this user, in creation order.
    pub fn get_user_escrows(&self, user: AccountId) -> (r: Vec<u64>)
        ensures
            r@ == user_escrow_ids(self@.user_escrows, user),
    {
        let ghost log = self@.user_escrows;
        let mut r: Vec<u64> = Vec::new();
        let mut i: usize = 0;
        while i < self.user_escrows.len()
            invariant
                i <= self.user_escrows.len(),
                log == self@.user_escrows,
                log.len() == self.user_escrows.len(),
                r@ == user_escrow_ids(log.take(i as int), user),
            decreases self.user_escrows.len() - i,
        {
            let entry = self.user_escrows[i];
            proof {
                assert(log.take(i + 1).drop_last() =~= log.take(i as int));
                assert(log.take(i + 1).last() == log[i as int]);
            }
            if entry.0 == user {
                r.push(entry.1);
            }
            i = i + 1;
        }
        proof {
            assert(log.take(log.len() as int) =~= log);
        }
        r
    }

    /// The fixed security deposit every creation locks beside the principal.
    pub fn get_deposit_amount(&self) -> (r: i128)
        ensures
            r == DEPOSIT_AMOUNT,
    {
        DEPOSIT_AMOUNT
    }

    /// The source record under the given reference.
    pub fn get_src_escrow(&self, escrow_id: u64) -> (r: Result<&SourceEscrowData, SwapError>)
        ensures
            match r {
                Ok(e) => self@.src_view(escrow_id) == Some(e@),
                Err(err) => self@.src_view(escrow_id) is None && err == SwapError::RecordNotFound,
            },
    {
        if escrow_id >= self.escrows.len() as u64 {
            return Err(SwapError::RecordNotFound);
        }
        match &self.escrows[escrow_id as usize] {
            EscrowSlot::Src(e) => Ok(e),
            EscrowSlot::Dst(_) => Err(SwapError::RecordNotFound),
        }
    }

    /// The destination record under the given reference.
    pub fn get_dst_escrow(&self, escrow_id: u64) -> (r: Result<&DestinationEscrowData, SwapError>)
        ensures
            match r {
                Ok(e) => self@.dst_view(escrow_id) == Some(e@),
                Err(err) => self@.dst_view(escrow_id) is None && err == SwapError::RecordNotFound,
            },
    {
        if escrow_id >= self.escrows.len() as u64 {
            return Err(SwapError::RecordNotFound);
        }
        match &self.escrows[escrow_id as usize] {
            EscrowSlot::Src(_) => Err(SwapError::RecordNotFound),
            EscrowSlot::Dst(e) => Ok(e),
        }
    }

    /// Whether a record was minted under this reference.
    pub fn is_escrow_contract(&self, escrow_id: u64) -> (r: bool)
        ensures
            r == (escrow_id < self@.escrows.len()),
    {
        escrow_id < self.escrows.len() as u64
    }
}

/// Every record a well-formed ledger holds has strictly increasing phase
/// boundaries: creation admits no other ordering.
pub proof fn lemma_escrow_windows_ordered(fv: FactoryView, i: int)
    requires
        fv.wf(),
        0 <= i < fv.escrows.len(),
    ensures
        match fv.escrows[i] {
            EscrowSlotView::Src(e) => e.withdrawal_start < e.public_withdrawal_start
                < e.cancellation_start < e.public_cancellation_start,
            EscrowSlotView::Dst(e) => e.withdrawal_start < e.public_withdrawal_start
                < e.cancellation_start,
        },
{
    assert(slot_wf(fv.escrows[i]));
}

/// A terminal source record is frozen: once `funds_withdrawn` or `cancelled`
/// is set, every state-changing operation on it reports the terminal state
/// and changes nothing, whatever the caller, the time, the secret or the
/// proof.
pub proof fn lemma_terminal_src_frozen(
    e: SourceEscrowView,
    caller: AccountId,
    now: u64,
    secret_hash: Seq<u8>,
    proof_elems: Seq<Seq<u8>>,
)
    requires
        e.funds_withdrawn || e.cancelled,
    ensures
        src_withdraw_error(e, caller, now, secret_hash) == Some(
            if e.funds_withdrawn { SwapError::AlreadyWithdrawn } else { SwapError::AlreadyCancelled },
        ),
        src_withdraw_proof_error(e, caller, now, secret_hash, proof_elems) == Some(
            if e.funds_withdrawn { SwapError::AlreadyWithdrawn } else { SwapError::AlreadyCancelled },
        ),
        src_cancel_error(e, caller, now) == Some(
            if e.funds_withdrawn { SwapError::AlreadyWithdrawn } else { SwapError::AlreadyCancelled },
        ),
        src_rescue_error(e, caller, now) == Some(
            if e.funds_withdrawn { SwapError::AlreadyWithdrawn } else { SwapError::AlreadyCancelled },
        ),
{
}

/// A terminal destination record is frozen in the same way.
pub proof fn lemma_terminal_dst_frozen(
    e: DestinationEscrowView,
    caller: AccountId,
    now: u64,
    secret_hash: Seq<u8>,
    proof_elems: Seq<Seq<u8>>,
)
    requires
        e.funds_withdrawn || e.cancelled,
    ensures
        dst_withdraw_error(e, caller, now, secret_hash) == Some(
            if e.funds_withdrawn { SwapError::AlreadyWithdrawn } else { SwapError::AlreadyCancelled },
        ),
        dst_withdraw_proof_error(e, caller, now, secret_hash, proof_elems) == Some(
            if e.funds_withdrawn { SwapError::AlreadyWithdrawn } else { SwapError::AlreadyCancelled },
        ),
        dst_cancel_error(e, caller, now) == Some(
            if e.funds_withdrawn { SwapError::AlreadyWithdrawn } else { SwapError::AlreadyCancelled },
        ),
        dst_rescue_error(e, caller, now) == Some(
            if e.funds_withdrawn { SwapError::AlreadyWithdrawn } else { SwapError::AlreadyCancelled },
        ),
{
}

} // verus!
