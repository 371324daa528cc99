//! The swap orchestrator: a privileged coordinator that composes order fills
//! and escrow withdrawals into cross-chain-swap workflows. Its mutating entry
//! points are gated on a single configured owner; the order book and the
//! escrow ledger it drives are passed in as capabilities.

use vstd::prelude::*;
use crate::{AccountId, SwapError, TokenTransfer};
use crate::escrow::{
    dst_partial_create_error, dst_partial_created_post, dst_withdraw_error,
    dst_withdraw_proof_error, dst_withdrawn_post, src_withdraw_error, src_withdraw_proof_error,
    src_withdrawn_post, FactoryView, HashLockedEscrowFactory,
};
use crate::hashing::sha256_of;
use crate::orderbook::{
    available_part_indices_below, cancel_order_error, cancel_order_ok_post, fill_order_error,
    fill_order_ok_post, order_parts, part_filled, user_order_hashes, FilledOrder,
    SimpleLimitOrderProtocol,
};

verus! {

/// The mathematical state of the orchestrator: its configuration.
#[verifier::ext_equal]
pub ghost struct ResolverView {
    pub lop_address: AccountId,
    pub escrow_factory: AccountId,
    pub owner: AccountId,
}

/// Why an owner-gated source withdrawal dispatch fails; `None` means it
/// succeeds. A partial-fill record demands a non-empty proof and takes the
/// proof path; a full-fill record takes the plain-secret path.
pub open spec fn resolver_src_withdraw_error(
    fv: FactoryView,
    caller: AccountId,
    escrow_id: u64,
    secret_hash: Seq<u8>,
    proof: Seq<Seq<u8>>,
    now: u64,
) -> Option<SwapError> {
    match fv.src_view(escrow_id) {
        Option::None => Some(SwapError::RecordNotFound),
        Option::Some(e) => if e.is_partial_fill {
            if proof.len() == 0 {
                Some(SwapError::ProofRequired)
            } else {
                src_withdraw_proof_error(e, caller, now, secret_hash, proof)
            }
        } else {
            src_withdraw_error(e, caller, now, secret_hash)
        },
    }
}

/// Why a destination withdrawal dispatch fails; `None` means it succeeds.
pub open spec fn resolver_dst_withdraw_error(
    fv: FactoryView,
    caller: AccountId,
    escrow_id: u64,
    secret_hash: Seq<u8>,
    proof: Seq<Seq<u8>>,
    now: u64,
) -> Option<SwapError> {
    match fv.dst_view(escrow_id) {
        Option::None => Some(SwapError::RecordNotFound),
        Option::Some(e) => if e.is_partial_fill {
            if proof.len() == 0 {
                Some(SwapError::ProofRequired)
            } else {
                dst_withdraw_proof_error(e, caller, now, secret_hash, proof)
            }
        } else {
            dst_withdraw_error(e, caller, now, secret_hash)
        },
    }
}

/// The swap orchestrator.
pub struct SimpleResolver {
    lop_address: AccountId,
    escrow_factory: AccountId,
    owner: AccountId,
}

impl View for SimpleResolver {
    type V = ResolverView;

    closed spec fn view(&self) -> ResolverView {
        ResolverView {
            lop_address: self.lop_address,
            escrow_factory: self.escrow_factory,
            owner: self.owner,
        }
    }
}

impl SimpleResolver {
    /// Configure the orchestrator with the order book and ledger it drives
    /// and the one principal allowed to drive it.
    pub fn initialize(
        lop_address: AccountId,
        escrow_factory: AccountId,
        owner: AccountId,
    ) -> (r: Self)
        ensures
            r@ == (ResolverView { lop_address, escrow_factory, owner }),
    {
        SimpleResolver { lop_address, escrow_factory, owner }
    }

    /// Start a swap: only the owner; fills the order part through the order
    /// book (the public withdrawal boundary derived half an hour past the
    /// withdrawal boundary), which creates the source escrow on the ledger.
    pub fn execute_cross_chain_swap(
        &self,
        lop: &mut SimpleLimitOrderProtocol,
        factory: &mut HashLockedEscrowFactory,
        caller: AccountId,
        order_hash: &Vec<u8>,
        maker: AccountId,
        recipient: AccountId,
        token_amount: i128,
        hashed_secret: &Vec<u8>,
        withdrawal_start: u64,
        part_index: u64,
        total_parts: u32,
    ) -> (r: Result<(u64, Vec<TokenTransfer>), SwapError>)
        requires
            old(lop)@.wf(),
            old(factory)@.wf(),
            withdrawal_start as int + 86400 + 3600 <= u64::MAX as int,
        ensures
            final(lop)@.wf(),
            final(factory)@.wf(),
            match r {
                Ok(out) => {
                    &&& caller == self@.owner
                    &&& fill_order_error(
                        old(lop)@, old(factory)@, order_hash@, maker, token_amount,
                        hashed_secret@, withdrawal_start, (withdrawal_start + 1800) as u64,
                        part_index, total_parts,
                    ) is None
                    &&& fill_order_ok_post(
                        old(lop)@, old(factory)@, final(lop)@, final(factory)@, out.0, out.1@,
                        order_hash@, maker, recipient, token_amount, hashed_secret@,
                        withdrawal_start, (withdrawal_start + 1800) as u64, part_index,
                        total_parts,
                    )
                },
                Err(err) => {
                    &&& *final(lop) == *old(lop)
                    &&& *final(factory) == *old(factory)
                    &&& if caller != self@.owner {
                        err == SwapError::Unauthorized
                    } else {
                        Some(err) == fill_order_error(
                            old(lop)@, old(factory)@, order_hash@, maker, token_amount,
                            hashed_secret@, withdrawal_start, (withdrawal_start + 1800) as u64,
                            part_index, total_parts,
                        )
                    }
                },
            },
    {
        if caller != self.owner {
            return Err(SwapError::Unauthorized);
        }
        let public_withdrawal_start = withdrawal_start + 1800;
        lop.fill_order(
            factory,
            order_hash,
            maker,
            recipient,
            token_amount,
            hashed_secret,
            withdrawal_start,
            public_withdrawal_start,
            part_index,
            total_parts,
        )
    }

    /// Finish a swap: only the owner; fetches the source record and takes the
    /// proof path for a partial fill (requiring a non-empty proof) or the
    /// plain-secret path for a full fill.
    pub fn complete_cross_chain_swap(
        &self,
        factory: &mut HashLockedEscrowFactory,
        caller: AccountId,
        escrow_id: u64,
        secret: &Vec<u8>,
        part_index: u64,
        merkle_proof: &Vec<Vec<u8>>,
        now: u64,
    ) -> (r: Result<Vec<TokenTransfer>, SwapError>)
        requires
            old(factory)@.wf(),
        ensures
            final(factory)@.wf(),
            match r {
                Ok(ts) => {
                    let e = old(factory)@.src_view(escrow_id).unwrap();
                    &&& caller == self@.owner
                    &&& old(factory)@.src_view(escrow_id) is Some
                    &&& resolver_src_withdraw_error(
                        old(factory)@, caller, escrow_id, sha256_of(secret@),
                        merkle_proof.deep_view(), now,
                    ) is None
                    &&& src_withdrawn_post(old(factory)@, final(factory)@, ts@, e, escrow_id, caller)
                },
                Err(err) => {
                    &&& *final(factory) == *old(factory)
                    &&& if caller != self@.owner {
                        err == SwapError::Unauthorized
                    } else {
                        Some(err) == resolver_src_withdraw_error(
                            old(factory)@, caller, escrow_id, sha256_of(secret@),
                            merkle_proof.deep_view(), now,
                        )
                    }
                },
            },
    {
        if caller != self.owner {
            return Err(SwapError::Unauthorized);
        }
        let _ = part_index;
        self.withdraw_from_source_escrow(factory, caller, escrow_id, secret, part_index,
            merkle_proof, now)
    }

    /// Redeem a source escrow: only the owner; dispatches on the record's
    /// fill mode — the proof path for a partial fill (a non-empty proof is
    /// required), the plain-secret path otherwise.
    pub fn withdraw_from_source_escrow(
        &self,
        factory: &mut HashLockedEscrowFactory,
        caller: AccountId,
        escrow_id: u64,
        secret: &Vec<u8>,
        part_index: u64,
        merkle_proof: &Vec<Vec<u8>>,
        now: u64,
    ) -> (r: Result<Vec<TokenTransfer>, SwapError>)
        requires
            old(factory)@.wf(),
        ensures
            final(factory)@.wf(),
            match r {
                Ok(ts) => {
                    let e = old(factory)@.src_view(escrow_id).unwrap();
                    &&& caller == self@.owner
                    &&& old(factory)@.src_view(escrow_id) is Some
                    &&& resolver_src_withdraw_error(
                        old(factory)@, caller, escrow_id, sha256_of(secret@),
                        merkle_proof.deep_view(), now,
                    ) is None
                    &&& src_withdrawn_post(old(factory)@, final(factory)@, ts@, e, escrow_id, caller)
                },
                Err(err) => {
                    &&& *final(factory) == *old(factory)
                    &&& if caller != self@.owner {
                        err == SwapError::Unauthorized
                    } else {
                        Some(err) == resolver_src_withdraw_error(
                            old(factory)@, caller, escrow_id, sha256_of(secret@),
                            merkle_proof.deep_view(), now,
                        )
                    }
                },
            },
    {
        if caller != self.owner {
            return Err(SwapError::Unauthorized);
        }
        let _ = part_index;
        let is_partial = match factory.get_src_escrow(escrow_id) {
            Ok(e) => e.is_partial_fill,
            Err(err) => {
                return Err(err);
            },
        };
        if is_partial {
            if merkle_proof.len() == 0 {
                return Err(SwapError::ProofRequired);
            }
            factory.withdraw_src_escrow_with_proof(caller, escrow_id, secret, merkle_proof, now)
        } else {
            factory.withdraw_src_escrow(caller, escrow_id, secret, now)
        }
    }

    /// Redeem a destination escrow: only the owner; dispatches on the
    /// record's fill mode the same way.
    pub fn withdraw_from_destination_escrow(
        &self,
        factory: &mut HashLockedEscrowFactory,
        caller: AccountId,
        escrow_id: u64,
        secret: &Vec<u8>,
        part_index: u64,
        merkle_proof: &Vec<Vec<u8>>,
        now: u64,
    ) -> (r: Result<Vec<TokenTransfer>, SwapError>)
        requires
            old(factory)@.wf(),
        ensures
            final(factory)@.wf(),
            match r {
                Ok(ts) => {
                    let e = old(factory)@.dst_view(escrow_id).unwrap();
                    &&& caller == self@.owner
                    &&& old(factory)@.dst_view(escrow_id) is Some
                    &&& resolver_dst_withdraw_error(
                        old(factory)@, caller, escrow_id, sha256_of(secret@),
                        merkle_proof.deep_view(), now,
                    ) is None
                    &&& dst_withdrawn_post(old(factory)@, final(factory)@, ts@, e, escrow_id, caller)
                },
                Err(err) => {
                    &&& *final(factory) == *old(factory)
                    &&& if caller != self@.owner {
                        err == SwapError::Unauthorized
                    } else {
                        Some(err) == resolver_dst_withdraw_error(
                            old(factory)@, caller, escrow_id, sha256_of(secret@),
                            merkle_proof.deep_view(), now,
                        )
                    }
                },
            },
    {
        if caller != self.owner {
            return Err(SwapError::Unauthorized);
        }
        let _ = part_index;
        let is_partial = match factory.get_dst_escrow(escrow_id) {
            Ok(e) => e.is_partial_fill,
            Err(err) => {
                return Err(err);
            },
        };
        if is_partial {
            if merkle_proof.len() == 0 {
                return Err(SwapError::ProofRequired);
            }
            factory.withdraw_dst_escrow_with_proof(caller, escrow_id, secret, merkle_proof, now)
        } else {
            factory.withdraw_dst_escrow(caller, escrow_id, secret, now)
        }
    }

    /// Create the paired destination escrow: only the owner, who locks their
    /// own principal and deposit; the new reference is read back from the
    /// owner's escrow index.
    pub fn create_destination_escrow(
        &self,
        factory: &mut HashLockedEscrowFactory,
        caller: AccountId,
        hashed_secret: &Vec<u8>,
        recipient: AccountId,
        amount: i128,
        withdrawal_start: u64,
        public_withdrawal_start: u64,
        cancellation_start: u64,
        part_index: u64,
        total_parts: u32,
    ) -> (r: Result<(u64, Vec<TokenTransfer>), SwapError>)
        requires
            old(factory)@.wf(),
        ensures
            final(factory)@.wf(),
            match r {
                Ok(out) => {
                    &&& caller == self@.owner
                    &&& dst_partial_create_error(
                        amount, withdrawal_start, public_withdrawal_start, cancellation_start,
                        part_index, total_parts,
                    ) is None
                    &&& dst_partial_created_post(
                        old(factory)@, final(factory)@, out.0, out.1@, caller, hashed_secret@,
                        recipient, amount, withdrawal_start, public_withdrawal_start,
                        cancellation_start, part_index, total_parts,
                    )
                },
                Err(err) => {
                    &&& *final(factory) == *old(factory)
                    &&& if caller != self@.owner {
                        err == SwapError::Unauthorized
                    } else {
                        Some(err) == dst_partial_create_error(
                            amount, withdrawal_start, public_withdrawal_start,
                            cancellation_start, part_index, total_parts,
                        )
                    }
                },
            },
    {
        if caller != self.owner {
            return Err(SwapError::Unauthorized);
        }
        let (created_id, transfers) = match factory.create_dst_escrow_partial(
            caller,
            hashed_secret,
            recipient,
            amount,
            withdrawal_start,
            public_withdrawal_start,
            cancellation_start,
            part_index,
            total_parts,
        ) {
            Ok(out) => out,
            Err(err) => {
                return Err(err);
            },
        };
        let user_escrows = factory.get_user_escrows(caller);
        proof {
            assert(final(factory)@.user_escrows.drop_last() =~= old(factory)@.user_escrows);
            assert(user_escrows@.last() == created_id);
        }
        let escrow_id = user_escrows[user_escrows.len() - 1];
        Ok((escrow_id, transfers))
    }

    /// Cancel one filled order part through the order book: only the owner
    /// (who must also be that part's maker for the book to accept it).
    pub fn cancel_order(
        &self,
        lop: &mut SimpleLimitOrderProtocol,
        factory: &mut HashLockedEscrowFactory,
        caller: AccountId,
        order_hash: &Vec<u8>,
        part_index: u64,
        now: u64,
    ) -> (r: Result<Vec<TokenTransfer>, SwapError>)
        requires
            old(lop)@.wf(),
            old(factory)@.wf(),
        ensures
            final(lop)@.wf(),
            final(factory)@.wf(),
            match r {
                Ok(ts) => caller == self@.owner && cancel_order_ok_post(
                    old(lop)@, old(factory)@, final(lop)@, final(factory)@, ts@, caller,
                    order_hash@, part_index, now,
                ),
                Err(err) => {
                    &&& *final(lop) == *old(lop)
                    &&& *final(factory) == *old(factory)
                    &&& if caller != self@.owner {
                        err == SwapError::Unauthorized
                    } else {
                        Some(err) == cancel_order_error(
                            old(lop)@, old(factory)@, caller, order_hash@, part_index, now,
                        )
                    }
                },
            },
    {
        if caller != self.owner {
            return Err(SwapError::Unauthorized);
        }
        lop.cancel_order(factory, caller, order_hash, part_index, now)
    }

    /// All filled parts of the order, read through the order book.
    pub fn get_order(
        &self,
        lop: &SimpleLimitOrderProtocol,
        order_hash: &Vec<u8>,
    ) -> (r: Vec<FilledOrder>)
        ensures
            r@.len() == order_parts(lop@.orders, order_hash@).len(),
            forall|i: int| 0 <= i < r@.len() ==> (#[trigger] r@[i])@ == order_parts(
                lop@.orders,
                order_hash@,
            )[i],
    {
        lop.get_order(order_hash)
    }

    /// The filled part of the order at the given index.
    pub fn get_order_part<'a>(
        &self,
        lop: &'a SimpleLimitOrderProtocol,
        order_hash: &Vec<u8>,
        part_index: u64,
    ) -> (r: Result<&'a FilledOrder, SwapError>)
        ensures
            match r {
                Ok(o) => part_filled(lop@.orders, order_hash@, part_index) && exists|j: int|
                    0 <= j < lop@.orders.len() && lop@.orders[j] == o@ && o@.order_hash
                        == order_hash@ && o@.part_index == part_index,
                Err(err) => !part_filled(lop@.orders, order_hash@, part_index)
                    && err == SwapError::PartNotFilled,
            },
    {
        lop.get_order_part(order_hash, part_index)
    }

    /// How many segments of the order remain open.
    pub fn get_remaining_segments(
        &self,
        lop: &SimpleLimitOrderProtocol,
        order_hash: &Vec<u8>,
        total_parts: u32,
    ) -> (r: u64)
        requires
            total_parts > 1 ==> order_parts(lop@.orders, order_hash@).len() <= total_parts as int,
        ensures
            r == (if total_parts <= 1 {
                if part_filled(lop@.orders, order_hash@, 0) {
                    0u64
                } else {
                    1u64
                }
            } else {
                (total_parts as u64 - order_parts(lop@.orders, order_hash@).len() as u64) as u64
            }),
    {
        lop.get_remaining_segments(order_hash, total_parts)
    }

    /// Whether the given part index is still open for the order.
    pub fn is_part_available(
        &self,
        lop: &SimpleLimitOrderProtocol,
        order_hash: &Vec<u8>,
        part_index: u64,
    ) -> (r: bool)
        ensures
            r == !part_filled(lop@.orders, order_hash@, part_index),
    {
        lop.is_part_available(order_hash, part_index)
    }

    /// The part indices below `total_parts` still open for the order.
    pub fn get_available_part_indices(
        &self,
        lop: &SimpleLimitOrderProtocol,
        order_hash: &Vec<u8>,
        total_parts: u32,
    ) -> (r: Vec<u64>)
        ensures
            r@ == available_part_indices_below(lop@.orders, order_hash@, total_parts as u64),
    {
        lop.get_available_part_indices(order_hash, total_parts)
    }

    /// The orders the user has filled parts of, by hash.
    pub fn get_user_filled_orders(
        &self,
        lop: &SimpleLimitOrderProtocol,
        user: AccountId,
    ) -> (r: Vec<Vec<u8>>)
        ensures
            r.deep_view() == user_order_hashes(lop@.user_filled_orders, user),
    {
        lop.get_user_filled_orders(user)
    }

    /// The owner may point stuck funds at a destination; other callers are
    /// refused. Moving the funds themselves is the host's affair.
    pub fn rescue_xlm(&self, caller: AccountId, to: AccountId) -> (r: Result<(), SwapError>)
        ensures
            match r {
                Ok(_) => caller == self@.owner,
                Err(err) => caller != self@.owner && err == SwapError::Unauthorized,
            },
    {
        if caller != self.owner {
            return Err(SwapError::Unauthorized);
        }
        let _ = to;
        Ok(())
    }
}

} // verus!
