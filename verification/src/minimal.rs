//! A reduced escrow variant: fixed amount, no time windows, no deposit, no
//! cancellation — create, redeem by secret, and read back.

use vstd::prelude::*;
use crate::{AccountId, SwapError, TokenTransfer};
use crate::escrow::user_escrow_ids;
use crate::hashing::{bytes_eq, copy_bytes, sha256, sha256_of};

verus! {

/// The fixed amount every escrow of this variant locks.
pub const MINIMAL_AMOUNT: i128 = 10_000;

/// One escrow record of the reduced variant.
pub struct EscrowData {
    pub creator: AccountId,
    pub recipient: AccountId,
    pub hashed_secret: Vec<u8>,
    pub amount: i128,
    pub withdrawn: bool,
}

/// The mathematical value of a reduced escrow record.
#[verifier::ext_equal]
pub ghost struct EscrowDataView {
    pub creator: AccountId,
    pub recipient: AccountId,
    pub hashed_secret: Seq<u8>,
    pub amount: i128,
    pub withdrawn: bool,
}

impl View for EscrowData {
    type V = EscrowDataView;

    open spec fn view(&self) -> EscrowDataView {
        EscrowDataView {
            creator: self.creator,
            recipient: self.recipient,
            hashed_secret: self.hashed_secret@,
            amount: self.amount,
            withdrawn: self.withdrawn,
        }
    }
}

/// The mathematical state of the reduced factory.
#[verifier::ext_equal]
pub ghost struct MinimalFactoryView {
    pub contract_address: AccountId,
    pub native_token: AccountId,
    pub escrows: Seq<EscrowDataView>,
    pub user_escrows: Seq<(AccountId, u64)>,
}

impl MinimalFactoryView {
    /// Every user-index entry points at a minted record.
    pub open spec fn wf(self) -> bool {
        forall|i: int|
            0 <= i < self.user_escrows.len()
                ==> (#[trigger] self.user_escrows[i]).1 < self.escrows.len()
    }

    /// The record under the given reference, if one was minted there.
    pub open spec fn escrow_view(self, escrow_id: u64) -> Option<EscrowDataView> {
        if escrow_id < self.escrows.len() {
            Some(self.escrows[escrow_id as int])
        } else {
            None
        }
    }
}

/// Why a reduced-variant withdrawal fails; `None` means it succeeds.
pub open spec fn minimal_withdraw_error(
    e: EscrowDataView,
    secret_hash: Seq<u8>,
) -> Option<SwapError> {
    if e.withdrawn {
        Some(SwapError::AlreadyWithdrawn)
    } else if secret_hash != e.hashed_secret {
        Some(SwapError::InvalidSecret)
    } else {
        None
    }
}

/// The reduced escrow factory.
pub struct MinimalEscrowFactory {
    contract_address: AccountId,
    native_token: AccountId,
    escrows: Vec<EscrowData>,
    user_escrows: Vec<(AccountId, u64)>,
}

impl View for MinimalEscrowFactory {
    type V = MinimalFactoryView;

    closed spec fn view(&self) -> MinimalFactoryView {
        MinimalFactoryView {
            contract_address: self.contract_address,
            native_token: self.native_token,
            escrows: Seq::new(self.escrows@.len(), |i: int| self.escrows@[i]@),
            user_escrows: self.user_escrows@,
        }
    }
}

impl MinimalEscrowFactory {
    /// Set up an empty reduced factory.
    pub fn initialize(contract_address: AccountId, native_token: AccountId) -> (r: Self)
        ensures
            r@ == (MinimalFactoryView {
                contract_address,
                native_token,
                escrows: Seq::empty(),
                user_escrows: Seq::empty(),
            }),
            r@.wf(),
    {
        let r = MinimalEscrowFactory {
            contract_address,
            native_token,
            escrows: Vec::new(),
            user_escrows: Vec::new(),
        };
        proof {
            assert(r@.escrows =~= Seq::<EscrowDataView>::empty());
        }
        r
    }

    /// Create an escrow over the fixed amount: mint the record, index it
    /// under the creator, and lock the creator's payment in the vault.
    pub fn create_escrow(
        &mut self,
        creator: AccountId,
        recipient: AccountId,
        hashed_secret: &Vec<u8>,
    ) -> (r: (u64, Vec<TokenTransfer>))
        requires
            old(self)@.wf(),
        ensures
            final(self)@.wf(),
            r.0 == old(self)@.escrows.len() as u64,
            final(self)@ == (MinimalFactoryView {
                escrows: old(self)@.escrows.push(EscrowDataView {
                    creator,
                    recipient,
                    hashed_secret: hashed_secret@,
                    amount: MINIMAL_AMOUNT,
                    withdrawn: false,
                }),
                user_escrows: old(self)@.user_escrows.push((creator, r.0)),
                ..old(self)@
            }),
            r.1@ == seq![
                (TokenTransfer {
                    token: old(self)@.native_token,
                    from: creator,
                    to: old(self)@.contract_address,
                    amount: MINIMAL_AMOUNT,
                    uses_allowance: false,
                }),
            ],
    {
        let escrow_id = self.escrows.len() as u64;
        let record = EscrowData {
            creator,
            recipient,
            hashed_secret: copy_bytes(hashed_secret),
            amount: MINIMAL_AMOUNT,
            withdrawn: false,
        };
        self.escrows.push(record);
        self.user_escrows.push((creator, escrow_id));
        let mut transfers: Vec<TokenTransfer> = Vec::new();
        transfers.push(TokenTransfer {
            token: self.native_token,
            from: creator,
            to: self.contract_address,
            amount: MINIMAL_AMOUNT,
            uses_allowance: false,
        });
        proof {
            assert(final(self)@.escrows =~= old(self)@.escrows.push(
                final(self)@.escrows.last(),
            ));
            assert(transfers@ =~= seq![transfers@[0]]);
        }
        (escrow_id, transfers)
    }

    /// Redeem an escrow with the revealed secret: the record turns withdrawn
    /// and the amount goes to the recipient.
    pub fn withdraw_escrow(
        &mut self,
        caller: AccountId,
        escrow_id: u64,
        secret: &Vec<u8>,
    ) -> (r: Result<Vec<TokenTransfer>, SwapError>)
        requires
            old(self)@.wf(),
        ensures
            final(self)@.wf(),
            match r {
                Ok(ts) => {
                    let e = old(self)@.escrow_view(escrow_id).unwrap();
                    &&& old(self)@.escrow_view(escrow_id) is Some
                    &&& minimal_withdraw_error(e, sha256_of(secret@)) is None
                    &&& final(self)@ == (MinimalFactoryView {
                        escrows: old(self)@.escrows.update(
                            escrow_id as int,
                            EscrowDataView { withdrawn: true, ..e },
                        ),
                        ..old(self)@
                    })
                    &&& ts@ == seq![
                        (TokenTransfer {
                            token: old(self)@.native_token,
                            from: old(self)@.contract_address,
                            to: e.recipient,
                            amount: e.amount,
                            uses_allowance: false,
                        }),
                    ]
                },
                Err(err) => {
                    &&& *final(self) == *old(self)
                    &&& match old(self)@.escrow_view(escrow_id) {
                        Option::None => err == SwapError::RecordNotFound,
                        Option::Some(e) => Some(err) == minimal_withdraw_error(
                            e,
                            sha256_of(secret@),
                        ),
                    }
                },
            },
    {
        if escrow_id >= self.escrows.len() as u64 {
            return Err(SwapError::RecordNotFound);
        }
        let idx = escrow_id as usize;
        let (updated, transfers) = {
            let e = &self.escrows[idx];
            if e.withdrawn {
                return Err(SwapError::AlreadyWithdrawn);
            }
            let computed = sha256(secret);
            if !bytes_eq(&computed, &e.hashed_secret) {
                return Err(SwapError::InvalidSecret);
            }
            let updated = EscrowData {
                creator: e.creator,
                recipient: e.recipient,
                hashed_secret: copy_bytes(&e.hashed_secret),
                amount: e.amount,
                withdrawn: true,
            };
            let mut transfers: Vec<TokenTransfer> = Vec::new();
            transfers.push(TokenTransfer {
                token: self.native_token,
                from: self.contract_address,
                to: e.recipient,
                amount: e.amount,
                uses_allowance: false,
            });
            (updated, transfers)
        };
        let slot = &mut self.escrows[idx];
        *slot = updated;
        proof {
            let e = old(self)@.escrow_view(escrow_id).unwrap();
            assert(final(self)@.escrows =~= old(self)@.escrows.update(
                escrow_id as int,
                EscrowDataView { withdrawn: true, ..e },
            ));
            assert(transfers@ =~= seq![transfers@[0]]);
        }
        Ok(transfers)
    }

    /// The record under the given reference.
    pub fn get_escrow(&self, escrow_id: u64) -> (r: Result<&EscrowData, SwapError>)
        ensures
            match r {
                Ok(e) => self@.escrow_view(escrow_id) == Some(e@),
                Err(err) => self@.escrow_view(escrow_id) is None
                    && err == SwapError::RecordNotFound,
            },
    {
        if escrow_id >= self.escrows.len() as u64 {
            return Err(SwapError::RecordNotFound);
        }
        Ok(&self.escrows[escrow_id as usize])
    }

    /// The escrow references minted for this user, in creation order.
    pub fn get_user_escrows(&self, user: AccountId) -> (r: Vec<u64>)
        ensures
            r@ == user_escrow_ids(self@.user_escrows, user),
    {
        let ghost log = self@.user_escrows;
        let mut r: Vec<u64> = Vec::new();
        let mut i: usize = 0;
        while i < self.user_escrows.len()
            invariant
                i <= self.user_escrows.len(),
                log == self@.user_escrows,
                log.len() == self.user_escrows.len(),
                r@ == user_escrow_ids(log.take(i as int), user),
            decreases self.user_escrows.len() - i,
        {
            let entry = self.user_escrows[i];
            proof {
                assert(log.take(i + 1).drop_last() =~= log.take(i as int));
                assert(log.take(i + 1).last() == log[i as int]);
            }
            if entry.0 == user {
                r.push(entry.1);
            }
            i = i + 1;
        }
        proof {
            assert(log.take(log.len() as int) =~= log);
        }
        r
    }

    /// Whether a record was minted under this reference.
    pub fn is_escrow(&self, escrow_id: u64) -> (r: bool)
        ensures
            r == (escrow_id < self@.escrows.len()),
    {
        escrow_id < self.escrows.len() as u64
    }

    /// How many escrows were created.
    pub fn get_escrow_counter(&self) -> (r: u64)
        ensures
            r == self@.escrows.len() as u64,
    {
        self.escrows.len() as u64
    }
}

} // verus!
