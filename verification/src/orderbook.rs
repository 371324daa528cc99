//! The order book: per-order fill bookkeeping (which part indices are filled,
//! by whom, against which escrow) and allowance custody for makers. Filling a
//! part consumes the maker's allowance and asks the escrow ledger to create
//! the source escrow; a (order, part) slot is filled at most once, ever —
//! cancellation clears its active flag but never frees the slot.

use vstd::prelude::*;
use crate::{AccountId, SwapError, TokenTransfer};
use crate::escrow::{
    allowance_of, src_cancel_error, src_partial_create_error, EscrowSlotView, FactoryView,
    HashLockedEscrowFactory, SourceEscrowView,
};
use crate::hashing::{bytes_eq, copy_bytes};

verus! {

/// One filled part of an order.
pub struct FilledOrder {
    pub order_hash: Vec<u8>,
    pub maker: AccountId,
    pub recipient: AccountId,
    pub escrow_id: u64,
    pub part_index: u64,
    pub total_parts: u32,
    pub is_active: bool,
}

/// The mathematical value of a filled part.
#[verifier::ext_equal]
pub ghost struct FilledOrderView {
    pub order_hash: Seq<u8>,
    pub maker: AccountId,
    pub recipient: AccountId,
    pub escrow_id: u64,
    pub part_index: u64,
    pub total_parts: u32,
    pub is_active: bool,
}

impl View for FilledOrder {
    type V = FilledOrderView;

    open spec fn view(&self) -> FilledOrderView {
        FilledOrderView {
            order_hash: self.order_hash@,
            maker: self.maker,
            recipient: self.recipient,
            escrow_id: self.escrow_id,
            part_index: self.part_index,
            total_parts: self.total_parts,
            is_active: self.is_active,
        }
    }
}

/// The terms of one order part, as a maker would sign them.
pub struct OrderParams {
    pub token_amount: i128,
    pub hashed_secret: Vec<u8>,
    pub withdrawal_start: u64,
    pub public_withdrawal_start: u64,
    pub cancellation_start: u64,
    pub part_index: u64,
    pub total_parts: u32,
}

/// The mathematical state of the order book. The allowance table and the
/// per-user order index are append-only logs, like the ledger's.
#[verifier::ext_equal]
pub ghost struct LopView {
    pub contract_address: AccountId,
    pub escrow_factory: AccountId,
    pub owner: AccountId,
    pub allowances: Seq<(AccountId, i128)>,
    pub orders: Seq<FilledOrderView>,
    pub user_filled_orders: Seq<(AccountId, Seq<u8>)>,
}

/// Whether the given part of the given order was ever filled.
pub open spec fn part_filled(orders: Seq<FilledOrderView>, h: Seq<u8>, part: u64) -> bool {
    exists|j: int| 0 <= j < orders.len() && orders[j].order_hash == h && orders[j].part_index
        == part
}

/// The filled parts of one order, in fill order.
pub open spec fn order_parts(orders: Seq<FilledOrderView>, h: Seq<u8>) -> Seq<FilledOrderView>
    decreases orders.len(),
{
    if orders.len() == 0 {
        Seq::empty()
    } else {
        let rest = order_parts(orders.drop_last(), h);
        if orders.last().order_hash == h {
            rest.push(orders.last())
        } else {
            rest
        }
    }
}

/// The order hashes recorded for a user, in first-fill order.
pub open spec fn user_order_hashes(log: Seq<(AccountId, Seq<u8>)>, user: AccountId) -> Seq<
    Seq<u8>,
>
    decreases log.len(),
{
    if log.len() == 0 {
        Seq::empty()
    } else {
        let rest = user_order_hashes(log.drop_last(), user);
        if log.last().0 == user {
            rest.push(log.last().1)
        } else {
            rest
        }
    }
}

/// The part indices below `total` that are still open for the order.
pub open spec fn available_part_indices_below(
    orders: Seq<FilledOrderView>,
    h: Seq<u8>,
    total: u64,
) -> Seq<u64>
    decreases total,
{
    if total == 0 {
        Seq::empty()
    } else {
        let rest = available_part_indices_below(orders, h, (total - 1) as u64);
        if part_filled(orders, h, (total - 1) as u64) {
            rest
        } else {
            rest.push((total - 1) as u64)
        }
    }
}

impl LopView {
    /// No (order, part) slot appears twice in the book.
    pub open spec fn wf(self) -> bool {
        forall|j: int, k: int|
            0 <= j < k < self.orders.len() ==> !((#[trigger] self.orders[j]).order_hash
                == (#[trigger] self.orders[k]).order_hash && self.orders[j].part_index
                == self.orders[k].part_index)
    }
}

/// Two entries for the same (order, part) slot are the same entry.
pub proof fn lemma_part_entry_unique(lop: LopView, h: Seq<u8>, part: u64, j: int, k: int)
    requires
        lop.wf(),
        0 <= j < lop.orders.len(),
        0 <= k < lop.orders.len(),
        lop.orders[j].order_hash == h && lop.orders[j].part_index == part,
        lop.orders[k].order_hash == h && lop.orders[k].part_index == part,
    ensures
        j == k,
{
}

/// Why `fill_order` fails, in the order the checks run; `None` means it
/// succeeds. After the book's own checks the escrow ledger's creation checks
/// decide.
pub open spec fn fill_order_error(
    lop: LopView,
    fv: FactoryView,
    h: Seq<u8>,
    maker: AccountId,
    token_amount: i128,
    hashed_secret: Seq<u8>,
    withdrawal_start: u64,
    public_withdrawal_start: u64,
    part_index: u64,
    total_parts: u32,
) -> Option<SwapError> {
    if total_parts == 0 {
        Some(SwapError::InvalidPartCount)
    } else if part_index >= total_parts as u64 {
        Some(SwapError::InvalidPartIndex)
    } else if token_amount <= 0 {
        Some(SwapError::InvalidAmount)
    } else if part_filled(lop.orders, h, part_index) {
        Some(SwapError::AlreadyFilled)
    } else if allowance_of(lop.allowances, maker) < token_amount {
        Some(SwapError::InsufficientAllowance)
    } else {
        src_partial_create_error(
            fv,
            lop.contract_address,
            hashed_secret,
            maker,
            token_amount,
            withdrawal_start,
            public_withdrawal_start,
            (withdrawal_start + 86400) as u64,
            part_index,
            total_parts,
        )
    }
}

/// What a successful `fill_order` leaves behind, over the two components'
/// states: the ledger minted the partial source escrow (the maker standing
/// as its creator of record), the maker's allowance dropped by exactly the
/// amount, the part was recorded, and the order was indexed under the maker
/// on its first fill.
pub open spec fn fill_order_ok_post(
    old_lop: LopView,
    old_f: FactoryView,
    new_lop: LopView,
    new_f: FactoryView,
    escrow_id: u64,
    transfers: Seq<TokenTransfer>,
    h: Seq<u8>,
    maker: AccountId,
    recipient: AccountId,
    token_amount: i128,
    hashed_secret: Seq<u8>,
    withdrawal_start: u64,
    public_withdrawal_start: u64,
    part_index: u64,
    total_parts: u32,
) -> bool {
    &&& escrow_id == old_f.escrows.len() as u64
    &&& new_f == (FactoryView {
        escrows: old_f.escrows.push(
            EscrowSlotView::Src(SourceEscrowView {
                creator: maker,
                recipient,
                hashed_secret,
                token: old_f.native_token,
                amount: token_amount,
                security_deposit: crate::DEPOSIT_AMOUNT,
                withdrawal_start,
                public_withdrawal_start,
                cancellation_start: (withdrawal_start + 86400) as u64,
                public_cancellation_start: (withdrawal_start + 86400 + 3600) as u64,
                funds_withdrawn: false,
                cancelled: false,
                part_index,
                total_parts,
                is_partial_fill: total_parts > 1,
            }),
        ),
        allowances: if old_lop.contract_address == maker {
            old_f.allowances.push(
                (maker, (allowance_of(old_f.allowances, maker) - token_amount) as i128),
            )
        } else {
            old_f.allowances
        },
        user_escrows: old_f.user_escrows.push((maker, escrow_id)),
        partial_fills_used: if total_parts > 1 {
            old_f.partial_fills_used.push((hashed_secret, part_index))
        } else {
            old_f.partial_fills_used
        },
        ..old_f
    })
    &&& new_lop == (LopView {
        allowances: old_lop.allowances.push(
            (maker, (allowance_of(old_lop.allowances, maker) - token_amount) as i128),
        ),
        orders: old_lop.orders.push(FilledOrderView {
            order_hash: h,
            maker,
            recipient,
            escrow_id,
            part_index,
            total_parts,
            is_active: true,
        }),
        user_filled_orders: if order_parts(old_lop.orders, h).len() == 0 {
            old_lop.user_filled_orders.push((maker, h))
        } else {
            old_lop.user_filled_orders
        },
        ..old_lop
    })
    &&& allowance_of(new_lop.allowances, maker) == allowance_of(old_lop.allowances, maker)
        - token_amount
    &&& transfers == seq![
        (TokenTransfer {
            token: old_f.native_token,
            from: maker,
            to: old_f.contract_address,
            amount: token_amount,
            uses_allowance: true,
        }),
        (TokenTransfer {
            token: old_f.native_token,
            from: old_lop.contract_address,
            to: old_f.contract_address,
            amount: crate::DEPOSIT_AMOUNT,
            uses_allowance: false,
        }),
    ]
}

/// What a successful `cancel_order` leaves behind: the unique entry for the
/// slot — active, the caller's — had its flag cleared, and the underlying
/// source escrow was cancelled on the ledger, returning principal and deposit
/// to its creator.
pub open spec fn cancel_order_ok_post(
    old_lop: LopView,
    old_f: FactoryView,
    new_lop: LopView,
    new_f: FactoryView,
    transfers: Seq<TokenTransfer>,
    caller: AccountId,
    h: Seq<u8>,
    part: u64,
    now: u64,
) -> bool {
    exists|j: int| #![trigger old_lop.orders[j]] {
        let entry = old_lop.orders[j];
        let e = old_f.src_view(entry.escrow_id).unwrap();
        &&& 0 <= j < old_lop.orders.len()
        &&& entry.order_hash == h
        &&& entry.part_index == part
        &&& entry.is_active
        &&& entry.maker == caller
        &&& old_f.src_view(entry.escrow_id) is Some
        &&& src_cancel_error(e, caller, now) is None
        &&& new_lop == (LopView {
            orders: old_lop.orders.update(j, (FilledOrderView { is_active: false, ..entry })),
            ..old_lop
        })
        &&& new_f == (FactoryView {
            escrows: old_f.escrows.update(
                entry.escrow_id as int,
                EscrowSlotView::Src(SourceEscrowView { cancelled: true, ..e }),
            ),
            ..old_f
        })
        &&& transfers == seq![
            (TokenTransfer {
                token: e.token,
                from: old_f.contract_address,
                to: e.creator,
                amount: e.amount,
                uses_allowance: false,
            }),
            (TokenTransfer {
                token: e.token,
                from: old_f.contract_address,
                to: e.creator,
                amount: e.security_deposit,
                uses_allowance: false,
            }),
        ]
    }
}

/// A slot once filled can never be filled again: any further attempt on it —
/// with whatever amounts, windows or commitment, as long as the part identity
/// itself is well-formed — reports `AlreadyFilled`.
pub proof fn lemma_filled_part_permanent(
    lop: LopView,
    fv: FactoryView,
    h: Seq<u8>,
    maker: AccountId,
    token_amount: i128,
    hashed_secret: Seq<u8>,
    withdrawal_start: u64,
    public_withdrawal_start: u64,
    part_index: u64,
    total_parts: u32,
)
    requires
        part_filled(lop.orders, h, part_index),
        total_parts != 0,
        part_index < total_parts as u64,
        token_amount > 0,
    ensures
        fill_order_error(
            lop, fv, h, maker, token_amount, hashed_secret, withdrawal_start,
            public_withdrawal_start, part_index, total_parts,
        ) == Some(SwapError::AlreadyFilled),
{
}

/// Clearing a part's active flag never un-fills it: the filled slots are
/// exactly the same before and after.
pub proof fn lemma_cancel_preserves_filled(
    orders: Seq<FilledOrderView>,
    j: int,
    h: Seq<u8>,
    part: u64,
)
    requires
        0 <= j < orders.len(),
    ensures
        part_filled(
            orders.update(j, FilledOrderView { is_active: false, ..orders[j] }),
            h,
            part,
        ) == part_filled(orders, h, part),
{
    let updated = orders.update(j, FilledOrderView { is_active: false, ..orders[j] });
    if part_filled(orders, h, part) {
        let w = choose|w: int| 0 <= w < orders.len() && orders[w].order_hash == h
            && orders[w].part_index == part;
        assert(updated[w].order_hash == h && updated[w].part_index == part);
    }
    if part_filled(updated, h, part) {
        let w = choose|w: int| 0 <= w < updated.len() && updated[w].order_hash == h
            && updated[w].part_index == part;
        assert(orders[w].order_hash == h && orders[w].part_index == part);
    }
}

/// How much allowance remains after pulling the given amounts, one after the
/// other, the way successful fills pull it.
pub open spec fn allowance_after_pulls(start: int, amounts: Seq<int>) -> int
    decreases amounts.len(),
{
    if amounts.len() == 0 {
        start
    } else {
        allowance_after_pulls(start - amounts[0], amounts.drop_first())
    }
}

/// The sum of the given amounts.
pub open spec fn total_pulled(amounts: Seq<int>) -> int
    decreases amounts.len(),
{
    if amounts.len() == 0 {
        0
    } else {
        amounts[0] + total_pulled(amounts.drop_first())
    }
}

/// The allowance law: after `approve(owner, a)` sets the allowance to `a`,
/// a run of successful pulls of `a1 .. ak` — each of which, by
/// `fill_order`'s contract, subtracts exactly its amount — leaves exactly
/// `a - (a1 + .. + ak)`.
pub proof fn lemma_allowance_after_pulls(start: int, amounts: Seq<int>)
    ensures
        allowance_after_pulls(start, amounts) == start - total_pulled(amounts),
    decreases amounts.len(),
{
    if amounts.len() > 0 {
        lemma_allowance_after_pulls(start - amounts[0], amounts.drop_first());
    }
}

/// The order book.
pub struct SimpleLimitOrderProtocol {
    contract_address: AccountId,
    escrow_factory: AccountId,
    owner: AccountId,
    allowances: Vec<(AccountId, i128)>,
    orders: Vec<FilledOrder>,
    user_filled_orders: Vec<(AccountId, Vec<u8>)>,
}

impl View for SimpleLimitOrderProtocol {
    type V = LopView;

    closed spec fn view(&self) -> LopView {
        LopView {
            contract_address: self.contract_address,
            escrow_factory: self.escrow_factory,
            owner: self.owner,
            allowances: self.allowances@,
            orders: Seq::new(self.orders@.len(), |i: int| self.orders@[i]@),
            user_filled_orders: Seq::new(
                self.user_filled_orders@.len(),
                |i: int| (self.user_filled_orders@[i].0, self.user_filled_orders@[i].1@),
            ),
        }
    }
}

impl SimpleLimitOrderProtocol {
    /// Set up an empty order book. `contract_address` is this component's own
    /// identity, `escrow_factory` the ledger it creates escrows on, `owner`
    /// the privileged principal.
    pub fn initialize(
        contract_address: AccountId,
        escrow_factory: AccountId,
        owner: AccountId,
    ) -> (r: Self)
        ensures
            r@ == (LopView {
                contract_address,
                escrow_factory,
                owner,
                allowances: Seq::empty(),
                orders: Seq::empty(),
                user_filled_orders: Seq::empty(),
            }),
            r@.wf(),
    {
        let r = SimpleLimitOrderProtocol {
            contract_address,
            escrow_factory,
            owner,
            allowances: Vec::new(),
            orders: Vec::new(),
            user_filled_orders: Vec::new(),
        };
        proof {
            assert(r@.orders =~= Seq::<FilledOrderView>::empty());
            assert(r@.user_filled_orders =~= Seq::<(AccountId, Seq<u8>)>::empty());
        }
        r
    }

    /// This component's own identity.
    pub fn contract_address(&self) -> (r: AccountId)
        ensures
            r == self@.contract_address,
    {
        self.contract_address
    }

    /// Grant this component an allowance of exactly `amount` from the caller:
    /// an absolute set, not an increment.
    pub fn approve(&mut self, caller: AccountId, amount: i128)
        ensures
            final(self)@ == (LopView {
                allowances: old(self)@.allowances.push((caller, amount)),
                ..old(self)@
            }),
            allowance_of(final(self)@.allowances, caller) == amount,
            forall|o: AccountId| o != caller
                ==> allowance_of(final(self)@.allowances, o)
                    == allowance_of(old(self)@.allowances, o),
            old(self)@.wf() ==> final(self)@.wf(),
    {
        self.allowances.push((caller, amount));
        proof {
            assert(final(self)@.allowances.drop_last() =~= old(self)@.allowances);
            assert(final(self)@.orders =~= old(self)@.orders);
            assert(final(self)@.user_filled_orders =~= old(self)@.user_filled_orders);
        }
    }

    /// The most recent allowance entry for `owner`, or zero.
    fn allowance_lookup(&self, owner: AccountId) -> (r: i128)
        ensures
            r == allowance_of(self@.allowances, owner),
    {
        let ghost log = self@.allowances;
        let mut i: usize = self.allowances.len();
        proof {
            assert(log.take(log.len() as int) =~= log);
        }
        while i > 0
            invariant
                i <= self.allowances.len(),
                log == self@.allowances,
                allowance_of(log, owner) == allowance_of(log.take(i as int), owner),
            decreases i,
        {
            i = i - 1;
            let entry = self.allowances[i];
            proof {
                assert(log.take(i + 1).last() == log[i as int]);
                assert(log.take(i + 1).drop_last() =~= log.take(i as int));
            }
            if entry.0 == owner {
                return entry.1;
            }
        }
        0
    }

    /// The allowance `owner` has granted `spender`. Only this component can
    /// be granted anything here, so any other spender reads zero.
    pub fn allowance(&self, owner: AccountId, spender: AccountId) -> (r: i128)
        ensures
            r == (if spender == self@.contract_address {
                allowance_of(self@.allowances, owner)
            } else {
                0
            }),
    {
        if spender == self.contract_address {
            self.allowance_lookup(owner)
        } else {
            0
        }
    }

    /// The index of the entry for the given (order, part) slot, if it was
    /// filled.
    fn find_part(&self, order_hash: &Vec<u8>, part: u64) -> (r: Option<usize>)
        ensures
            match r {
                Some(j) => j < self@.orders.len() && self@.orders[j as int].order_hash
                    == order_hash@ && self@.orders[j as int].part_index == part,
                None => !part_filled(self@.orders, order_hash@, part),
            },
    {
        let ghost orders = self@.orders;
        let mut i: usize = 0;
        while i < self.orders.len()
            invariant
                i <= self.orders.len(),
                orders == self@.orders,
                orders.len() == self.orders.len(),
                forall|j: int| 0 <= j < i ==> !((#[trigger] orders[j]).order_hash == order_hash@
                    && orders[j].part_index == part),
            decreases self.orders.len() - i,
        {
            let entry = &self.orders[i];
            if entry.part_index == part && bytes_eq(&entry.order_hash, order_hash) {
                return Some(i);
            }
            i = i + 1;
        }
        None
    }

    /// Whether the given part of the given order was ever filled.
    fn part_filled_lookup(&self, order_hash: &Vec<u8>, part: u64) -> (r: bool)
        ensures
            r == part_filled(self@.orders, order_hash@, part),
    {
        let ghost orders = self@.orders;
        let mut i: usize = 0;
        while i < self.orders.len()
            invariant
                i <= self.orders.len(),
                orders == self@.orders,
                orders.len() == self.orders.len(),
                forall|j: int| 0 <= j < i ==> !((#[trigger] orders[j]).order_hash == order_hash@
                    && orders[j].part_index == part),
            decreases self.orders.len() - i,
        {
            let entry = &self.orders[i];
            if entry.part_index == part && bytes_eq(&entry.order_hash, order_hash) {
                proof {
                    assert(orders[i as int].order_hash == order_hash@
                        && orders[i as int].part_index == part);
                }
                return true;
            }
            i = i + 1;
        }
        false
    }

    /// How many parts of the order were filled.
    fn segment_count(&self, order_hash: &Vec<u8>) -> (r: usize)
        ensures
            r == order_parts(self@.orders, order_hash@).len(),
    {
        let ghost orders = self@.orders;
        let mut count: usize = 0;
        let mut i: usize = 0;
        while i < self.orders.len()
            invariant
                i <= self.orders.len(),
                orders == self@.orders,
                orders.len() == self.orders.len(),
                count == order_parts(orders.take(i as int), order_hash@).len(),
                count <= i,
            decreases self.orders.len() - i,
        {
            let entry = &self.orders[i];
            proof {
                assert(orders.take(i + 1).drop_last() =~= orders.take(i as int));
                assert(orders.take(i + 1).last() == orders[i as int]);
            }
            if bytes_eq(&entry.order_hash, order_hash) {
                count = count + 1;
            }
            i = i + 1;
        }
        proof {
            assert(orders.take(orders.len() as int) =~= orders);
        }
        count
    }

    /// Fill one part of an order: validate the part identity and the amount,
    /// refuse a slot that was ever filled, consume the maker's allowance, and
    /// have the escrow ledger create the source escrow (this component as
    /// creator, the maker as buyer, the cancellation boundary one day past
    /// the withdrawal boundary). Records the filled part and, on the maker's
    /// first fill of this order, indexes the order under the maker. Returns
    /// the new escrow reference and the ledger's transfers.
    pub fn fill_order(
        &mut self,
        factory: &mut HashLockedEscrowFactory,
        order_hash: &Vec<u8>,
        maker: AccountId,
        recipient: AccountId,
        token_amount: i128,
        hashed_secret: &Vec<u8>,
        withdrawal_start: u64,
        public_withdrawal_start: u64,
        part_index: u64,
        total_parts: u32,
    ) -> (r: Result<(u64, Vec<TokenTransfer>), SwapError>)
        requires
            old(self)@.wf(),
            old(factory)@.wf(),
            withdrawal_start as int + 86400 + 3600 <= u64::MAX as int,
        ensures
            final(self)@.wf(),
            final(factory)@.wf(),
            match r {
                Ok(out) => {
                    &&& fill_order_error(
                        old(self)@, old(factory)@, order_hash@, maker, token_amount,
                        hashed_secret@, withdrawal_start, public_withdrawal_start, part_index,
                        total_parts,
                    ) is None
                    &&& fill_order_ok_post(
                        old(self)@, old(factory)@, final(self)@, final(factory)@, out.0, out.1@,
                        order_hash@, maker, recipient, token_amount, hashed_secret@,
                        withdrawal_start, public_withdrawal_start, part_index, total_parts,
                    )
                },
                Err(e) => {
                    &&& *final(self) == *old(self)
                    &&& *final(factory) == *old(factory)
                    &&& Some(e) == fill_order_error(
                        old(self)@, old(factory)@, order_hash@, maker, token_amount,
                        hashed_secret@, withdrawal_start, public_withdrawal_start, part_index,
                        total_parts,
                    )
                },
            },
    {
        if total_parts == 0 {
            return Err(SwapError::InvalidPartCount);
        }
        if part_index >= total_parts as u64 {
            return Err(SwapError::InvalidPartIndex);
        }
        if token_amount <= 0 {
            return Err(SwapError::InvalidAmount);
        }
        if self.part_filled_lookup(order_hash, part_index) {
            return Err(SwapError::AlreadyFilled);
        }
        let current_allowance = self.allowance_lookup(maker);
        if current_allowance < token_amount {
            return Err(SwapError::InsufficientAllowance);
        }

        let cancellation_start = withdrawal_start + 86400;
        let created = factory.create_src_escrow_partial(
            self.contract_address,
            hashed_secret,
            recipient,
            maker,
            token_amount,
            withdrawal_start,
            public_withdrawal_start,
            cancellation_start,
            part_index,
            total_parts,
        );
        let (escrow_id, transfers) = match created {
            Ok(out) => out,
            Err(e) => {
                return Err(e);
            },
        };

        let first_fill = self.segment_count(order_hash) == 0;
        self.allowances.push((maker, current_allowance - token_amount));
        let entry = FilledOrder {
            order_hash: copy_bytes(order_hash),
            maker,
            recipient,
            escrow_id,
            part_index,
            total_parts,
            is_active: true,
        };
        self.orders.push(entry);
        if first_fill {
            self.user_filled_orders.push((maker, copy_bytes(order_hash)));
        }
        proof {
            assert(final(self)@.allowances.drop_last() =~= old(self)@.allowances);
            assert(final(self)@.orders =~= old(self)@.orders.push(
                final(self)@.orders.last(),
            ));
            if first_fill {
                assert(final(self)@.user_filled_orders =~= old(self)@.user_filled_orders.push(
                    (maker, order_hash@),
                ));
            } else {
                assert(final(self)@.user_filled_orders =~= old(self)@.user_filled_orders);
            }
            assert forall|j: int, k: int| 0 <= j < k < final(self)@.orders.len()
                implies !((#[trigger] final(self)@.orders[j]).order_hash
                    == (#[trigger] final(self)@.orders[k]).order_hash
                    && final(self)@.orders[j].part_index == final(self)@.orders[k].part_index) by {
                if k == final(self)@.orders.len() - 1 {
                    assert(!part_filled(old(self)@.orders, order_hash@, part_index));
                    assert(final(self)@.orders[j] == old(self)@.orders[j]);
                }
            }
        }
        Ok((escrow_id, transfers))
    }
}


/// Why `cancel_order` fails; `None` means it succeeds. The slot must have
/// been filled; its entry must still be active; only that part's maker may
/// cancel; and the escrow ledger's own cancellation checks decide the rest.
pub open spec fn cancel_order_error(
    lop: LopView,
    fv: FactoryView,
    caller: AccountId,
    h: Seq<u8>,
    part: u64,
    now: u64,
) -> Option<SwapError> {
    if !part_filled(lop.orders, h, part) {
        Some(SwapError::PartNotFilled)
    } else {
        let j = choose|j: int| 0 <= j < lop.orders.len() && lop.orders[j].order_hash == h
            && lop.orders[j].part_index == part;
        let entry = lop.orders[j];
        if !entry.is_active {
            Some(SwapError::AlreadyCancelled)
        } else if entry.maker != caller {
            Some(SwapError::Unauthorized)
        } else {
            match fv.src_view(entry.escrow_id) {
                Option::None => Some(SwapError::RecordNotFound),
                Option::Some(e) => src_cancel_error(e, caller, now),
            }
        }
    }
}

impl SimpleLimitOrderProtocol {
    /// Cancel one filled part of an order: only its maker, and only while the
    /// underlying source escrow's private cancellation window is open. The
    /// escrow is cancelled on the ledger (principal and deposit return to the
    /// part's creator) and the part's active flag is cleared — the slot stays
    /// consumed forever.
    pub fn cancel_order(
        &mut self,
        factory: &mut HashLockedEscrowFactory,
        caller: AccountId,
        order_hash: &Vec<u8>,
        part_index: u64,
        now: u64,
    ) -> (r: Result<Vec<TokenTransfer>, SwapError>)
        requires
            old(self)@.wf(),
            old(factory)@.wf(),
        ensures
            final(self)@.wf(),
            final(factory)@.wf(),
            match r {
                Ok(ts) => cancel_order_ok_post(
                    old(self)@, old(factory)@, final(self)@, final(factory)@, ts@, caller,
                    order_hash@, part_index, now,
                ),
                Err(err) => {
                    &&& *final(self) == *old(self)
                    &&& *final(factory) == *old(factory)
                    &&& Some(err) == cancel_order_error(
                        old(self)@, old(factory)@, caller, order_hash@, part_index, now,
                    )
                },
            },
    {
        let ghost orders = self@.orders;
        let found = match self.find_part(order_hash, part_index) {
            Some(j) => j,
            None => {
                return Err(SwapError::PartNotFilled);
            },
        };
        proof {
            assert(orders[found as int].order_hash == order_hash@
                && orders[found as int].part_index == part_index);
            let jc = choose|j: int| 0 <= j < orders.len() && orders[j].order_hash == order_hash@
                && orders[j].part_index == part_index;
            lemma_part_entry_unique(self@, order_hash@, part_index, jc, found as int);
        }
        let (escrow_id, updated) = {
            let entry = &self.orders[found];
            if !entry.is_active {
                return Err(SwapError::AlreadyCancelled);
            }
            if entry.maker != caller {
                return Err(SwapError::Unauthorized);
            }
            let updated = FilledOrder {
                order_hash: copy_bytes(&entry.order_hash),
                maker: entry.maker,
                recipient: entry.recipient,
                escrow_id: entry.escrow_id,
                part_index: entry.part_index,
                total_parts: entry.total_parts,
                is_active: false,
            };
            (entry.escrow_id, updated)
        };
        let transfers = match factory.cancel_src_escrow(caller, escrow_id, now) {
            Ok(ts) => ts,
            Err(e) => {
                return Err(e);
            },
        };
        let slot = &mut self.orders[found];
        *slot = updated;
        proof {
            let entry = orders[found as int];
            assert(final(self)@.orders =~= orders.update(
                found as int,
                (FilledOrderView { is_active: false, ..entry }),
            ));
            assert(final(self)@.user_filled_orders =~= old(self)@.user_filled_orders);
            assert forall|j: int, k: int| 0 <= j < k < final(self)@.orders.len()
                implies !((#[trigger] final(self)@.orders[j]).order_hash
                    == (#[trigger] final(self)@.orders[k]).order_hash
                    && final(self)@.orders[j].part_index == final(self)@.orders[k].part_index) by {
                assert(final(self)@.orders[j].order_hash == orders[j].order_hash
                    && final(self)@.orders[j].part_index == orders[j].part_index);
                assert(final(self)@.orders[k].order_hash == orders[k].order_hash
                    && final(self)@.orders[k].part_index == orders[k].part_index);
            }
        }
        Ok(transfers)
    }

    /// A copy of one filled part.
    fn copy_entry(entry: &FilledOrder) -> (r: FilledOrder)
        ensures
            r@ == entry@,
    {
        FilledOrder {
            order_hash: copy_bytes(&entry.order_hash),
            maker: entry.maker,
            recipient: entry.recipient,
            escrow_id: entry.escrow_id,
            part_index: entry.part_index,
            total_parts: entry.total_parts,
            is_active: entry.is_active,
        }
    }

    /// All filled parts of the order, in fill order.
    pub fn get_order(&self, order_hash: &Vec<u8>) -> (r: Vec<FilledOrder>)
        ensures
            r@.len() == order_parts(self@.orders, order_hash@).len(),
            forall|i: int| 0 <= i < r@.len() ==> (#[trigger] r@[i])@ == order_parts(
                self@.orders,
                order_hash@,
            )[i],
    {
        let ghost orders = self@.orders;
        let mut r: Vec<FilledOrder> = Vec::new();
        let mut i: usize = 0;
        while i < self.orders.len()
            invariant
                i <= self.orders.len(),
                orders == self@.orders,
                orders.len() == self.orders.len(),
                r@.len() == order_parts(orders.take(i as int), order_hash@).len(),
                forall|k: int| 0 <= k < r@.len() ==> (#[trigger] r@[k])@ == order_parts(
                    orders.take(i as int),
                    order_hash@,
                )[k],
            decreases self.orders.len() - i,
        {
            let entry = &self.orders[i];
            proof {
                assert(orders.take(i + 1).drop_last() =~= orders.take(i as int));
                assert(orders.take(i + 1).last() == orders[i as int]);
            }
            if bytes_eq(&entry.order_hash, order_hash) {
                r.push(Self::copy_entry(entry));
            }
            i = i + 1;
        }
        proof {
            assert(orders.take(orders.len() as int) =~= orders);
        }
        r
    }

    /// The filled part of the order at the given index.
    pub fn get_order_part(&self, order_hash: &Vec<u8>, part_index: u64) -> (r: Result<
        &FilledOrder,
        SwapError,
    >)
        ensures
            match r {
                Ok(o) => part_filled(self@.orders, order_hash@, part_index) && exists|j: int|
                    0 <= j < self@.orders.len() && self@.orders[j] == o@ && o@.order_hash
                        == order_hash@ && o@.part_index == part_index,
                Err(err) => !part_filled(self@.orders, order_hash@, part_index)
                    && err == SwapError::PartNotFilled,
            },
    {
        let ghost orders = self@.orders;
        let mut i: usize = 0;
        while i < self.orders.len()
            invariant
                i <= self.orders.len(),
                orders == self@.orders,
                orders.len() == self.orders.len(),
                forall|j: int| 0 <= j < i ==> !((#[trigger] orders[j]).order_hash == order_hash@
                    && orders[j].part_index == part_index),
            decreases self.orders.len() - i,
        {
            let entry = &self.orders[i];
            if entry.part_index == part_index && bytes_eq(&entry.order_hash, order_hash) {
                proof {
                    assert(orders[i as int].order_hash == order_hash@
                        && orders[i as int].part_index == part_index);
                }
                return Ok(entry);
            }
            i = i + 1;
        }
        Err(SwapError::PartNotFilled)
    }

    /// How many segments of the order remain open: for a single-part order,
    /// one or zero by whether its only part is filled; for a multi-part
    /// order, the declared part count minus the filled count (which must not
    /// exceed it — fills against a consistent part count keep it so).
    pub fn get_remaining_segments(&self, order_hash: &Vec<u8>, total_parts: u32) -> (r: u64)
        requires
            total_parts > 1 ==> order_parts(self@.orders, order_hash@).len()
                <= total_parts as int,
        ensures
            r == (if total_parts <= 1 {
                if part_filled(self@.orders, order_hash@, 0) {
                    0u64
                } else {
                    1u64
                }
            } else {
                (total_parts as u64 - order_parts(self@.orders, order_hash@).len() as u64) as u64
            }),
    {
        if total_parts <= 1 {
            if self.part_filled_lookup(order_hash, 0) {
                0
            } else {
                1
            }
        } else {
            let filled = self.segment_count(order_hash);
            total_parts as u64 - filled as u64
        }
    }

    /// Whether the given part index is still open for the order.
    pub fn is_part_available(&self, order_hash: &Vec<u8>, part_index: u64) -> (r: bool)
        ensures
            r == !part_filled(self@.orders, order_hash@, part_index),
    {
        !self.part_filled_lookup(order_hash, part_index)
    }

    /// The part indices below `total_parts` still open for the order,
    /// ascending.
    pub fn get_available_part_indices(&self, order_hash: &Vec<u8>, total_parts: u32) -> (r: Vec<
        u64,
    >)
        ensures
            r@ == available_part_indices_below(
                self@.orders,
                order_hash@,
                total_parts as u64,
            ),
    {
        let total = total_parts as u64;
        let mut r: Vec<u64> = Vec::new();
        let mut i: u64 = 0;
        while i < total
            invariant
                i <= total,
                r@ == available_part_indices_below(self@.orders, order_hash@, i),
            decreases total - i,
        {
            if !self.part_filled_lookup(order_hash, i) {
                r.push(i);
            }
            i = i + 1;
        }
        r
    }

    /// The orders the user has filled parts of, by hash, in first-fill order.
    pub fn get_user_filled_orders(&self, user: AccountId) -> (r: Vec<Vec<u8>>)
        ensures
            r.deep_view() == user_order_hashes(self@.user_filled_orders, user),
    {
        let ghost log = self@.user_filled_orders;
        let mut r: Vec<Vec<u8>> = Vec::new();
        let mut i: usize = 0;
        while i < self.user_filled_orders.len()
            invariant
                i <= self.user_filled_orders.len(),
                log == self@.user_filled_orders,
                log.len() == self.user_filled_orders.len(),
                r@.len() == user_order_hashes(log.take(i as int), user).len(),
                forall|k: int| 0 <= k < r@.len() ==> (#[trigger] r@[k])@ == user_order_hashes(
                    log.take(i as int),
                    user,
                )[k],
            decreases self.user_filled_orders.len() - i,
        {
            let entry = &self.user_filled_orders[i];
            proof {
                assert(log.take(i + 1).drop_last() =~= log.take(i as int));
                assert(log.take(i + 1).last() == log[i as int]);
            }
            if entry.0 == user {
                r.push(copy_bytes(&entry.1));
            }
            i = i + 1;
        }
        proof {
            assert(log.take(log.len() as int) =~= log);
            let spec_r = user_order_hashes(log, user);
            assert forall|k: int| 0 <= k < r@.len() implies r.deep_view()[k] == spec_r[k] by {
                assert(r.deep_view()[k] == r@[k].deep_view());
            }
            assert(r.deep_view() =~= spec_r);
        }
        r
    }

    /// The owner may point stuck funds at a destination; other callers are
    /// refused. Moving the funds themselves is the host's affair.
    pub fn rescue_xlm(&self, caller: AccountId, to: AccountId) -> (r: Result<(), SwapError>)
        ensures
            match r {
                Ok(_) => caller == self@.owner,
                Err(err) => caller != self@.owner && err == SwapError::Unauthorized,
            },
    {
        if caller != self.owner {
            return Err(SwapError::Unauthorized);
        }
        let _ = to;
        Ok(())
    }
}

} // verus!
