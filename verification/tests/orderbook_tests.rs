use escrow_factory::escrow::HashLockedEscrowFactory;
use escrow_factory::orderbook::SimpleLimitOrderProtocol;
use escrow_factory::{SwapError, DEPOSIT_AMOUNT};

const FACTORY: u64 = 100;
const LOP: u64 = 101;
const OWNER: u64 = 50;
const TOKEN: u64 = 1;
const MAKER: u64 = 2;
const RECIPIENT: u64 = 4;
const STRANGER: u64 = 9;

fn digest(data: &[u8]) -> Vec<u8> {
    <sha2::Sha256 as sha2::Digest>::digest(data).to_vec()
}

fn setup() -> (SimpleLimitOrderProtocol, HashLockedEscrowFactory) {
    let lop = SimpleLimitOrderProtocol::initialize(LOP, FACTORY, OWNER);
    let factory = HashLockedEscrowFactory::initialize(FACTORY, TOKEN);
    (lop, factory)
}

#[test]
fn fill_order_validates_inputs() {
    let (mut lop, mut factory) = setup();
    let h = digest(b"order");
    let hs = digest(b"root");
    assert_eq!(
        lop.fill_order(&mut factory, &h, MAKER, RECIPIENT, 100, &hs, 100, 200, 0, 0),
        Err(SwapError::InvalidPartCount)
    );
    assert_eq!(
        lop.fill_order(&mut factory, &h, MAKER, RECIPIENT, 100, &hs, 100, 200, 4, 4),
        Err(SwapError::InvalidPartIndex)
    );
    assert_eq!(
        lop.fill_order(&mut factory, &h, MAKER, RECIPIENT, 0, &hs, 100, 200, 0, 4),
        Err(SwapError::InvalidAmount)
    );
    assert_eq!(
        lop.fill_order(&mut factory, &h, MAKER, RECIPIENT, 100, &hs, 100, 200, 0, 4),
        Err(SwapError::InsufficientAllowance)
    );
    lop.approve(MAKER, 1_000);
    // the ledger validates the derived windows: here the public withdrawal
    // boundary does not lie past the withdrawal boundary
    assert_eq!(
        lop.fill_order(&mut factory, &h, MAKER, RECIPIENT, 100, &hs, 100, 100, 0, 4),
        Err(SwapError::InvalidTimeWindow)
    );
}

#[test]
fn fill_part_then_refill_fails_and_segments_count() {
    let (mut lop, mut factory) = setup();
    lop.approve(MAKER, 1_000_000);
    let h = digest(b"order");
    let hs = digest(b"root");
    let (escrow_id, transfers) = lop
        .fill_order(&mut factory, &h, MAKER, RECIPIENT, 250_000, &hs, 100, 200, 2, 4)
        .unwrap();
    assert_eq!(escrow_id, 0);
    assert_eq!(transfers[0].from, MAKER);
    assert_eq!(transfers[0].amount, 250_000);
    assert!(transfers[0].uses_allowance);
    assert_eq!(transfers[1].from, LOP);
    assert_eq!(transfers[1].amount, DEPOSIT_AMOUNT);

    // the same part again, with identical or different arguments: refused
    assert_eq!(
        lop.fill_order(&mut factory, &h, MAKER, RECIPIENT, 250_000, &hs, 100, 200, 2, 4),
        Err(SwapError::AlreadyFilled)
    );
    assert_eq!(
        lop.fill_order(&mut factory, &h, STRANGER, STRANGER, 1, &digest(b"x"), 500, 600, 2, 9),
        Err(SwapError::AlreadyFilled)
    );

    assert_eq!(lop.get_remaining_segments(&h, 4), 3);
    assert!(!lop.is_part_available(&h, 2));
    assert!(lop.is_part_available(&h, 0));
    assert_eq!(lop.get_available_part_indices(&h, 4), vec![0, 1, 3]);

    let parts = lop.get_order(&h);
    assert_eq!(parts.len(), 1);
    assert_eq!(parts[0].maker, MAKER);
    assert_eq!(parts[0].escrow_id, escrow_id);
    assert_eq!(parts[0].part_index, 2);
    assert!(parts[0].is_active);

    let part = lop.get_order_part(&h, 2).unwrap();
    assert_eq!(part.recipient, RECIPIENT);
    assert_eq!(
        lop.get_order_part(&h, 0).map(|p| p.part_index),
        Err(SwapError::PartNotFilled)
    );

    assert_eq!(lop.get_user_filled_orders(MAKER), vec![h.clone()]);
    assert_eq!(lop.get_user_filled_orders(STRANGER), Vec::<Vec<u8>>::new());
}

#[test]
fn fill_creates_the_escrow_with_derived_windows() {
    let (mut lop, mut factory) = setup();
    lop.approve(MAKER, 1_000_000);
    let h = digest(b"order");
    let hs = digest(b"root");
    let (escrow_id, _) = lop
        .fill_order(&mut factory, &h, MAKER, RECIPIENT, 250_000, &hs, 100, 200, 2, 4)
        .unwrap();
    let e = factory.get_src_escrow(escrow_id).unwrap();
    assert_eq!(e.creator, MAKER);
    assert_eq!(e.recipient, RECIPIENT);
    assert_eq!(e.withdrawal_start, 100);
    assert_eq!(e.public_withdrawal_start, 200);
    assert_eq!(e.cancellation_start, 100 + 86400);
    assert_eq!(e.public_cancellation_start, 100 + 86400 + 3600);
    assert!(e.is_partial_fill);
    assert_eq!(e.part_index, 2);
}

#[test]
fn allowance_pulls_sum_up() {
    let (mut lop, mut factory) = setup();
    lop.approve(MAKER, 1_000);
    assert_eq!(lop.allowance(MAKER, LOP), 1_000);
    let hs = digest(b"root");
    lop.fill_order(&mut factory, &digest(b"o1"), MAKER, RECIPIENT, 300, &hs, 100, 200, 0, 2)
        .unwrap();
    assert_eq!(lop.allowance(MAKER, LOP), 700);
    lop.fill_order(&mut factory, &digest(b"o2"), MAKER, RECIPIENT, 200, &hs, 100, 200, 1, 2)
        .unwrap();
    assert_eq!(lop.allowance(MAKER, LOP), 500);
    assert_eq!(
        lop.fill_order(
            &mut factory, &digest(b"o3"), MAKER, RECIPIENT, 600, &digest(b"r3"), 100, 200, 0, 1
        ),
        Err(SwapError::InsufficientAllowance)
    );
    assert_eq!(lop.allowance(MAKER, LOP), 500);
}

#[test]
fn cancel_order_flow() {
    let (mut lop, mut factory) = setup();
    lop.approve(MAKER, 1_000_000);
    let h = digest(b"order");
    let hs = digest(b"root");
    lop.fill_order(&mut factory, &h, MAKER, RECIPIENT, 250_000, &hs, 100, 200, 2, 4)
        .unwrap();
    // the escrow's cancellation window is [100 + 86400, 100 + 86400 + 3600)
    let in_window = 100 + 86400 + 100;
    assert_eq!(
        lop.cancel_order(&mut factory, MAKER, &h, 0, in_window),
        Err(SwapError::PartNotFilled)
    );
    assert_eq!(
        lop.cancel_order(&mut factory, STRANGER, &h, 2, in_window),
        Err(SwapError::Unauthorized)
    );
    assert_eq!(
        lop.cancel_order(&mut factory, MAKER, &h, 2, 500),
        Err(SwapError::NotYetOpen)
    );
    let transfers = lop.cancel_order(&mut factory, MAKER, &h, 2, in_window).unwrap();
    assert_eq!(transfers[0].to, MAKER);
    assert_eq!(transfers[0].amount, 250_000);
    assert_eq!(transfers[1].amount, DEPOSIT_AMOUNT);
    // the part stays consumed: neither cancellable again nor refillable
    assert_eq!(
        lop.cancel_order(&mut factory, MAKER, &h, 2, in_window),
        Err(SwapError::AlreadyCancelled)
    );
    assert_eq!(
        lop.fill_order(&mut factory, &h, MAKER, RECIPIENT, 250_000, &hs, 100, 200, 2, 4),
        Err(SwapError::AlreadyFilled)
    );
    assert!(!lop.is_part_available(&h, 2));
    assert!(!lop.get_order(&h)[0].is_active);
    assert!(factory.get_src_escrow(0).unwrap().cancelled);
}

#[test]
fn single_part_remaining_segments() {
    let (mut lop, mut factory) = setup();
    lop.approve(MAKER, 1_000_000);
    let h = digest(b"single");
    assert_eq!(lop.get_remaining_segments(&h, 1), 1);
    lop.fill_order(&mut factory, &h, MAKER, RECIPIENT, 100, &digest(b"r"), 100, 200, 0, 1)
        .unwrap();
    assert_eq!(lop.get_remaining_segments(&h, 1), 0);
    assert_eq!(lop.get_remaining_segments(&h, 0), 0);
}

#[test]
fn lop_rescue_is_owner_gated() {
    let (lop, _factory) = setup();
    assert_eq!(lop.rescue_xlm(STRANGER, STRANGER), Err(SwapError::Unauthorized));
    assert_eq!(lop.rescue_xlm(OWNER, STRANGER), Ok(()));
}
