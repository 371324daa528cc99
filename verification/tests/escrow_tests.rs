use escrow_factory::escrow::{HashLockedEscrowFactory, TimeWindows};
use escrow_factory::merkle::{generate_leaf, merkle_prove, merkle_root};
use escrow_factory::{SwapError, DEPOSIT_AMOUNT, RESCUE_DELAY};

const FACTORY: u64 = 100;
const TOKEN: u64 = 1;
const CREATOR: u64 = 3;
const BUYER: u64 = 2;
const RECIPIENT: u64 = 4;
const STRANGER: u64 = 9;

fn digest(data: &[u8]) -> Vec<u8> {
    <sha2::Sha256 as sha2::Digest>::digest(data).to_vec()
}

fn windows() -> TimeWindows {
    TimeWindows {
        withdrawal_start: 100,
        public_withdrawal_start: 200,
        cancellation_start: 300,
        public_cancellation_start: 400,
    }
}

fn full_fill_factory(secret: &[u8]) -> (HashLockedEscrowFactory, u64) {
    let mut f = HashLockedEscrowFactory::initialize(FACTORY, TOKEN);
    f.approve(BUYER, 1_000_000);
    let hs = digest(secret);
    let (id, _) = f
        .create_src_escrow(CREATOR, &hs, RECIPIENT, BUYER, 1_000_000, windows())
        .unwrap();
    (f, id)
}

#[test]
fn time_windows_ordering() {
    assert!(windows().is_well_ordered());
    let mut w = windows();
    w.public_withdrawal_start = 100;
    assert!(!w.is_well_ordered());
}

#[test]
fn create_src_escrow_validates_amount_and_windows() {
    let mut f = HashLockedEscrowFactory::initialize(FACTORY, TOKEN);
    f.approve(BUYER, 1_000_000);
    let hs = digest(b"secret");
    assert_eq!(
        f.create_src_escrow(CREATOR, &hs, RECIPIENT, BUYER, 0, windows()),
        Err(SwapError::InvalidAmount)
    );
    let mut w = windows();
    w.cancellation_start = 200;
    assert_eq!(
        f.create_src_escrow(CREATOR, &hs, RECIPIENT, BUYER, 5, w),
        Err(SwapError::InvalidTimeWindow)
    );
    let mut w2 = windows();
    w2.public_cancellation_start = 300;
    assert_eq!(
        f.create_src_escrow(CREATOR, &hs, RECIPIENT, BUYER, 5, w2),
        Err(SwapError::InvalidTimeWindow)
    );
}

#[test]
fn create_src_escrow_locks_principal_and_deposit() {
    let mut f = HashLockedEscrowFactory::initialize(FACTORY, TOKEN);
    f.approve(BUYER, 1_000_000);
    let hs = digest(b"secret");
    let (id, transfers) = f
        .create_src_escrow(CREATOR, &hs, RECIPIENT, BUYER, 1_000_000, windows())
        .unwrap();
    assert_eq!(id, 0);
    assert_eq!(transfers.len(), 2);
    assert_eq!(transfers[0].from, BUYER);
    assert_eq!(transfers[0].to, FACTORY);
    assert_eq!(transfers[0].amount, 1_000_000);
    assert!(transfers[0].uses_allowance);
    assert_eq!(transfers[1].from, CREATOR);
    assert_eq!(transfers[1].amount, DEPOSIT_AMOUNT);
    assert!(!transfers[1].uses_allowance);
}

#[test]
fn created_record_fields() {
    let (f, id) = full_fill_factory(b"secret");
    let e = f.get_src_escrow(id).unwrap();
    assert_eq!(e.creator, BUYER);
    assert_eq!(e.recipient, RECIPIENT);
    assert_eq!(e.hashed_secret, digest(b"secret"));
    assert_eq!(e.token, TOKEN);
    assert_eq!(e.amount, 1_000_000);
    assert_eq!(e.security_deposit, DEPOSIT_AMOUNT);
    assert_eq!(e.withdrawal_start, 100);
    assert_eq!(e.public_withdrawal_start, 200);
    assert_eq!(e.cancellation_start, 300);
    assert_eq!(e.public_cancellation_start, 400);
    assert!(!e.funds_withdrawn);
    assert!(!e.cancelled);
    assert!(!e.is_partial_fill);
    assert_eq!(e.total_parts, 1);
    assert!(f.is_escrow_contract(id));
    assert!(!f.is_escrow_contract(id + 1));
    assert_eq!(f.get_user_escrows(BUYER), vec![id]);
    assert_eq!(f.get_user_escrows(STRANGER), Vec::<u64>::new());
    assert_eq!(f.get_deposit_amount(), DEPOSIT_AMOUNT);
}

#[test]
fn withdraw_private_window_by_recipient_then_terminal() {
    let secret = b"secret".to_vec();
    let (mut f, id) = full_fill_factory(&secret);
    let transfers = f.withdraw_src_escrow(RECIPIENT, id, &secret, 150).unwrap();
    assert_eq!(transfers.len(), 2);
    assert_eq!(transfers[0].to, RECIPIENT);
    assert_eq!(transfers[0].amount, 1_000_000);
    assert_eq!(transfers[1].to, RECIPIENT);
    assert_eq!(transfers[1].amount, DEPOSIT_AMOUNT);
    assert!(f.get_src_escrow(id).unwrap().funds_withdrawn);
    assert_eq!(
        f.withdraw_src_escrow(RECIPIENT, id, &secret, 150),
        Err(SwapError::AlreadyWithdrawn)
    );
}

#[test]
fn withdraw_private_window_stranger_fails_public_succeeds() {
    let secret = b"secret".to_vec();
    let (mut f, id) = full_fill_factory(&secret);
    assert_eq!(
        f.withdraw_src_escrow(STRANGER, id, &secret, 150),
        Err(SwapError::Unauthorized)
    );
    let transfers = f.withdraw_src_escrow(STRANGER, id, &secret, 250).unwrap();
    // the principal still routes to the contractual recipient; only the
    // deposit rewards the caller
    assert_eq!(transfers[0].to, RECIPIENT);
    assert_eq!(transfers[0].amount, 1_000_000);
    assert_eq!(transfers[1].to, STRANGER);
    assert_eq!(transfers[1].amount, DEPOSIT_AMOUNT);
}

#[test]
fn withdraw_window_and_secret_errors() {
    let secret = b"secret".to_vec();
    let (mut f, id) = full_fill_factory(&secret);
    assert_eq!(
        f.withdraw_src_escrow(RECIPIENT, id, &secret, 99),
        Err(SwapError::NotYetOpen)
    );
    assert_eq!(
        f.withdraw_src_escrow(RECIPIENT, id, &secret, 300),
        Err(SwapError::WindowClosed)
    );
    assert_eq!(
        f.withdraw_src_escrow(RECIPIENT, id, &b"wrong".to_vec(), 150),
        Err(SwapError::InvalidSecret)
    );
    assert_eq!(
        f.withdraw_src_escrow(RECIPIENT, id + 7, &secret, 150),
        Err(SwapError::RecordNotFound)
    );
}

#[test]
fn cancel_window_and_terminal_flow() {
    let secret = b"secret".to_vec();
    let (mut f, id) = full_fill_factory(&secret);
    assert_eq!(f.cancel_src_escrow(BUYER, id, 250), Err(SwapError::NotYetOpen));
    let transfers = f.cancel_src_escrow(BUYER, id, 350).unwrap();
    assert_eq!(transfers[0].to, BUYER);
    assert_eq!(transfers[0].amount, 1_000_000);
    assert_eq!(transfers[1].to, BUYER);
    assert_eq!(transfers[1].amount, DEPOSIT_AMOUNT);
    assert!(f.get_src_escrow(id).unwrap().cancelled);
    assert_eq!(
        f.withdraw_src_escrow(RECIPIENT, id, &secret, 250),
        Err(SwapError::AlreadyCancelled)
    );
    assert_eq!(
        f.cancel_src_escrow(BUYER, id, 350),
        Err(SwapError::AlreadyCancelled)
    );
}

#[test]
fn cancel_rejected_at_public_boundary_and_for_strangers() {
    let secret = b"secret".to_vec();
    let (mut f, id) = full_fill_factory(&secret);
    // the protocol rejects cancellation at and past the public boundary
    assert_eq!(f.cancel_src_escrow(BUYER, id, 400), Err(SwapError::WindowClosed));
    assert_eq!(f.cancel_src_escrow(STRANGER, id, 350), Err(SwapError::Unauthorized));
}

#[test]
fn rescue_opens_after_grace_delay() {
    let secret = b"secret".to_vec();
    let (mut f, id) = full_fill_factory(&secret);
    let boundary = 400 + RESCUE_DELAY;
    assert_eq!(
        f.rescue_src_escrow(RECIPIENT, id, boundary - 1),
        Err(SwapError::NotYetOpen)
    );
    assert_eq!(
        f.rescue_src_escrow(STRANGER, id, boundary),
        Err(SwapError::Unauthorized)
    );
    let transfers = f.rescue_src_escrow(RECIPIENT, id, boundary).unwrap();
    assert_eq!(transfers[0].to, RECIPIENT);
    assert_eq!(transfers[0].amount, 1_000_000);
    assert_eq!(transfers[1].to, BUYER);
    assert_eq!(transfers[1].amount, DEPOSIT_AMOUNT);
    assert!(f.get_src_escrow(id).unwrap().funds_withdrawn);
    assert_eq!(
        f.rescue_src_escrow(RECIPIENT, id, boundary),
        Err(SwapError::AlreadyWithdrawn)
    );
}

#[test]
fn allowance_set_and_consumed_exactly() {
    let mut f = HashLockedEscrowFactory::initialize(FACTORY, TOKEN);
    f.approve(BUYER, 500);
    assert_eq!(f.allowance(BUYER, FACTORY), 500);
    assert_eq!(f.allowance(BUYER, STRANGER), 0);
    assert_eq!(f.allowance(STRANGER, FACTORY), 0);
    let hs = digest(b"s");
    f.create_src_escrow(CREATOR, &hs, RECIPIENT, BUYER, 200, windows()).unwrap();
    assert_eq!(f.allowance(BUYER, FACTORY), 300);
    f.create_src_escrow(CREATOR, &hs, RECIPIENT, BUYER, 100, windows()).unwrap();
    assert_eq!(f.allowance(BUYER, FACTORY), 200);
    assert_eq!(
        f.create_src_escrow(CREATOR, &hs, RECIPIENT, BUYER, 300, windows()),
        Err(SwapError::InsufficientAllowance)
    );
    assert_eq!(f.allowance(BUYER, FACTORY), 200);
    // approve is an absolute set, not an increment
    f.approve(BUYER, 50);
    assert_eq!(f.allowance(BUYER, FACTORY), 50);
}

#[test]
fn dst_escrow_flow() {
    let secret = b"dst".to_vec();
    let mut f = HashLockedEscrowFactory::initialize(FACTORY, TOKEN);
    let hs = digest(&secret);
    let (id, transfers) = f
        .create_dst_escrow(CREATOR, &hs, RECIPIENT, 700, 100, 200, 300)
        .unwrap();
    assert_eq!(transfers[0].from, CREATOR);
    assert_eq!(transfers[0].amount, 700);
    assert_eq!(transfers[1].amount, DEPOSIT_AMOUNT);
    let e = f.get_dst_escrow(id).unwrap();
    assert_eq!(e.creator, CREATOR);
    assert!(!e.is_partial_fill);
    // in the private window the creator has standing too
    let ts = f.withdraw_dst_escrow(CREATOR, id, &secret, 150).unwrap();
    assert_eq!(ts[0].to, RECIPIENT);
    assert_eq!(ts[0].amount, 700);
    assert_eq!(ts[1].to, CREATOR);
    assert_eq!(ts[1].amount, DEPOSIT_AMOUNT);
}

#[test]
fn dst_cancel_and_rescue() {
    let secret = b"dst".to_vec();
    let mut f = HashLockedEscrowFactory::initialize(FACTORY, TOKEN);
    let hs = digest(&secret);
    let (id, _) = f
        .create_dst_escrow(CREATOR, &hs, RECIPIENT, 700, 100, 200, 300)
        .unwrap();
    assert_eq!(f.cancel_dst_escrow(CREATOR, id, 200), Err(SwapError::NotYetOpen));
    assert_eq!(f.cancel_dst_escrow(STRANGER, id, 350), Err(SwapError::Unauthorized));
    // destination cancellation has no public boundary: late cancel still works
    let ts = f.cancel_dst_escrow(CREATOR, id, 1_000_000).unwrap();
    assert_eq!(ts[0].to, CREATOR);

    let (id2, _) = f
        .create_dst_escrow(CREATOR, &hs, RECIPIENT, 700, 100, 200, 300)
        .unwrap();
    let boundary = 300 + RESCUE_DELAY;
    assert_eq!(
        f.rescue_dst_escrow(CREATOR, id2, boundary - 1),
        Err(SwapError::NotYetOpen)
    );
    let ts2 = f.rescue_dst_escrow(CREATOR, id2, boundary).unwrap();
    assert_eq!(ts2[0].to, CREATOR);
    assert_eq!(ts2[1].to, CREATOR);
}

#[test]
fn partial_fill_withdraw_with_proof() {
    let secrets: Vec<Vec<u8>> = (0..4).map(|i| format!("part{i}").into_bytes()).collect();
    let leaves: Vec<Vec<u8>> = secrets
        .iter()
        .enumerate()
        .map(|(i, s)| generate_leaf(i as u64, &digest(s)))
        .collect();
    let root = merkle_root(&leaves);

    let mut f = HashLockedEscrowFactory::initialize(FACTORY, TOKEN);
    f.approve(BUYER, 1_000_000);
    let (id, _) = f
        .create_src_escrow_partial(BUYER, &root, RECIPIENT, BUYER, 250_000, 100, 200, 300, 2, 4)
        .unwrap();
    let e = f.get_src_escrow(id).unwrap();
    assert!(e.is_partial_fill);
    assert_eq!(e.part_index, 2);
    assert_eq!(e.total_parts, 4);
    assert_eq!(e.public_cancellation_start, 300 + 3600);

    // the plain-secret path refuses a partial record's root
    assert_eq!(
        f.withdraw_src_escrow(RECIPIENT, id, &secrets[2], 150),
        Err(SwapError::InvalidSecret)
    );
    let proof = merkle_prove(&leaves, 2);
    // a proof for the wrong part index does not fold to the root
    let wrong = merkle_prove(&leaves, 1);
    assert_eq!(
        f.withdraw_src_escrow_with_proof(RECIPIENT, id, &secrets[2], &wrong, 150),
        Err(SwapError::InvalidProof)
    );
    let ts = f
        .withdraw_src_escrow_with_proof(RECIPIENT, id, &secrets[2], &proof, 150)
        .unwrap();
    assert_eq!(ts[0].to, RECIPIENT);
    assert_eq!(ts[0].amount, 250_000);
}

#[test]
fn partial_fill_leaf_consumed_once() {
    let root = digest(b"some root");
    let mut f = HashLockedEscrowFactory::initialize(FACTORY, TOKEN);
    f.approve(BUYER, 1_000_000);
    f.create_src_escrow_partial(BUYER, &root, RECIPIENT, BUYER, 100, 100, 200, 300, 2, 4)
        .unwrap();
    assert_eq!(
        f.create_src_escrow_partial(BUYER, &root, RECIPIENT, BUYER, 100, 100, 200, 300, 2, 4),
        Err(SwapError::AlreadyFilled)
    );
    // another part of the same root is fine
    f.create_src_escrow_partial(BUYER, &root, RECIPIENT, BUYER, 100, 100, 200, 300, 3, 4)
        .unwrap();
    // part indices must lie below the part count
    assert_eq!(
        f.create_src_escrow_partial(BUYER, &root, RECIPIENT, BUYER, 100, 100, 200, 300, 4, 4),
        Err(SwapError::InvalidPartIndex)
    );
}

#[test]
fn proof_path_refused_on_full_fill() {
    let secret = b"secret".to_vec();
    let (mut f, id) = full_fill_factory(&secret);
    assert_eq!(
        f.withdraw_src_escrow_with_proof(RECIPIENT, id, &secret, &vec![digest(b"x")], 150),
        Err(SwapError::NotPartialFill)
    );
}

#[test]
fn dst_partial_creation_and_proof_withdraw() {
    let secrets: Vec<Vec<u8>> = (0..3).map(|i| format!("d{i}").into_bytes()).collect();
    let leaves: Vec<Vec<u8>> = secrets
        .iter()
        .enumerate()
        .map(|(i, s)| generate_leaf(i as u64, &digest(s)))
        .collect();
    let root = merkle_root(&leaves);
    let mut f = HashLockedEscrowFactory::initialize(FACTORY, TOKEN);
    let (id, _) = f
        .create_dst_escrow_partial(CREATOR, &root, RECIPIENT, 100, 100, 200, 300, 1, 3)
        .unwrap();
    let proof = merkle_prove(&leaves, 1);
    let ts = f
        .withdraw_dst_escrow_with_proof(STRANGER, id, &secrets[1], &proof, 250)
        .unwrap();
    assert_eq!(ts[0].to, RECIPIENT);
    assert_eq!(ts[1].to, STRANGER);
}
