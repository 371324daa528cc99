use escrow_factory::minimal::{MinimalEscrowFactory, MINIMAL_AMOUNT};
use escrow_factory::SwapError;

const FACTORY: u64 = 100;
const TOKEN: u64 = 1;
const CREATOR: u64 = 3;
const RECIPIENT: u64 = 4;
const STRANGER: u64 = 9;

fn digest(data: &[u8]) -> Vec<u8> {
    <sha2::Sha256 as sha2::Digest>::digest(data).to_vec()
}

#[test]
fn create_locks_the_fixed_amount() {
    let mut f = MinimalEscrowFactory::initialize(FACTORY, TOKEN);
    assert_eq!(f.get_escrow_counter(), 0);
    let (id, transfers) = f.create_escrow(CREATOR, RECIPIENT, &digest(b"s"));
    assert_eq!(id, 0);
    assert_eq!(transfers.len(), 1);
    assert_eq!(transfers[0].from, CREATOR);
    assert_eq!(transfers[0].to, FACTORY);
    assert_eq!(transfers[0].amount, MINIMAL_AMOUNT);
    assert_eq!(f.get_escrow_counter(), 1);
    assert!(f.is_escrow(id));
    assert!(!f.is_escrow(1));
    assert_eq!(f.get_user_escrows(CREATOR), vec![id]);
    assert_eq!(f.get_user_escrows(STRANGER), Vec::<u64>::new());
    let e = f.get_escrow(id).unwrap();
    assert_eq!(e.creator, CREATOR);
    assert_eq!(e.recipient, RECIPIENT);
    assert_eq!(e.amount, MINIMAL_AMOUNT);
    assert!(!e.withdrawn);
}

#[test]
fn withdraw_pays_the_recipient_once() {
    let secret = b"open sesame".to_vec();
    let mut f = MinimalEscrowFactory::initialize(FACTORY, TOKEN);
    let (id, _) = f.create_escrow(CREATOR, RECIPIENT, &digest(&secret));
    assert_eq!(
        f.withdraw_escrow(STRANGER, id, &b"wrong".to_vec()),
        Err(SwapError::InvalidSecret)
    );
    let transfers = f.withdraw_escrow(STRANGER, id, &secret).unwrap();
    assert_eq!(transfers.len(), 1);
    assert_eq!(transfers[0].to, RECIPIENT);
    assert_eq!(transfers[0].amount, MINIMAL_AMOUNT);
    assert!(f.get_escrow(id).unwrap().withdrawn);
    assert_eq!(
        f.withdraw_escrow(STRANGER, id, &secret),
        Err(SwapError::AlreadyWithdrawn)
    );
}

#[test]
fn missing_records_are_reported() {
    let mut f = MinimalEscrowFactory::initialize(FACTORY, TOKEN);
    assert_eq!(
        f.withdraw_escrow(STRANGER, 5, &b"s".to_vec()),
        Err(SwapError::RecordNotFound)
    );
    assert_eq!(
        f.get_escrow(5).map(|e| e.amount),
        Err(SwapError::RecordNotFound)
    );
}

#[test]
fn counter_grows_with_each_creation() {
    let mut f = MinimalEscrowFactory::initialize(FACTORY, TOKEN);
    for i in 0..3u64 {
        let (id, _) = f.create_escrow(CREATOR, RECIPIENT, &digest(b"s"));
        assert_eq!(id, i);
    }
    assert_eq!(f.get_escrow_counter(), 3);
    assert_eq!(f.get_user_escrows(CREATOR), vec![0, 1, 2]);
}
