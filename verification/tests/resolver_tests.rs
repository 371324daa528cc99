use escrow_factory::escrow::HashLockedEscrowFactory;
use escrow_factory::merkle::{generate_leaf, merkle_prove, merkle_root};
use escrow_factory::orderbook::SimpleLimitOrderProtocol;
use escrow_factory::resolver::SimpleResolver;
use escrow_factory::SwapError;

const FACTORY: u64 = 100;
const LOP: u64 = 101;
const OWNER: u64 = 50;
const TOKEN: u64 = 1;
const MAKER: u64 = 2;
const RECIPIENT: u64 = 4;
const STRANGER: u64 = 9;

fn digest(data: &[u8]) -> Vec<u8> {
    <sha2::Sha256 as sha2::Digest>::digest(data).to_vec()
}

fn setup() -> (SimpleResolver, SimpleLimitOrderProtocol, HashLockedEscrowFactory) {
    let resolver = SimpleResolver::initialize(LOP, FACTORY, OWNER);
    let lop = SimpleLimitOrderProtocol::initialize(LOP, FACTORY, OWNER);
    let factory = HashLockedEscrowFactory::initialize(FACTORY, TOKEN);
    (resolver, lop, factory)
}

#[test]
fn execute_swap_is_owner_gated() {
    let (resolver, mut lop, mut factory) = setup();
    lop.approve(MAKER, 1_000_000);
    let h = digest(b"order");
    let hs = digest(b"secret hash");
    assert_eq!(
        resolver.execute_cross_chain_swap(
            &mut lop, &mut factory, STRANGER, &h, MAKER, RECIPIENT, 100, &hs, 100, 0, 1
        ),
        Err(SwapError::Unauthorized)
    );
    let (escrow_id, _) = resolver
        .execute_cross_chain_swap(
            &mut lop, &mut factory, OWNER, &h, MAKER, RECIPIENT, 100, &hs, 100, 0, 1,
        )
        .unwrap();
    // the public withdrawal boundary is derived half an hour past the start
    let e = factory.get_src_escrow(escrow_id).unwrap();
    assert_eq!(e.public_withdrawal_start, 100 + 1800);
    assert_eq!(e.cancellation_start, 100 + 86400);
}

#[test]
fn complete_swap_full_fill_path() {
    let (resolver, mut lop, mut factory) = setup();
    lop.approve(MAKER, 1_000_000);
    let secret = b"the secret".to_vec();
    let h = digest(b"order");
    let hs = digest(&secret);
    let (escrow_id, _) = resolver
        .execute_cross_chain_swap(
            &mut lop, &mut factory, OWNER, &h, MAKER, RECIPIENT, 100, &hs, 100, 0, 1,
        )
        .unwrap();
    assert_eq!(
        resolver.complete_cross_chain_swap(
            &mut factory, STRANGER, escrow_id, &secret, 0, &Vec::new(), 2000
        ),
        Err(SwapError::Unauthorized)
    );
    // public window: time past 100 + 1800
    let transfers = resolver
        .complete_cross_chain_swap(&mut factory, OWNER, escrow_id, &secret, 0, &Vec::new(), 2000)
        .unwrap();
    assert_eq!(transfers[0].to, RECIPIENT);
    assert_eq!(transfers[1].to, OWNER);
    assert!(factory.get_src_escrow(escrow_id).unwrap().funds_withdrawn);
}

#[test]
fn complete_swap_partial_fill_requires_proof() {
    let (resolver, mut lop, mut factory) = setup();
    lop.approve(MAKER, 1_000_000);
    let secrets: Vec<Vec<u8>> = (0..4).map(|i| format!("part{i}").into_bytes()).collect();
    let leaves: Vec<Vec<u8>> = secrets
        .iter()
        .enumerate()
        .map(|(i, s)| generate_leaf(i as u64, &digest(s)))
        .collect();
    let root = merkle_root(&leaves);
    let h = digest(b"order");
    let (escrow_id, _) = resolver
        .execute_cross_chain_swap(
            &mut lop, &mut factory, OWNER, &h, MAKER, RECIPIENT, 100, &root, 100, 1, 4,
        )
        .unwrap();
    assert_eq!(
        resolver.complete_cross_chain_swap(
            &mut factory, OWNER, escrow_id, &secrets[1], 1, &Vec::new(), 2000
        ),
        Err(SwapError::ProofRequired)
    );
    let proof = merkle_prove(&leaves, 1);
    let transfers = resolver
        .complete_cross_chain_swap(&mut factory, OWNER, escrow_id, &secrets[1], 1, &proof, 2000)
        .unwrap();
    assert_eq!(transfers[0].to, RECIPIENT);
    assert_eq!(transfers[0].amount, 100);
    assert_eq!(transfers[1].to, OWNER);
}

#[test]
fn withdraw_from_source_escrow_is_owner_gated() {
    let (resolver, mut lop, mut factory) = setup();
    lop.approve(MAKER, 1_000_000);
    let secret = b"s".to_vec();
    let h = digest(b"order");
    let hs = digest(&secret);
    let (escrow_id, _) = resolver
        .execute_cross_chain_swap(
            &mut lop, &mut factory, OWNER, &h, MAKER, RECIPIENT, 100, &hs, 100, 0, 1,
        )
        .unwrap();
    assert_eq!(
        resolver.withdraw_from_source_escrow(
            &mut factory, STRANGER, escrow_id, &secret, 0, &Vec::new(), 2000
        ),
        Err(SwapError::Unauthorized)
    );
    let transfers = resolver
        .withdraw_from_source_escrow(
            &mut factory, OWNER, escrow_id, &secret, 0, &Vec::new(), 2000,
        )
        .unwrap();
    assert_eq!(transfers[0].to, RECIPIENT);
    assert_eq!(transfers[1].to, OWNER);
    assert_eq!(
        resolver.withdraw_from_source_escrow(
            &mut factory, OWNER, escrow_id, &secret, 0, &Vec::new(), 2000
        ),
        Err(SwapError::AlreadyWithdrawn)
    );
}

#[test]
fn create_destination_escrow_reads_back_the_reference() {
    let (resolver, _lop, mut factory) = setup();
    let hs = digest(b"secret");
    assert_eq!(
        resolver.create_destination_escrow(
            &mut factory, STRANGER, &hs, RECIPIENT, 700, 100, 200, 300, 0, 1
        ),
        Err(SwapError::Unauthorized)
    );
    let (id, transfers) = resolver
        .create_destination_escrow(&mut factory, OWNER, &hs, RECIPIENT, 700, 100, 200, 300, 0, 1)
        .unwrap();
    assert_eq!(id, 0);
    assert_eq!(transfers[0].from, OWNER);
    assert_eq!(factory.get_user_escrows(OWNER), vec![id]);
    let e = factory.get_dst_escrow(id).unwrap();
    assert_eq!(e.creator, OWNER);
    // a second creation reads back the next reference
    let (id2, _) = resolver
        .create_destination_escrow(&mut factory, OWNER, &hs, RECIPIENT, 700, 100, 200, 300, 0, 1)
        .unwrap();
    assert_eq!(id2, 1);
}

#[test]
fn withdraw_from_destination_escrow_dispatches() {
    let (resolver, _lop, mut factory) = setup();
    let secret = b"dst secret".to_vec();
    let hs = digest(&secret);
    let (id, _) = resolver
        .create_destination_escrow(&mut factory, OWNER, &hs, RECIPIENT, 700, 100, 200, 300, 0, 1)
        .unwrap();
    assert_eq!(
        resolver.withdraw_from_destination_escrow(
            &mut factory, STRANGER, id, &secret, 0, &Vec::new(), 250
        ),
        Err(SwapError::Unauthorized)
    );
    let transfers = resolver
        .withdraw_from_destination_escrow(&mut factory, OWNER, id, &secret, 0, &Vec::new(), 250)
        .unwrap();
    assert_eq!(transfers[0].to, RECIPIENT);
    assert_eq!(transfers[1].to, OWNER);
}

#[test]
fn resolver_cancel_order_is_owner_gated() {
    let (resolver, mut lop, mut factory) = setup();
    // the owner fills for itself so the owner is also the part's maker
    lop.approve(OWNER, 1_000_000);
    let h = digest(b"order");
    let hs = digest(b"root");
    resolver
        .execute_cross_chain_swap(
            &mut lop, &mut factory, OWNER, &h, OWNER, RECIPIENT, 100, &hs, 100, 0, 1,
        )
        .unwrap();
    let in_window = 100 + 86400 + 100;
    assert_eq!(
        resolver.cancel_order(&mut lop, &mut factory, STRANGER, &h, 0, in_window),
        Err(SwapError::Unauthorized)
    );
    let transfers = resolver
        .cancel_order(&mut lop, &mut factory, OWNER, &h, 0, in_window)
        .unwrap();
    assert_eq!(transfers[0].to, OWNER);
}

#[test]
fn resolver_queries_forward() {
    let (resolver, mut lop, mut factory) = setup();
    lop.approve(MAKER, 1_000_000);
    let h = digest(b"order");
    let hs = digest(b"root");
    resolver
        .execute_cross_chain_swap(
            &mut lop, &mut factory, OWNER, &h, MAKER, RECIPIENT, 100, &hs, 100, 2, 4,
        )
        .unwrap();
    assert_eq!(resolver.get_order(&lop, &h).len(), 1);
    assert_eq!(resolver.get_order_part(&lop, &h, 2).unwrap().maker, MAKER);
    assert_eq!(resolver.get_remaining_segments(&lop, &h, 4), 3);
    assert!(!resolver.is_part_available(&lop, &h, 2));
    assert_eq!(resolver.get_available_part_indices(&lop, &h, 4), vec![0, 1, 3]);
    assert_eq!(resolver.get_user_filled_orders(&lop, MAKER), vec![h.clone()]);
    assert_eq!(resolver.rescue_xlm(STRANGER, STRANGER), Err(SwapError::Unauthorized));
    assert_eq!(resolver.rescue_xlm(OWNER, STRANGER), Ok(()));
}
