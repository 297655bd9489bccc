use shards::approval::{read_approval, spend_allowance, write_approval, AllowanceLedger};
use shards::balance::receive_balance;
use shards::check_nonnegative_amount;
use shards::contract::BewdNft;
use shards::fractional::{get_post_for_shard, read_shard_count, read_shard_owners, write_shard_owners};
use shards::social::PostInfo;
use shards::ShardError;

const A: u64 = 1;
const B: u64 = 2;
const C: u64 = 3;
const X: u64 = 4;

fn id(s: &str) -> Vec<u8> {
    s.as_bytes().to_vec()
}

fn fund(nft: &mut BewdNft, who: u64, amount: i128) {
    receive_balance(&mut nft.balances, who, amount).unwrap();
}

fn with_post(post: &str, threshold: u32, total: u32) -> BewdNft {
    let mut nft = BewdNft::new();
    nft.initialize_post(A, id(post), 0, "Post".to_string(), "SHRD".to_string(), threshold, total, false)
        .unwrap();
    nft
}

#[test]
fn initialize_post_then_transfer_one_shard() {
    let mut nft = with_post("p1", 3, 10);
    assert_eq!(read_shard_count(&nft.registry, &id("p1")), 10);
    assert_eq!(read_shard_owners(&nft.registry, &id("p1")).unwrap(), vec![A; 10]);
    for g in 0..10u32 {
        assert_eq!(get_post_for_shard(&nft.registry, g).unwrap(), id("p1"));
    }
    assert_eq!(get_post_for_shard(&nft.registry, 10), Err(ShardError::UnmappedShard));
    nft.transfer_shard(A, X, &id("p1"), 4).unwrap();
    let owners = read_shard_owners(&nft.registry, &id("p1")).unwrap();
    for (i, o) in owners.iter().enumerate() {
        assert_eq!(*o, if i == 4 { X } else { A });
    }
    assert_eq!(owners.len(), 10);
}

#[test]
fn initialize_post_writes_metadata_and_config() {
    let nft = with_post("p1", 3, 10);
    assert_eq!(nft.decimals(), Ok(0));
    assert_eq!(nft.name(), Ok("Post".to_string()));
    assert_eq!(nft.symbol(), Ok("SHRD".to_string()));
    assert_eq!(nft.admin, Some(A));
    // Creating a post issues shards, not balance units.
    assert_eq!(nft.balance(A), 0);
    let post = &nft.registry.posts[0];
    assert_eq!(post.config.threshold, 3);
    assert_eq!(post.config.build_count, 0);
    assert!(!post.config.is_rwa);
}

#[test]
fn two_posts_get_disjoint_shard_indices() {
    let mut nft = with_post("p1", 3, 5);
    nft.initialize_post(B, id("p2"), 0, "Other".to_string(), "OTH".to_string(), 3, 5, true).unwrap();
    for g in 0..5u32 {
        assert_eq!(get_post_for_shard(&nft.registry, g).unwrap(), id("p1"));
    }
    for g in 5..10u32 {
        assert_eq!(get_post_for_shard(&nft.registry, g).unwrap(), id("p2"));
    }
    assert_eq!(get_post_for_shard(&nft.registry, 10), Err(ShardError::UnmappedShard));
    assert_eq!(nft.registry.next_shard, 10);
}

#[test]
fn transfer_shard_round_trip_restores_owner() {
    let mut nft = with_post("p1", 3, 10);
    let before = read_shard_owners(&nft.registry, &id("p1")).unwrap();
    nft.transfer_shard(A, X, &id("p1"), 7).unwrap();
    nft.transfer_shard(X, A, &id("p1"), 7).unwrap();
    assert_eq!(read_shard_owners(&nft.registry, &id("p1")).unwrap(), before);
}

#[test]
fn held_shard_counts_move_by_one() {
    let mut nft = with_post("p1", 3, 10);
    nft.transfer_shard(A, X, &id("p1"), 0).unwrap();
    nft.transfer_shard(A, X, &id("p1"), 9).unwrap();
    nft.transfer_shard(X, B, &id("p1"), 0).unwrap();
    let owners = read_shard_owners(&nft.registry, &id("p1")).unwrap();
    let held = |a: u64| owners.iter().filter(|o| **o == a).count();
    assert_eq!(held(A), 8);
    assert_eq!(held(X), 1);
    assert_eq!(held(B), 1);
    assert_eq!(held(A) + held(X) + held(B), owners.len());
}

#[test]
fn transfer_shard_errors() {
    let mut nft = with_post("p1", 3, 10);
    assert_eq!(nft.transfer_shard(A, X, &id("p1"), 10), Err(ShardError::IndexOutOfRange));
    assert_eq!(nft.transfer_shard(X, A, &id("p1"), 3), Err(ShardError::NotShardOwner));
    assert_eq!(nft.transfer_shard(A, X, &id("nope"), 0), Err(ShardError::MissingRecord));
    assert_eq!(read_shard_owners(&nft.registry, &id("p1")).unwrap(), vec![A; 10]);
}

#[test]
fn build_signal_fires_once_at_threshold() {
    let mut nft = with_post("p1", 3, 10);
    let signals: Vec<bool> = (0..6).map(|_| nft.build_post(&id("p1")).unwrap()).collect();
    assert_eq!(signals, vec![false, false, true, false, false, false]);
    assert_eq!(signals.iter().filter(|s| **s).count(), 1);
    assert_eq!(nft.registry.posts[0].config.build_count, 6);
    assert!(nft.registry.posts[0].config.is_threshold_reached());
}

#[test]
fn build_with_zero_threshold_never_signals() {
    let mut nft = with_post("p1", 0, 1);
    assert!(nft.registry.posts[0].config.is_threshold_reached());
    for _ in 0..3 {
        assert_eq!(nft.build_post(&id("p1")), Ok(false));
    }
}

#[test]
fn build_errors() {
    let mut nft = with_post("p1", 3, 1);
    assert_eq!(nft.build_post(&id("p2")), Err(ShardError::MissingRecord));
    nft.registry.posts[0].config.build_count = u32::MAX;
    assert_eq!(nft.build_post(&id("p1")), Err(ShardError::Overflow));
    assert_eq!(nft.registry.posts[0].config.build_count, u32::MAX);
}

#[test]
fn approve_then_transfer_from_leaves_rest_of_allowance() {
    let mut nft = with_post("p1", 3, 100);
    fund(&mut nft, A, 100);
    nft.approve(A, B, 100, 500);
    nft.transfer_from(B, A, C, 40).unwrap();
    assert_eq!(nft.allowance(A, B), 60);
    assert_eq!(nft.balance(A), 60);
    assert_eq!(nft.balance(C), 40);
    // The allowance never goes negative: spending past it is refused.
    assert_eq!(nft.transfer_from(B, A, C, 100), Err(ShardError::InsufficientAllowance));
    assert_eq!(nft.allowance(A, B), 60);
    assert_eq!(nft.balance(A), 60);
    assert_eq!(nft.balance(C), 40);
}

#[test]
fn transfer_from_errors() {
    let mut nft = with_post("p1", 3, 10);
    fund(&mut nft, A, 10);
    assert_eq!(nft.transfer_from(B, A, C, -1), Err(ShardError::NegativeAmount));
    assert_eq!(nft.transfer_from(B, A, C, 1), Err(ShardError::InsufficientAllowance));
    nft.approve(A, B, 50, 500);
    assert_eq!(nft.transfer_from(B, A, C, 20), Err(ShardError::InsufficientBalance));
    assert_eq!(nft.allowance(A, B), 50);
    assert_eq!(nft.balance(A), 10);
}

#[test]
fn allowance_defaults_to_zero() {
    let nft = BewdNft::new();
    assert_eq!(nft.allowance(A, B), 0);
    assert_eq!(read_approval(&nft.approvals, A, B).expiration_ledger, 0);
}

#[test]
fn approve_overwrites_and_keeps_pairs_apart() {
    let mut nft = BewdNft::new();
    nft.approve(A, B, 10, 7);
    nft.approve(B, A, 3, 8);
    nft.approve(A, B, 25, 9);
    assert_eq!(nft.allowance(A, B), 25);
    assert_eq!(nft.allowance(B, A), 3);
    assert_eq!(read_approval(&nft.approvals, A, B).expiration_ledger, 9);
}

#[test]
fn allowance_ledger_spend() {
    let mut ledger = AllowanceLedger::new();
    write_approval(&mut ledger, A, B, 30, 4);
    assert_eq!(spend_allowance(&mut ledger, A, B, 12), Ok(()));
    let a = read_approval(&ledger, A, B);
    assert_eq!((a.amount, a.expiration_ledger), (18, 4));
    assert_eq!(spend_allowance(&mut ledger, A, B, 19), Err(ShardError::InsufficientAllowance));
    assert_eq!(spend_allowance(&mut ledger, A, B, -2), Err(ShardError::NegativeAmount));
    assert_eq!(read_approval(&ledger, A, B).amount, 18);
}

#[test]
fn transfer_by_global_index_moves_shard_and_unit() {
    let mut nft = with_post("p1", 3, 5);
    nft.initialize_post(A, id("p2"), 0, "Post".to_string(), "SHRD".to_string(), 3, 5, false).unwrap();
    fund(&mut nft, A, 10);
    nft.transfer(A, X, 7).unwrap();
    assert_eq!(read_shard_owners(&nft.registry, &id("p2")).unwrap(), vec![A, A, X, A, A]);
    assert_eq!(read_shard_owners(&nft.registry, &id("p1")).unwrap(), vec![A; 5]);
    assert_eq!(nft.balance(A), 9);
    assert_eq!(nft.balance(X), 1);
}

#[test]
fn transfer_errors() {
    let mut nft = with_post("p1", 3, 5);
    assert_eq!(nft.transfer(A, X, 5), Err(ShardError::UnmappedShard));
    assert_eq!(nft.transfer(A, X, -1), Err(ShardError::UnmappedShard));
    assert_eq!(nft.transfer(A, X, 2), Err(ShardError::InsufficientBalance));
    fund(&mut nft, X, i128::MAX);
    fund(&mut nft, A, 1);
    assert_eq!(nft.transfer(A, X, 2), Err(ShardError::Overflow));
    assert_eq!(read_shard_owners(&nft.registry, &id("p1")).unwrap(), vec![A; 5]);
    assert_eq!(nft.balance(A), 1);
}

#[test]
fn transfer_does_not_ask_who_owns_the_shard() {
    let mut nft = with_post("p1", 3, 5);
    fund(&mut nft, X, 1);
    nft.transfer(X, B, 3).unwrap();
    assert_eq!(read_shard_owners(&nft.registry, &id("p1")).unwrap(), vec![A, A, A, B, A]);
    assert_eq!(nft.balance(X), 0);
    assert_eq!(nft.balance(B), 1);
}

#[test]
fn burn_and_burn_from() {
    let mut nft = with_post("p1", 3, 10);
    fund(&mut nft, A, 10);
    assert_eq!(nft.burn(A, -3), Err(ShardError::NegativeAmount));
    assert_eq!(nft.burn(A, 11), Err(ShardError::InsufficientBalance));
    nft.burn(A, 4).unwrap();
    assert_eq!(nft.balance(A), 6);
    assert_eq!(nft.burn_from(B, A, 1), Err(ShardError::InsufficientAllowance));
    nft.approve(A, B, 5, 0);
    assert_eq!(nft.burn_from(B, A, -1), Err(ShardError::NegativeAmount));
    nft.burn_from(B, A, 5).unwrap();
    assert_eq!(nft.balance(A), 1);
    assert_eq!(nft.allowance(A, B), 0);
}

#[test]
fn initialize_post_errors() {
    let mut nft = BewdNft::new();
    assert_eq!(
        nft.initialize_post(A, id("p1"), 19, "Post".to_string(), "SHRD".to_string(), 3, 10, false),
        Err(ShardError::InvalidMetadata)
    );
    assert_eq!(nft.decimals(), Err(ShardError::MissingRecord));
    assert_eq!(nft.name(), Err(ShardError::MissingRecord));
    assert_eq!(nft.symbol(), Err(ShardError::MissingRecord));
    nft.initialize_post(A, id("p1"), 18, "Post".to_string(), "SHRD".to_string(), 3, 10, false).unwrap();
    assert_eq!(nft.decimals(), Ok(18));
    assert_eq!(
        nft.initialize_post(B, id("p1"), 0, "Again".to_string(), "AG".to_string(), 1, 2, true),
        Err(ShardError::AlreadyInitialized)
    );
    assert_eq!(read_shard_count(&nft.registry, &id("p1")), 10);
    nft.registry.next_shard = u32::MAX - 3;
    assert_eq!(
        nft.initialize_post(B, id("p2"), 0, "Big".to_string(), "BIG".to_string(), 1, 4, true),
        Err(ShardError::Overflow)
    );
    assert_eq!(read_shard_count(&nft.registry, &id("p2")), 0);
}

#[test]
fn read_and_write_shard_records() {
    let mut nft = with_post("p1", 3, 3);
    assert_eq!(read_shard_count(&nft.registry, &id("zz")), 0);
    assert_eq!(read_shard_owners(&nft.registry, &id("zz")), Err(ShardError::MissingRecord));
    assert_eq!(write_shard_owners(&mut nft.registry, &id("p1"), vec![B, C]), Err(ShardError::IndexOutOfRange));
    assert_eq!(write_shard_owners(&mut nft.registry, &id("zz"), vec![]), Err(ShardError::MissingRecord));
    write_shard_owners(&mut nft.registry, &id("p1"), vec![B, C, X]).unwrap();
    assert_eq!(read_shard_owners(&nft.registry, &id("p1")).unwrap(), vec![B, C, X]);
}

#[test]
fn nonnegative_amount_check() {
    assert_eq!(check_nonnegative_amount(0), Ok(()));
    assert_eq!(check_nonnegative_amount(5), Ok(()));
    assert_eq!(check_nonnegative_amount(-1), Err(ShardError::NegativeAmount));
}

#[test]
fn claim_shards_up_to_supply() {
    let mut info = PostInfo::new(A, 10, "ipfs://post".to_string(), 99);
    info.claim_shards(4).unwrap();
    info.claim_shards(6).unwrap();
    assert_eq!(info.claimed_shards, 10);
    assert_eq!(info.available_shards(), 0);
    assert_eq!(info.claim_shards(1), Err(ShardError::InsufficientSupply));
    assert_eq!(info.claimed_shards, 10);
}
