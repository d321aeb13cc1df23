use squads_multisig_program::errors::MultisigError;
use squads_multisig_program::multisig_create::{
    multisig_create_legacy, try_multisig_create_legacy, Deprecated, MultisigCreateV2,
    MultisigCreateV2Args,
};
use squads_multisig_program::pubkey::Pubkey;
use squads_multisig_program::state::{normalize_members, Member, Multisig, Permissions, ProgramConfig};
use squads_multisig_program::store::RecordStore;

fn key(n: u8) -> Pubkey {
    Pubkey { bytes: [n; 32] }
}

fn member(n: u8) -> Member {
    Member { key: key(n), permissions: Permissions { mask: 7 } }
}

fn program_id() -> Pubkey {
    key(250)
}

fn ctx_with_fee(fee: u64) -> MultisigCreateV2 {
    MultisigCreateV2 {
        program_config: ProgramConfig { treasury: key(200), multisig_creation_fee: fee },
        treasury: key(200),
        create_key: key(9),
        creator: key(10),
    }
}

fn args_with(members: Vec<Member>, threshold: u16) -> MultisigCreateV2Args {
    MultisigCreateV2Args {
        config_authority: None,
        threshold,
        members,
        time_lock: 0,
        rent_collector: None,
        memo: None,
    }
}

#[test]
fn normalize_members_sorts_ascending() {
    let sorted = normalize_members(vec![member(3), member(1), member(2)]);
    assert_eq!(sorted.len(), 3);
    assert_eq!(sorted[0].key.bytes, [1; 32]);
    assert_eq!(sorted[1].key.bytes, [2; 32]);
    assert_eq!(sorted[2].key.bytes, [3; 32]);
}

#[test]
fn create_standard_sorts_members_and_accepts_threshold() {
    let ctx = ctx_with_fee(0);
    let mut accounts = RecordStore::new();
    let mut creator: u64 = 0;
    let mut treasury: u64 = 0;
    // members supplied as [C, A, B]; threshold 2 of 3
    let args = args_with(vec![member(3), member(1), member(2)], 2);
    let r = ctx
        .try_multisig_create_standard(args, &program_id(), &mut accounts, &mut creator, &mut treasury)
        .expect("an address is derivable");
    let addr = r.expect("creation succeeds");
    assert_eq!(accounts.len(), 1);
    let entry = accounts.record_at(0);
    assert_eq!(entry.0.bytes, addr.bytes);
    assert_eq!(entry.1.threshold, 2);
    assert_eq!(entry.1.members.len(), 3);
    assert_eq!(entry.1.members[0].key.bytes, [1; 32]);
    assert_eq!(entry.1.members[1].key.bytes, [2; 32]);
    assert_eq!(entry.1.members[2].key.bytes, [3; 32]);
}

#[test]
fn create_rejects_threshold_above_member_count() {
    let ctx = ctx_with_fee(0);
    let mut accounts = RecordStore::new();
    let mut creator: u64 = 0;
    let mut treasury: u64 = 0;
    // members [A, B]; threshold 3
    let args = args_with(vec![member(1), member(2)], 3);
    let r = ctx
        .try_multisig_create_standard(args, &program_id(), &mut accounts, &mut creator, &mut treasury)
        .expect("an address is derivable");
    assert!(matches!(r, Err(MultisigError::StateInvariantError)));
    assert_eq!(accounts.len(), 0);
}

#[test]
fn create_rejects_threshold_zero() {
    let ctx = ctx_with_fee(0);
    let mut leaves = RecordStore::new();
    let mut creator: u64 = 0;
    let mut treasury: u64 = 0;
    let args = args_with(vec![member(1), member(2)], 0);
    let r = ctx
        .try_multisig_create(args, &program_id(), &mut leaves, &mut creator, &mut treasury)
        .expect("an address is derivable");
    assert!(matches!(r, Err(MultisigError::StateInvariantError)));
    assert_eq!(leaves.len(), 0);
}

#[test]
fn create_rejects_duplicate_member() {
    let ctx = ctx_with_fee(0);
    let mut leaves = RecordStore::new();
    let mut creator: u64 = 0;
    let mut treasury: u64 = 0;
    let args = args_with(vec![member(1), member(1)], 1);
    let r = ctx
        .try_multisig_create(args, &program_id(), &mut leaves, &mut creator, &mut treasury)
        .expect("an address is derivable");
    assert!(matches!(r, Err(MultisigError::StateInvariantError)));
    assert_eq!(leaves.len(), 0);
}

#[test]
fn counters_start_at_zero_in_both_backends() {
    let ctx = ctx_with_fee(0);
    let mut creator: u64 = 0;
    let mut treasury: u64 = 0;

    let mut accounts = RecordStore::new();
    ctx.try_multisig_create_standard(
        args_with(vec![member(1)], 1),
        &program_id(),
        &mut accounts,
        &mut creator,
        &mut treasury,
    )
    .expect("an address is derivable")
    .expect("creation succeeds");
    assert_eq!(accounts.record_at(0).1.transaction_index, 0);
    assert_eq!(accounts.record_at(0).1.stale_transaction_index, 0);

    let mut leaves = RecordStore::new();
    ctx.try_multisig_create(
        args_with(vec![member(1)], 1),
        &program_id(),
        &mut leaves,
        &mut creator,
        &mut treasury,
    )
    .expect("an address is derivable")
    .expect("creation succeeds");
    assert_eq!(leaves.record_at(0).1.transaction_index, 0);
    assert_eq!(leaves.record_at(0).1.stale_transaction_index, 0);
}

#[test]
fn second_creation_with_same_create_key_fails() {
    let ctx = ctx_with_fee(0);
    let mut leaves = RecordStore::new();
    let mut creator: u64 = 0;
    let mut treasury: u64 = 0;
    let first = ctx
        .try_multisig_create(
            args_with(vec![member(1), member(2)], 2),
            &program_id(),
            &mut leaves,
            &mut creator,
            &mut treasury,
        )
        .expect("an address is derivable");
    assert!(first.is_ok());
    // a second creation with the same create key, even with other parameters
    let second = ctx
        .try_multisig_create(
            args_with(vec![member(5)], 1),
            &program_id(),
            &mut leaves,
            &mut creator,
            &mut treasury,
        )
        .expect("an address is derivable");
    assert!(matches!(second, Err(MultisigError::AlreadyInitialized)));
    // the first record is untouched
    assert_eq!(leaves.len(), 1);
    assert_eq!(leaves.record_at(0).1.threshold, 2);
    assert_eq!(leaves.record_at(0).1.members.len(), 2);
}

#[test]
fn zero_fee_leaves_balances_unchanged() {
    let ctx = ctx_with_fee(0);
    let mut leaves = RecordStore::new();
    let mut creator: u64 = 5_000;
    let mut treasury: u64 = 77;
    ctx.try_multisig_create(
        args_with(vec![member(1)], 1),
        &program_id(),
        &mut leaves,
        &mut creator,
        &mut treasury,
    )
    .expect("an address is derivable")
    .expect("creation succeeds");
    assert_eq!(creator, 5_000);
    assert_eq!(treasury, 77);
}

#[test]
fn fee_moves_exactly_once_with_the_record() {
    let ctx = ctx_with_fee(1_000_000);
    let mut accounts = RecordStore::new();
    let mut creator: u64 = 10_000_000;
    let mut treasury: u64 = 0;
    ctx.try_multisig_create_standard(
        args_with(vec![member(1), member(2)], 1),
        &program_id(),
        &mut accounts,
        &mut creator,
        &mut treasury,
    )
    .expect("an address is derivable")
    .expect("creation succeeds");
    assert_eq!(creator, 9_000_000);
    assert_eq!(treasury, 1_000_000);
    assert_eq!(accounts.len(), 1);
    assert_eq!(accounts.record_at(0).1.transaction_index, 0);
}

#[test]
fn insufficient_balance_fails_and_commits_nothing() {
    let ctx = ctx_with_fee(1_000);
    let mut accounts = RecordStore::new();
    let mut creator: u64 = 999;
    let mut treasury: u64 = 5;
    let r = ctx
        .try_multisig_create_standard(
            args_with(vec![member(1)], 1),
            &program_id(),
            &mut accounts,
            &mut creator,
            &mut treasury,
        )
        .expect("an address is derivable");
    assert!(matches!(r, Err(MultisigError::TransferError)));
    assert_eq!(accounts.len(), 0);
    assert_eq!(creator, 999);
    assert_eq!(treasury, 5);
}

#[test]
fn treasury_mismatch_fails_before_any_mutation() {
    let mut ctx = ctx_with_fee(1_000);
    ctx.treasury = key(201);
    let mut accounts = RecordStore::new();
    let mut creator: u64 = 10_000;
    let mut treasury: u64 = 0;
    let r = ctx
        .try_multisig_create_standard(
            args_with(vec![member(1)], 1),
            &program_id(),
            &mut accounts,
            &mut creator,
            &mut treasury,
        )
        .expect("an address is derivable");
    assert!(matches!(r, Err(MultisigError::InvalidAccount)));
    assert_eq!(accounts.len(), 0);
    assert_eq!(creator, 10_000);
    assert_eq!(treasury, 0);
}

#[test]
fn validate_checks_the_registered_treasury() {
    let ctx = ctx_with_fee(0);
    assert!(ctx.validate().is_ok());
    let mut bad = ctx_with_fee(0);
    bad.treasury = key(3);
    assert_eq!(bad.validate(), Err(MultisigError::InvalidAccount));
}

#[test]
fn derived_address_is_not_the_create_key_and_is_deterministic() {
    let ctx = ctx_with_fee(0);
    let mut creator: u64 = 0;
    let mut treasury: u64 = 0;
    let mut a = RecordStore::new();
    let mut b = RecordStore::new();
    let addr1 = ctx
        .try_multisig_create(
            args_with(vec![member(1)], 1),
            &program_id(),
            &mut a,
            &mut creator,
            &mut treasury,
        )
        .expect("an address is derivable")
        .expect("creation succeeds");
    let addr2 = ctx
        .try_multisig_create(
            args_with(vec![member(1)], 1),
            &program_id(),
            &mut b,
            &mut creator,
            &mut treasury,
        )
        .expect("an address is derivable")
        .expect("creation succeeds");
    // the same create key always derives the same address, and never itself
    assert_eq!(addr1.bytes, addr2.bytes);
    assert_ne!(addr1.bytes, ctx.create_key.bytes);
}

#[test]
fn different_create_keys_derive_different_addresses() {
    let ctx1 = ctx_with_fee(0);
    let mut ctx2 = ctx_with_fee(0);
    ctx2.create_key = key(11);
    let mut store = RecordStore::new();
    let mut creator: u64 = 0;
    let mut treasury: u64 = 0;
    let addr1 = ctx1
        .try_multisig_create(
            args_with(vec![member(1)], 1),
            &program_id(),
            &mut store,
            &mut creator,
            &mut treasury,
        )
        .expect("an address is derivable")
        .expect("creation succeeds");
    let addr2 = ctx2
        .try_multisig_create(
            args_with(vec![member(1)], 1),
            &program_id(),
            &mut store,
            &mut creator,
            &mut treasury,
        )
        .expect("an address is derivable")
        .expect("creation succeeds");
    assert_ne!(addr1.bytes, addr2.bytes);
    assert_eq!(store.len(), 2);
}

#[test]
fn legacy_entry_creates_without_a_fee() {
    let mut accounts = RecordStore::new();
    let create_key = key(42);
    let r = try_multisig_create_legacy(
        args_with(vec![member(2), member(1)], 2),
        &create_key,
        &program_id(),
        &mut accounts,
    )
    .expect("an address is derivable");
    let addr = r.expect("creation succeeds");
    assert_eq!(accounts.len(), 1);
    let entry = accounts.record_at(0);
    assert_eq!(entry.0.bytes, addr.bytes);
    assert_eq!(entry.1.members[0].key.bytes, [1; 32]);
    assert_eq!(entry.1.members[1].key.bytes, [2; 32]);
    assert_eq!(entry.1.create_key.bytes, [42; 32]);
    assert_eq!(entry.1.transaction_index, 0);
    // the deprecation diagnostic the caller surfaces on success
    assert!(Deprecated::notice().contains("deprecated"));
}

#[test]
fn legacy_entry_rejects_a_reused_create_key() {
    let mut accounts = RecordStore::new();
    let create_key = key(42);
    let first = multisig_create_legacy(
        args_with(vec![member(1)], 1),
        &create_key,
        &program_id(),
        &mut accounts,
    );
    assert!(first.is_ok());
    let second = multisig_create_legacy(
        args_with(vec![member(1)], 1),
        &create_key,
        &program_id(),
        &mut accounts,
    );
    assert!(matches!(second, Err(MultisigError::AlreadyInitialized)));
    assert_eq!(accounts.len(), 1);
}

#[test]
fn config_authority_defaults_to_the_zero_key() {
    let ctx = ctx_with_fee(0);
    let mut leaves = RecordStore::new();
    let mut creator: u64 = 0;
    let mut treasury: u64 = 0;
    ctx.try_multisig_create(
        args_with(vec![member(1)], 1),
        &program_id(),
        &mut leaves,
        &mut creator,
        &mut treasury,
    )
    .expect("an address is derivable")
    .expect("creation succeeds");
    assert_eq!(leaves.record_at(0).1.config_authority.bytes, [0; 32]);
}

#[test]
fn supplied_fields_are_stored_as_given() {
    let ctx = ctx_with_fee(0);
    let mut leaves = RecordStore::new();
    let mut creator: u64 = 0;
    let mut treasury: u64 = 0;
    let args = MultisigCreateV2Args {
        config_authority: Some(key(33)),
        threshold: 1,
        members: vec![member(1)],
        time_lock: 3600,
        rent_collector: Some(key(44)),
        memo: Some(String::from("for indexing only")),
    };
    ctx.try_multisig_create(args, &program_id(), &mut leaves, &mut creator, &mut treasury)
        .expect("an address is derivable")
        .expect("creation succeeds");
    let record = &leaves.record_at(0).1;
    assert_eq!(record.config_authority.bytes, [33; 32]);
    assert_eq!(record.time_lock, 3600);
    assert_eq!(record.rent_collector.as_ref().unwrap().bytes, [44; 32]);
    assert_eq!(record.create_key.bytes, ctx.create_key.bytes);
}

#[test]
fn invariant_checker_validates_a_populated_record() {
    let good = Multisig {
        config_authority: key(0),
        threshold: 2,
        members: vec![member(1), member(2)],
        time_lock: 0,
        transaction_index: 0,
        stale_transaction_index: 0,
        create_key: key(9),
        bump: 255,
        rent_collector: None,
    };
    assert!(good.check_invariant().is_ok());

    let unsorted = Multisig { members: vec![member(2), member(1)], ..good };
    assert_eq!(unsorted.check_invariant(), Err(MultisigError::StateInvariantError));
}

#[test]
fn error_names_are_stable() {
    assert_eq!(MultisigError::InvalidAccount.name(), "InvalidAccount");
    assert_eq!(MultisigError::StateInvariantError.name(), "StateInvariantError");
    assert_eq!(MultisigError::AlreadyInitialized.name(), "AlreadyInitialized");
    assert_eq!(MultisigError::TransferError.name(), "TransferError");
}
