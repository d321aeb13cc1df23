//! The creation entry points: a legacy path (standard backend, no fee), a
//! fee-aware standard path, and a fee-aware compressed path. All three share
//! one pipeline — normalize the members, derive the address, check the
//! structural invariant — and differ only in the persistence target and the
//! fee step. Every failure aborts the whole call with nothing committed and
//! no balance moved; the fee moves last, so no failure can cost the creator
//! the fee without a record.

use vstd::prelude::*;
use crate::derivation::{derive_multisig_address, derived_multisig_address};
use crate::errors::MultisigError;
use crate::pubkey::{is_zero_key, Pubkey};
use crate::state::{has_key_collision, lemma_key_collision_carries, members_normalized,
    normalize_members, Member, Multisig, ProgramConfig};
use crate::store::{store_contains_address, RecordStore};
use vstd::pervasive::unreached;

verus! {

/// Marker context of the legacy creation call form, kept only for callers
/// not yet migrated to the fee-aware entry points.
pub struct Deprecated {
    /// The placeholder account the legacy call form carries.
    pub null: Pubkey,
}

impl Deprecated {
    /// The non-fatal diagnostic the legacy entry point surfaces on every
    /// successful call.
    pub fn notice() -> (r: &'static str)
        ensures
            r@ == "multisig_create is deprecated; use the fee-aware creation entry points"@,
    {
        "multisig_create is deprecated; use the fee-aware creation entry points"
    }
}

/// The caller-supplied creation parameters: one logical payload for all
/// three entry points.
pub struct MultisigCreateV2Args {
    /// The authority that can reconfigure the multisig (add or remove
    /// members, change the threshold). `None` makes the multisig autonomous.
    pub config_authority: Option<Pubkey>,
    /// The number of approvals required to execute a transaction.
    pub threshold: u16,
    /// The members of the multisig, in any order.
    pub members: Vec<Member>,
    /// Seconds that must pass between voting, settlement, and execution.
    pub time_lock: u32,
    /// Where rent of closed proposal accounts can be reclaimed to; `None`
    /// turns reclamation off.
    pub rent_collector: Option<Pubkey>,
    /// Used for indexing only; neither validated nor stored.
    pub memo: Option<String>,
}

/// The identities a fee-aware creation call runs against.
pub struct MultisigCreateV2 {
    /// The global program configuration record, read-only to this core.
    pub program_config: ProgramConfig,
    /// The treasury the creation fee is paid to; must equal the one the
    /// configuration record registers.
    pub treasury: Pubkey,
    /// The ephemeral signing identity the multisig's address is derived
    /// from; never reused for authorization afterwards.
    pub create_key: Pubkey,
    /// The creator, who pays the creation fee.
    pub creator: Pubkey,
}

/// Creation parameters that satisfy the structural invariant once
/// normalized: a threshold between one and the member count, and no member
/// identity supplied twice.
pub open spec fn params_valid(args: MultisigCreateV2Args) -> bool {
    &&& 1 <= args.threshold
    &&& args.threshold as int <= args.members@.len()
    &&& !has_key_collision(args.members@)
}

/// The creation fee can be moved in full: either there is none, or the
/// creator holds at least the fee and the treasury can receive it.
pub open spec fn fee_payable(fee: u64, creator_lamports: u64, treasury_lamports: u64) -> bool {
    fee == 0 || (creator_lamports >= fee && treasury_lamports + fee <= u64::MAX)
}

/// What a freshly committed record holds, relative to the request: the
/// members normalized but otherwise unchanged, the threshold, time lock and
/// rent collector as supplied, both proposal counters at zero, and the
/// create key and derivation bump pinned for the record's lifetime.
pub open spec fn record_matches(
    m: Multisig,
    args: MultisigCreateV2Args,
    create_key: Pubkey,
    bump: u8,
) -> bool {
    &&& (match args.config_authority {
        Some(a) => m.config_authority == a,
        None => is_zero_key(m.config_authority@),
    })
    &&& m.threshold == args.threshold
    &&& m.members@.len() == args.members@.len()
    &&& m.members@.to_multiset() == args.members@.to_multiset()
    &&& members_normalized(m.members@)
    &&& m.time_lock == args.time_lock
    &&& m.transaction_index == 0
    &&& m.stale_transaction_index == 0
    &&& m.create_key == create_key
    &&& m.bump == bump
    &&& m.rent_collector == args.rent_collector
}

/// The full contract of a fee-aware creation call against the store `store0`
/// and the balances `creator0`/`treasury0`, given the derived address and
/// bump for the call's create key. Exactly one outcome holds, decided in the
/// order the pipeline checks: treasury identity, address vacancy, structural
/// invariant, fee feasibility; on success the record is appended and the fee
/// moves, on any failure nothing changes.
pub open spec fn fee_create_post(
    ctx: MultisigCreateV2,
    args: MultisigCreateV2Args,
    addr: Seq<u8>,
    bump: u8,
    store0: Seq<(Pubkey, Multisig)>,
    store1: Seq<(Pubkey, Multisig)>,
    creator0: u64,
    creator1: u64,
    treasury0: u64,
    treasury1: u64,
    r: Result<Pubkey, MultisigError>,
) -> bool {
    let treasury_ok = ctx.treasury@ == ctx.program_config.treasury@;
    let vacant = !store_contains_address(store0, addr);
    let fee = ctx.program_config.multisig_creation_fee;
    &&& (r == Err::<Pubkey, MultisigError>(MultisigError::InvalidAccount) <==> !treasury_ok)
    &&& (r == Err::<Pubkey, MultisigError>(MultisigError::AlreadyInitialized) <==> treasury_ok
        && !vacant)
    &&& (r == Err::<Pubkey, MultisigError>(MultisigError::StateInvariantError) <==> treasury_ok
        && vacant && !params_valid(args))
    &&& (r == Err::<Pubkey, MultisigError>(MultisigError::TransferError) <==> treasury_ok && vacant
        && params_valid(args) && !fee_payable(fee, creator0, treasury0))
    &&& (r is Ok <==> treasury_ok && vacant && params_valid(args) && fee_payable(
        fee,
        creator0,
        treasury0,
    ))
    &&& (r is Err ==> store1 == store0 && creator1 == creator0 && treasury1 == treasury0)
    &&& (r is Ok ==> {
        &&& (r matches Ok(a) && a@ == addr)
        &&& store1.len() == store0.len() + 1
        &&& store1 == store0.push(store1.last())
        &&& store1.last().0@ == addr
        &&& record_matches(store1.last().1, args, ctx.create_key, bump)
        &&& creator1 == creator0 - fee
        &&& treasury1 == treasury0 + fee
    })
}

/// The contract of the legacy creation call: the standard backend, no
/// treasury and no fee, otherwise the same pipeline and outcomes.
pub open spec fn legacy_create_post(
    args: MultisigCreateV2Args,
    create_key: Pubkey,
    addr: Seq<u8>,
    bump: u8,
    store0: Seq<(Pubkey, Multisig)>,
    store1: Seq<(Pubkey, Multisig)>,
    r: Result<Pubkey, MultisigError>,
) -> bool {
    let vacant = !store_contains_address(store0, addr);
    &&& (r == Err::<Pubkey, MultisigError>(MultisigError::AlreadyInitialized) <==> !vacant)
    &&& (r == Err::<Pubkey, MultisigError>(MultisigError::StateInvariantError) <==> vacant
        && !params_valid(args))
    &&& (r is Ok <==> vacant && params_valid(args))
    &&& (r is Err ==> store1 == store0)
    &&& (r is Ok ==> {
        &&& (r matches Ok(a) && a@ == addr)
        &&& store1.len() == store0.len() + 1
        &&& store1 == store0.push(store1.last())
        &&& store1.last().0@ == addr
        &&& record_matches(store1.last().1, args, create_key, bump)
    })
}

/// Normalizes the members, populates the record, and runs the invariant
/// checker; no state is touched. Succeeds exactly on valid parameters.
fn build_record(args: MultisigCreateV2Args, create_key: Pubkey, bump: u8) -> (r: Result<
    Multisig,
    MultisigError,
>)
    ensures
        r is Ok <==> params_valid(args),
        r is Err ==> r == Err::<Multisig, MultisigError>(MultisigError::StateInvariantError),
        (r matches Ok(m) ==> record_matches(m, args, create_key, bump)),
{
    let MultisigCreateV2Args {
        config_authority,
        threshold,
        members,
        time_lock,
        rent_collector,
        memo: _,
    } = args;
    let sorted = normalize_members(members);
    let record = Multisig {
        config_authority: match config_authority {
            Some(a) => a,
            None => Pubkey::zeroed(),
        },
        threshold,
        members: sorted,
        time_lock,
        transaction_index: 0,
        stale_transaction_index: 0,
        create_key,
        bump,
        rent_collector,
    };
    proof {
        if has_key_collision(args.members@) {
            lemma_key_collision_carries(args.members@, record.members@);
        }
        if has_key_collision(record.members@) {
            lemma_key_collision_carries(record.members@, args.members@);
        }
    }
    match record.check_invariant() {
        Ok(()) => Ok(record),
        Err(e) => Err(e),
    }
}

/// The fee-aware pipeline shared by the standard and the compressed entry
/// points; only the store handed in differs between them.
fn create_with_fee(
    ctx: &MultisigCreateV2,
    args: MultisigCreateV2Args,
    program_id: &Pubkey,
    store: &mut RecordStore,
    creator_lamports: &mut u64,
    treasury_lamports: &mut u64,
) -> (r: Result<Pubkey, MultisigError>)
    requires
        derived_multisig_address(ctx.create_key@, program_id@) is Some,
    ensures
        (derived_multisig_address(ctx.create_key@, program_id@) matches Some(d) ==>
            fee_create_post(
                *ctx,
                args,
                d.0,
                d.1,
                old(store)@,
                final(store)@,
                *old(creator_lamports),
                *final(creator_lamports),
                *old(treasury_lamports),
                *final(treasury_lamports),
                r,
            )),
{
    if let Err(e) = ctx.validate() {
        return Err(e);
    }
    let (addr, bump) = match derive_multisig_address(&ctx.create_key, program_id) {
        Some(p) => p,
        None => {
            return unreached();
        },
    };
    if store.contains_address(&addr) {
        return Err(MultisigError::AlreadyInitialized);
    }
    let record = match build_record(args, ctx.create_key, bump) {
        Ok(m) => m,
        Err(e) => {
            return Err(e);
        },
    };
    // the fee's feasibility is settled before the commit, so a transfer that
    // cannot complete leaves no record behind
    let fee = ctx.program_config.multisig_creation_fee;
    if fee > 0 {
        if *creator_lamports < fee {
            return Err(MultisigError::TransferError);
        }
        if fee > u64::MAX - *treasury_lamports {
            return Err(MultisigError::TransferError);
        }
    }
    match store.commit(addr, record) {
        Ok(()) => {},
        Err(_) => {
            return unreached();
        },
    }
    // the transfer is the last mutating step
    if fee > 0 {
        *creator_lamports = *creator_lamports - fee;
        *treasury_lamports = *treasury_lamports + fee;
    }
    Ok(addr)
}

impl MultisigCreateV2 {
    /// Checks that the supplied treasury is the one the configuration record
    /// registers; any mismatch aborts the call before any mutation.
    pub fn validate(&self) -> (r: Result<(), MultisigError>)
        ensures
            r is Ok <==> self.treasury@ == self.program_config.treasury@,
            r is Err ==> r == Err::<(), MultisigError>(MultisigError::InvalidAccount),
    {
        if self.treasury.key_eq(&self.program_config.treasury) {
            Ok(())
        } else {
            Err(MultisigError::InvalidAccount)
        }
    }

    /// Creates a multisig in the compressed (Merkle-leaf) store: the
    /// fee-aware compressed entry point. The vacancy test on the derived
    /// leaf address stands for the non-inclusion proof the compression store
    /// demands before an insertion.
    pub fn multisig_create(
        &self,
        args: MultisigCreateV2Args,
        program_id: &Pubkey,
        leaves: &mut RecordStore,
        creator_lamports: &mut u64,
        treasury_lamports: &mut u64,
    ) -> (r: Result<Pubkey, MultisigError>)
        requires
            derived_multisig_address(self.create_key@, program_id@) is Some,
        ensures
            (derived_multisig_address(self.create_key@, program_id@) matches Some(d) ==>
                fee_create_post(
                    *self,
                    args,
                    d.0,
                    d.1,
                    old(leaves)@,
                    final(leaves)@,
                    *old(creator_lamports),
                    *final(creator_lamports),
                    *old(treasury_lamports),
                    *final(treasury_lamports),
                    r,
                )),
    {
        create_with_fee(self, args, program_id, leaves, creator_lamports, treasury_lamports)
    }

    /// Creates a multisig as a directly-addressable account: the fee-aware
    /// standard entry point.
    pub fn multisig_create_standard(
        &self,
        args: MultisigCreateV2Args,
        program_id: &Pubkey,
        accounts: &mut RecordStore,
        creator_lamports: &mut u64,
        treasury_lamports: &mut u64,
    ) -> (r: Result<Pubkey, MultisigError>)
        requires
            derived_multisig_address(self.create_key@, program_id@) is Some,
        ensures
            (derived_multisig_address(self.create_key@, program_id@) matches Some(d) ==>
                fee_create_post(
                    *self,
                    args,
                    d.0,
                    d.1,
                    old(accounts)@,
                    final(accounts)@,
                    *old(creator_lamports),
                    *final(creator_lamports),
                    *old(treasury_lamports),
                    *final(treasury_lamports),
                    r,
                )),
    {
        create_with_fee(self, args, program_id, accounts, creator_lamports, treasury_lamports)
    }

    /// The compressed entry point without a derivation precondition: derives
    /// first and answers `None`, touching nothing, in the improbable case
    /// that no address can be derived for the create key.
    pub fn try_multisig_create(
        &self,
        args: MultisigCreateV2Args,
        program_id: &Pubkey,
        leaves: &mut RecordStore,
        creator_lamports: &mut u64,
        treasury_lamports: &mut u64,
    ) -> (r: Option<Result<Pubkey, MultisigError>>)
        ensures
            (derived_multisig_address(self.create_key@, program_id@) is None ==> r is None
                && final(leaves)@ == old(leaves)@ && *final(creator_lamports) == *old(
                creator_lamports,
            ) && *final(treasury_lamports) == *old(treasury_lamports)),
            (derived_multisig_address(self.create_key@, program_id@) matches Some(d) ==> (
            r matches Some(res) && fee_create_post(
                *self,
                args,
                d.0,
                d.1,
                old(leaves)@,
                final(leaves)@,
                *old(creator_lamports),
                *final(creator_lamports),
                *old(treasury_lamports),
                *final(treasury_lamports),
                res,
            ))),
    {
        match derive_multisig_address(&self.create_key, program_id) {
            Some(_) => Some(
                self.multisig_create(
                    args,
                    program_id,
                    leaves,
                    creator_lamports,
                    treasury_lamports,
                ),
            ),
            None => None,
        }
    }

    /// The standard entry point without a derivation precondition.
    pub fn try_multisig_create_standard(
        &self,
        args: MultisigCreateV2Args,
        program_id: &Pubkey,
        accounts: &mut RecordStore,
        creator_lamports: &mut u64,
        treasury_lamports: &mut u64,
    ) -> (r: Option<Result<Pubkey, MultisigError>>)
        ensures
            (derived_multisig_address(self.create_key@, program_id@) is None ==> r is None
                && final(accounts)@ == old(accounts)@ && *final(creator_lamports) == *old(
                creator_lamports,
            ) && *final(treasury_lamports) == *old(treasury_lamports)),
            (derived_multisig_address(self.create_key@, program_id@) matches Some(d) ==> (
            r matches Some(res) && fee_create_post(
                *self,
                args,
                d.0,
                d.1,
                old(accounts)@,
                final(accounts)@,
                *old(creator_lamports),
                *final(creator_lamports),
                *old(treasury_lamports),
                *final(treasury_lamports),
                res,
            ))),
    {
        match derive_multisig_address(&self.create_key, program_id) {
            Some(_) => Some(
                self.multisig_create_standard(
                    args,
                    program_id,
                    accounts,
                    creator_lamports,
                    treasury_lamports,
                ),
            ),
            None => None,
        }
    }
}

/// The legacy entry point: the standard backend, no fee, kept behaviorally
/// unchanged for callers not yet migrated; its deprecation diagnostic is
/// [`Deprecated::notice`], surfaced by the caller on success.
pub fn multisig_create_legacy(
    args: MultisigCreateV2Args,
    create_key: &Pubkey,
    program_id: &Pubkey,
    accounts: &mut RecordStore,
) -> (r: Result<Pubkey, MultisigError>)
    requires
        derived_multisig_address(create_key@, program_id@) is Some,
    ensures
        (derived_multisig_address(create_key@, program_id@) matches Some(d) ==> legacy_create_post(
            args,
            *create_key,
            d.0,
            d.1,
            old(accounts)@,
            final(accounts)@,
            r,
        )),
{
    let (addr, bump) = match derive_multisig_address(create_key, program_id) {
        Some(p) => p,
        None => {
            return unreached();
        },
    };
    if accounts.contains_address(&addr) {
        return Err(MultisigError::AlreadyInitialized);
    }
    let record = match build_record(args, *create_key, bump) {
        Ok(m) => m,
        Err(e) => {
            return Err(e);
        },
    };
    match accounts.commit(addr, record) {
        Ok(()) => Ok(addr),
        Err(_) => unreached(),
    }
}

/// The legacy entry point without a derivation precondition.
pub fn try_multisig_create_legacy(
    args: MultisigCreateV2Args,
    create_key: &Pubkey,
    program_id: &Pubkey,
    accounts: &mut RecordStore,
) -> (r: Option<Result<Pubkey, MultisigError>>)
    ensures
        (derived_multisig_address(create_key@, program_id@) is None ==> r is None
            && final(accounts)@ == old(accounts)@),
        (derived_multisig_address(create_key@, program_id@) matches Some(d) ==> (
        r matches Some(res) && legacy_create_post(
            args,
            *create_key,
            d.0,
            d.1,
            old(accounts)@,
            final(accounts)@,
            res,
        ))),
{
    match derive_multisig_address(create_key, program_id) {
        Some(_) => Some(multisig_create_legacy(args, create_key, program_id, accounts)),
        None => None,
    }
}

/// A creation against a store that already holds the derived address — the
/// second use of one create key — fails with `AlreadyInitialized` and leaves
/// the store and both balances exactly as they were.
pub proof fn lemma_duplicate_create_key_rejected(
    ctx: MultisigCreateV2,
    args: MultisigCreateV2Args,
    addr: Seq<u8>,
    bump: u8,
    store0: Seq<(Pubkey, Multisig)>,
    store1: Seq<(Pubkey, Multisig)>,
    creator0: u64,
    creator1: u64,
    treasury0: u64,
    treasury1: u64,
    r: Result<Pubkey, MultisigError>,
)
    requires
        ctx.treasury@ == ctx.program_config.treasury@,
        store_contains_address(store0, addr),
        fee_create_post(
            ctx,
            args,
            addr,
            bump,
            store0,
            store1,
            creator0,
            creator1,
            treasury0,
            treasury1,
            r,
        ),
    ensures
        r == Err::<Pubkey, MultisigError>(MultisigError::AlreadyInitialized),
        store1 == store0,
        creator1 == creator0,
        treasury1 == treasury0,
{
}

/// One create key, two creation calls: the first commits its record, and the
/// second — whatever its parameters, fee or balances — fails with
/// `AlreadyInitialized` and leaves the first call's state untouched.
pub proof fn lemma_create_key_single_use(
    ctx1: MultisigCreateV2,
    args1: MultisigCreateV2Args,
    ctx2: MultisigCreateV2,
    args2: MultisigCreateV2Args,
    addr: Seq<u8>,
    bump1: u8,
    bump2: u8,
    store0: Seq<(Pubkey, Multisig)>,
    store1: Seq<(Pubkey, Multisig)>,
    store2: Seq<(Pubkey, Multisig)>,
    c0: u64,
    c1: u64,
    c2: u64,
    t0: u64,
    t1: u64,
    t2: u64,
    r1: Result<Pubkey, MultisigError>,
    r2: Result<Pubkey, MultisigError>,
)
    requires
        fee_create_post(ctx1, args1, addr, bump1, store0, store1, c0, c1, t0, t1, r1),
        r1 is Ok,
        ctx2.treasury@ == ctx2.program_config.treasury@,
        fee_create_post(ctx2, args2, addr, bump2, store1, store2, c1, c2, t1, t2, r2),
    ensures
        r2 == Err::<Pubkey, MultisigError>(MultisigError::AlreadyInitialized),
        store2 == store1,
        c2 == c1,
        t2 == t1,
{
    assert(store_contains_address(store1, addr)) by {
        assert(store1[store1.len() - 1].0@ == addr);
    }
    lemma_duplicate_create_key_rejected(
        ctx2,
        args2,
        addr,
        bump2,
        store1,
        store2,
        c1,
        c2,
        t1,
        t2,
        r2,
    );
}

/// The legacy path keeps the same single-use guarantee: once a create key's
/// derived address is committed, a second legacy creation with it fails with
/// `AlreadyInitialized` and leaves the store untouched.
pub proof fn lemma_create_key_single_use_legacy(
    args1: MultisigCreateV2Args,
    args2: MultisigCreateV2Args,
    create_key: Pubkey,
    addr: Seq<u8>,
    bump1: u8,
    bump2: u8,
    store0: Seq<(Pubkey, Multisig)>,
    store1: Seq<(Pubkey, Multisig)>,
    store2: Seq<(Pubkey, Multisig)>,
    r1: Result<Pubkey, MultisigError>,
    r2: Result<Pubkey, MultisigError>,
)
    requires
        legacy_create_post(args1, create_key, addr, bump1, store0, store1, r1),
        r1 is Ok,
        legacy_create_post(args2, create_key, addr, bump2, store1, store2, r2),
    ensures
        r2 == Err::<Pubkey, MultisigError>(MultisigError::AlreadyInitialized),
        store2 == store1,
{
    assert(store_contains_address(store1, addr)) by {
        assert(store1[store1.len() - 1].0@ == addr);
    }
}

} // verus!
