//! The escrow state machine: depositing into and redeeming a holder record.
use crate::account::{transfer_lamports, AccountInfo, Holder, PaperWalletError};
use crate::address::{find_program_address, is_canonical, Address};
use vstd::prelude::*;
use vstd::slice::slice_to_vec;
use vstd::string::{StrSliceExecFns, StringSliceAdditionalSpecFns};

verus! {

/// The accounts and settings of a deposit.
#[derive(Clone, Copy, Debug)]
pub struct Store {
    /// The application identity that addresses are derived under.
    pub program_id: Address,
    /// The ledger's fee for allocating a record, paid by the authority.
    pub rent: u64,
    /// The account at which the record is created.
    pub holder: AccountInfo,
    /// The depositor, who signs and pays.
    pub authority: AccountInfo,
}

/// The accounts and settings of a redemption.
#[derive(Clone, Copy, Debug)]
pub struct Redeem {
    /// The application identity that addresses are derived under.
    pub program_id: Address,
    /// The account of the record being drained.
    pub holder: AccountInfo,
    /// The redeemer, who signs and receives the balance.
    pub authority: AccountInfo,
}

/// The derivation seeds of a holder record: the code and the redemption secret.
pub open spec fn holder_seeds(code: Seq<u8>, secret: Seq<u8>) -> Seq<Seq<u8>> {
    seq![code, secret]
}

/// `key` is the canonical address of the record for `code` and `secret`.
pub open spec fn derives_to(program_id: Seq<u8>, code: Seq<u8>, secret: Seq<u8>, key: Seq<u8>) -> bool {
    exists|b: u8| is_canonical(holder_seeds(code, secret), program_id, Some((key, b)))
}

/// The canonical salt that goes with `key`, where `derives_to` holds.
pub open spec fn canonical_bump(
    program_id: Seq<u8>,
    code: Seq<u8>,
    secret: Seq<u8>,
    key: Seq<u8>,
) -> u8 {
    choose|b: u8| is_canonical(holder_seeds(code, secret), program_id, Some((key, b)))
}

/// The outcome of a deposit of `amount`: the accounts afterwards, or the
/// first check that fails.
pub open spec fn store_spec(ctx: Store, code: Seq<u8>, secret: Seq<u8>, amount: u64) -> Result<
    Store,
    PaperWalletError,
> {
    if ctx.holder.data is Some || ctx.holder.lamports > 0 {
        Err(PaperWalletError::AccountAlreadyInUse)
    } else if !ctx.authority.is_signer {
        Err(PaperWalletError::AccountNotSigner)
    } else if ctx.authority.data is Some {
        Err(PaperWalletError::FundingAccountHoldsData)
    } else if !derives_to(ctx.program_id@, code, secret, ctx.holder.key@) {
        Err(PaperWalletError::ConstraintSeeds)
    } else if amount == 0 {
        Err(PaperWalletError::ZeroAmount)
    } else if ctx.authority.lamports < ctx.rent + amount {
        Err(PaperWalletError::InsufficientLamports)
    } else {
        let bump = canonical_bump(ctx.program_id@, code, secret, ctx.holder.key@);
        Ok(
            Store {
                holder: AccountInfo {
                    lamports: amount,
                    data: Some(Holder { bump, stored: true }),
                    ..ctx.holder
                },
                authority: ctx.authority.with_lamports(ctx.authority.lamports - ctx.rent - amount),
                ..ctx
            },
        )
    }
}

/// The outcome of a redemption: the accounts afterwards, or the first check
/// that fails.
pub open spec fn redeem_spec(ctx: Redeem, code: Seq<u8>, secret: Seq<u8>) -> Result<
    Redeem,
    PaperWalletError,
> {
    if !ctx.holder.funded() {
        Err(PaperWalletError::EmptyRedeem)
    } else if !ctx.authority.is_signer {
        Err(PaperWalletError::AccountNotSigner)
    } else if !derives_to(ctx.program_id@, code, secret, ctx.holder.key@) {
        Err(PaperWalletError::ConstraintSeeds)
    } else {
        Ok(
            Redeem {
                holder: AccountInfo { lamports: 0, data: None, ..ctx.holder },
                authority: ctx.authority.with_lamports(
                    ctx.authority.lamports + ctx.holder.lamports,
                ),
                ..ctx
            },
        )
    }
}

/// Derives the record address for `code` and `secret` and returns its salt
/// when it is `key`.
fn check_holder_address(program_id: &Address, code: &str, secret: &Address, key: &Address) -> (r:
    Option<u8>)
    ensures
        derives_to(program_id@, code.spec_bytes(), secret@, key@) <==> r is Some,
        r matches Some(b) ==> b == canonical_bump(program_id@, code.spec_bytes(), secret@, key@),
{
    let ghost seeds = holder_seeds(code.spec_bytes(), secret@);
    let seed_vecs: Vec<Vec<u8>> = vec![code.as_bytes_vec(), slice_to_vec(secret.bytes.as_slice())];
    assert(seed_vecs[0].deep_view() =~= seeds[0]);
    assert(seed_vecs[1].deep_view() =~= seeds[1]);
    assert(seed_vecs.deep_view() =~= seeds);
    let found = find_program_address(&seed_vecs, program_id);
    match found {
        Some((a, b)) => {
            if a == *key {
                assert(is_canonical(seeds, program_id@, Some((key@, b))));
                let ghost c = canonical_bump(program_id@, code.spec_bytes(), secret@, key@);
                proof {
                    crate::address::lemma_derivation_deterministic(
                        seeds,
                        program_id@,
                        Some((key@, b)),
                        Some((key@, c)),
                    );
                }
                Some(b)
            } else {
                proof {
                    if derives_to(program_id@, code.spec_bytes(), secret@, key@) {
                        let c = canonical_bump(program_id@, code.spec_bytes(), secret@, key@);
                        crate::address::lemma_derivation_deterministic(
                            seeds,
                            program_id@,
                            Some((a@, b)),
                            Some((key@, c)),
                        );
                    }
                }
                None
            }
        },
        None => {
            proof {
                if derives_to(program_id@, code.spec_bytes(), secret@, key@) {
                    let c = canonical_bump(program_id@, code.spec_bytes(), secret@, key@);
                    crate::address::lemma_derivation_deterministic(
                        seeds,
                        program_id@,
                        None,
                        Some((key@, c)),
                    );
                }
            }
            None
        },
    }
}

/// Creates the record for `code` and `secret` at `ctx.holder` and moves
/// `amount` lamports into it from the authority, which also pays the
/// allocation fee. Every check comes before any change: on an error the
/// accounts are as they were.
pub fn store(ctx: &mut Store, code: &str, secret: &Address, amount: u64) -> (r:
    Result<(), PaperWalletError>)
    ensures
        match store_spec(*old(ctx), code.spec_bytes(), secret@, amount) {
            Ok(next) => r is Ok && *final(ctx) == next,
            Err(e) => r == Err::<(), PaperWalletError>(e) && *final(ctx) == *old(ctx),
        },
        old(ctx).holder.holder_invariant() ==> final(ctx).holder.holder_invariant(),
        old(ctx).authority.holder_invariant() ==> final(ctx).authority.holder_invariant(),
{
    // The ledger refuses to allocate where an account already exists.
    if ctx.holder.data.is_some() || ctx.holder.lamports > 0 {
        return Err(PaperWalletError::AccountAlreadyInUse);
    }
    if !ctx.authority.is_signer {
        return Err(PaperWalletError::AccountNotSigner);
    }
    if ctx.authority.data.is_some() {
        return Err(PaperWalletError::FundingAccountHoldsData);
    }
    let bump = match check_holder_address(&ctx.program_id, code, secret, &ctx.holder.key) {
        Some(b) => b,
        None => {
            return Err(PaperWalletError::ConstraintSeeds);
        },
    };
    if amount == 0 {
        return Err(PaperWalletError::ZeroAmount);
    }
    if ctx.authority.lamports < ctx.rent || ctx.authority.lamports - ctx.rent < amount {
        return Err(PaperWalletError::InsufficientLamports);
    }
    // The ledger allocates the record and takes its fee.
    ctx.authority.lamports = ctx.authority.lamports - ctx.rent;
    ctx.holder.data = Some(Holder { bump, stored: false });
    match transfer_lamports(&mut ctx.authority, &mut ctx.holder, amount) {
        Ok(()) => {},
        Err(e) => {
            return Err(e);
        },
    }
    ctx.holder.data = Some(Holder { bump, stored: true });
    Ok(())
}

/// Drains the funded record for `code` and `secret` at `ctx.holder` to the
/// redeeming authority, then clears the record and releases its storage, so
/// that a second redemption fails and the code can be used again.
pub fn redeem(ctx: &mut Redeem, code: &str, secret: &Address) -> (r: Result<(), PaperWalletError>)
    requires
        old(ctx).holder.lamports + old(ctx).authority.lamports <= u64::MAX,
    ensures
        match redeem_spec(*old(ctx), code.spec_bytes(), secret@) {
            Ok(next) => r is Ok && *final(ctx) == next,
            Err(e) => r == Err::<(), PaperWalletError>(e) && *final(ctx) == *old(ctx),
        },
        old(ctx).holder.holder_invariant() ==> final(ctx).holder.holder_invariant(),
        old(ctx).authority.holder_invariant() ==> final(ctx).authority.holder_invariant(),
{
    let funded = match ctx.holder.data {
        Some(h) => h.stored,
        None => false,
    };
    if !funded {
        return Err(PaperWalletError::EmptyRedeem);
    }
    if !ctx.authority.is_signer {
        return Err(PaperWalletError::AccountNotSigner);
    }
    match check_holder_address(&ctx.program_id, code, secret, &ctx.holder.key) {
        Some(_) => {},
        None => {
            return Err(PaperWalletError::ConstraintSeeds);
        },
    }
    let amount = ctx.holder.lamports;
    match transfer_lamports(&mut ctx.holder, &mut ctx.authority, amount) {
        Ok(()) => {},
        Err(e) => {
            return Err(e);
        },
    }
    ctx.holder.data = None;
    Ok(())
}

/// A deposit of `amount` followed by a redemption of the same record with
/// the same code and secret raises the redeemer's balance by exactly
/// `amount` and leaves the record empty and unfunded.
pub proof fn lemma_store_then_redeem(
    s: Store,
    r: Redeem,
    code: Seq<u8>,
    secret: Seq<u8>,
    amount: u64,
)
    requires
        store_spec(s, code, secret, amount) is Ok,
        r.program_id == s.program_id,
        r.holder == store_spec(s, code, secret, amount)->Ok_0.holder,
        r.authority.is_signer,
        r.holder.lamports + r.authority.lamports <= u64::MAX,
    ensures
        store_spec(s, code, secret, amount)->Ok_0.holder.lamports == amount,
        redeem_spec(r, code, secret) is Ok,
        redeem_spec(r, code, secret)->Ok_0.authority.lamports == r.authority.lamports + amount,
        redeem_spec(r, code, secret)->Ok_0.holder.lamports == 0,
        !redeem_spec(r, code, secret)->Ok_0.holder.funded(),
{
}

/// A second deposit at the address of a record that a deposit created
/// fails with `AccountAlreadyInUse` and changes nothing, whoever deposits,
/// with whatever code, secret and amount.
pub proof fn lemma_store_twice(
    s: Store,
    s2: Store,
    code: Seq<u8>,
    secret: Seq<u8>,
    amount: u64,
    code2: Seq<u8>,
    secret2: Seq<u8>,
    amount2: u64,
)
    requires
        store_spec(s, code, secret, amount) is Ok,
        s2.holder == store_spec(s, code, secret, amount)->Ok_0.holder,
    ensures
        store_spec(s2, code2, secret2, amount2) == Err::<Store, PaperWalletError>(
            PaperWalletError::AccountAlreadyInUse,
        ),
{
}

/// Redeeming an address that holds no funded record, one where nothing was
/// stored in particular, fails with `EmptyRedeem`, whoever redeems.
pub proof fn lemma_redeem_before_store(r: Redeem, code: Seq<u8>, secret: Seq<u8>)
    requires
        !r.holder.funded(),
    ensures
        redeem_spec(r, code, secret) == Err::<Redeem, PaperWalletError>(
            PaperWalletError::EmptyRedeem,
        ),
{
}

/// After a successful redemption the record is empty and unfunded, and a
/// second redemption of it fails with `EmptyRedeem`, whoever redeems.
pub proof fn lemma_redeem_twice(r: Redeem, r2: Redeem, code: Seq<u8>, secret: Seq<u8>)
    requires
        redeem_spec(r, code, secret) is Ok,
        r2.holder == redeem_spec(r, code, secret)->Ok_0.holder,
    ensures
        redeem_spec(r, code, secret)->Ok_0.holder.lamports == 0,
        redeem_spec(r2, code, secret) == Err::<Redeem, PaperWalletError>(
            PaperWalletError::EmptyRedeem,
        ),
{
}

/// A deposit is paid out once: after a deposit of `amount`, two redemptions
/// in a row of its record credit `amount` to the first redeemer, the second
/// fails with `EmptyRedeem`, and the total credited is `amount`.
pub proof fn lemma_deposit_credited_once(
    s: Store,
    r1: Redeem,
    r2: Redeem,
    code: Seq<u8>,
    secret: Seq<u8>,
    amount: u64,
)
    requires
        store_spec(s, code, secret, amount) is Ok,
        r1.holder == store_spec(s, code, secret, amount)->Ok_0.holder,
        r1.holder.lamports + r1.authority.lamports <= u64::MAX,
        redeem_spec(r1, code, secret) is Ok,
        r2.holder == redeem_spec(r1, code, secret)->Ok_0.holder,
    ensures
        redeem_spec(r1, code, secret)->Ok_0.authority.lamports == r1.authority.lamports + amount,
        redeem_spec(r2, code, secret) == Err::<Redeem, PaperWalletError>(
            PaperWalletError::EmptyRedeem,
        ),
{
}

/// A successful deposit leaves a funded record with a nonzero balance.
pub proof fn lemma_store_funds_record(s: Store, code: Seq<u8>, secret: Seq<u8>, amount: u64)
    requires
        store_spec(s, code, secret, amount) is Ok,
    ensures
        store_spec(s, code, secret, amount)->Ok_0.holder.funded(),
        store_spec(s, code, secret, amount)->Ok_0.holder.holder_invariant(),
{
}

} // verus!
