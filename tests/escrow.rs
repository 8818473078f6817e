use anchor_lang::solana_program::pubkey::Pubkey;
use paper_wallet::{
    find_program_address, redeem, store, transfer_lamports, AccountInfo, Address, Holder,
    PaperWalletError, Redeem, Store,
};

const RENT: u64 = 100;

fn addr(fill: u8) -> Address {
    Address { bytes: [fill; 32] }
}

fn program() -> Address {
    addr(7)
}

fn wallet(fill: u8, lamports: u64) -> AccountInfo {
    AccountInfo { key: addr(fill), lamports, is_signer: true, data: None }
}

fn derived(code: &str, secret: &Address) -> (Address, u8) {
    let seeds = vec![code.as_bytes().to_vec(), secret.bytes.to_vec()];
    find_program_address(&seeds, &program()).expect("a viable salt")
}

fn holder_at(code: &str, secret: &Address) -> AccountInfo {
    AccountInfo { key: derived(code, secret).0, lamports: 0, is_signer: false, data: None }
}

fn store_ctx(holder: AccountInfo, authority: AccountInfo) -> Store {
    Store { program_id: program(), rent: RENT, holder, authority }
}

fn redeem_ctx(holder: AccountInfo, authority: AccountInfo) -> Redeem {
    Redeem { program_id: program(), holder, authority }
}

#[test]
fn transfer_moves_exact_amount() {
    let mut from = wallet(1, 10);
    let mut to = wallet(2, 5);
    assert_eq!(transfer_lamports(&mut from, &mut to, 7), Ok(()));
    assert_eq!(from.lamports, 3);
    assert_eq!(to.lamports, 12);
}

#[test]
fn transfer_whole_balance() {
    let mut from = wallet(1, 10);
    let mut to = wallet(2, 0);
    assert_eq!(transfer_lamports(&mut from, &mut to, 10), Ok(()));
    assert_eq!(from.lamports, 0);
    assert_eq!(to.lamports, 10);
}

#[test]
fn transfer_over_balance_changes_nothing() {
    let mut from = wallet(1, 10);
    let mut to = wallet(2, 5);
    assert_eq!(
        transfer_lamports(&mut from, &mut to, 11),
        Err(PaperWalletError::InsufficientLamports)
    );
    assert_eq!(from.lamports, 10);
    assert_eq!(to.lamports, 5);
}

#[test]
fn derivation_is_deterministic() {
    let secret = addr(9);
    assert_eq!(derived("ABC123", &secret), derived("ABC123", &secret));
}

#[test]
fn derivation_matches_host_search() {
    let secret = addr(9);
    let (a, bump) = derived("ABC123", &secret);
    let id = Pubkey::new_from_array(program().bytes);
    let (key, host_bump) =
        Pubkey::find_program_address(&[b"ABC123".as_ref(), secret.bytes.as_ref()], &id);
    assert_eq!(a.bytes, key.to_bytes());
    assert_eq!(bump, host_bump);
    assert_ne!(a, program());
}

#[test]
fn derivation_depends_on_secret() {
    assert_ne!(derived("ABC123", &addr(9)).0, derived("ABC123", &addr(10)).0);
}

#[test]
fn derivation_refuses_overlong_seed() {
    let seeds = vec![vec![1u8; 33]];
    assert_eq!(find_program_address(&seeds, &program()), None);
}

#[test]
fn store_then_redeem_scenario() {
    let secret = addr(9);
    let mut s = store_ctx(holder_at("ABC123", &secret), wallet(1, 1000 + RENT));
    assert_eq!(store(&mut s, "ABC123", &secret, 1000), Ok(()));
    assert_eq!(s.authority.lamports, 0);
    assert_eq!(s.holder.lamports, 1000);
    let bump = derived("ABC123", &secret).1;
    assert_eq!(s.holder.data, Some(Holder { bump, stored: true }));

    let mut r = redeem_ctx(s.holder, wallet(3, 50));
    assert_eq!(redeem(&mut r, "ABC123", &secret), Ok(()));
    assert_eq!(r.authority.lamports, 1050);
    assert_eq!(r.holder.lamports, 0);
    assert_eq!(r.holder.data, None);
}

#[test]
fn store_twice_fails_in_use() {
    let secret = addr(9);
    let mut s = store_ctx(holder_at("code", &secret), wallet(1, 5000));
    assert_eq!(store(&mut s, "code", &secret, 1000), Ok(()));
    let before = s.holder.lamports;
    assert_eq!(store(&mut s, "code", &secret, 1000), Err(PaperWalletError::AccountAlreadyInUse));
    assert_eq!(s.holder.lamports, before);
    assert_eq!(s.authority.lamports, 5000 - RENT - 1000);
}

#[test]
fn store_over_unfunded_record_is_in_use() {
    let secret = addr(9);
    let mut holder = holder_at("code", &secret);
    holder.data = Some(Holder { bump: 1, stored: false });
    let mut s = store_ctx(holder, wallet(1, 5000));
    assert_eq!(store(&mut s, "code", &secret, 10), Err(PaperWalletError::AccountAlreadyInUse));
    assert_eq!(s.authority.lamports, 5000);
}

#[test]
fn store_zero_amount_fails() {
    let secret = addr(9);
    let mut s = store_ctx(holder_at("code", &secret), wallet(1, 5000));
    assert_eq!(store(&mut s, "code", &secret, 0), Err(PaperWalletError::ZeroAmount));
    assert_eq!(s.holder.data, None);
}

#[test]
fn store_without_fee_fails() {
    let secret = addr(9);
    let mut s = store_ctx(holder_at("code", &secret), wallet(1, 1000 + RENT - 1));
    assert_eq!(store(&mut s, "code", &secret, 1000), Err(PaperWalletError::InsufficientLamports));
    assert_eq!(s.authority.lamports, 1000 + RENT - 1);
    assert_eq!(s.holder.data, None);
}

#[test]
fn store_at_wrong_address_fails() {
    let secret = addr(9);
    let mut s = store_ctx(holder_at("other", &secret), wallet(1, 5000));
    assert_eq!(store(&mut s, "code", &secret, 10), Err(PaperWalletError::ConstraintSeeds));
}

#[test]
fn store_unsigned_fails() {
    let secret = addr(9);
    let mut authority = wallet(1, 5000);
    authority.is_signer = false;
    let mut s = store_ctx(holder_at("code", &secret), authority);
    assert_eq!(store(&mut s, "code", &secret, 10), Err(PaperWalletError::AccountNotSigner));
}

#[test]
fn redeem_before_store_fails() {
    let secret = addr(9);
    let mut r = redeem_ctx(holder_at("code", &secret), wallet(3, 0));
    assert_eq!(redeem(&mut r, "code", &secret), Err(PaperWalletError::EmptyRedeem));
    assert_eq!(r.authority.lamports, 0);
}

#[test]
fn redeem_twice_fails_second_time() {
    let secret = addr(9);
    let mut s = store_ctx(holder_at("code", &secret), wallet(1, 5000));
    assert_eq!(store(&mut s, "code", &secret, 700), Ok(()));
    let mut r = redeem_ctx(s.holder, wallet(3, 0));
    assert_eq!(redeem(&mut r, "code", &secret), Ok(()));
    assert_eq!(redeem(&mut r, "code", &secret), Err(PaperWalletError::EmptyRedeem));
    assert_eq!(r.authority.lamports, 700);
    assert_eq!(r.holder.lamports, 0);
}

#[test]
fn redeem_with_wrong_secret_fails() {
    let secret = addr(9);
    let mut s = store_ctx(holder_at("code", &secret), wallet(1, 5000));
    assert_eq!(store(&mut s, "code", &secret, 700), Ok(()));
    let mut r = redeem_ctx(s.holder, wallet(3, 0));
    assert_eq!(redeem(&mut r, "code", &addr(10)), Err(PaperWalletError::ConstraintSeeds));
    assert_eq!(r.holder.lamports, 700);
}

#[test]
fn redeem_unsigned_fails() {
    let secret = addr(9);
    let mut s = store_ctx(holder_at("code", &secret), wallet(1, 5000));
    assert_eq!(store(&mut s, "code", &secret, 700), Ok(()));
    let mut redeemer = wallet(3, 0);
    redeemer.is_signer = false;
    let mut r = redeem_ctx(s.holder, redeemer);
    assert_eq!(redeem(&mut r, "code", &secret), Err(PaperWalletError::AccountNotSigner));
}

#[test]
fn code_can_be_reused_after_redeem() {
    let secret = addr(9);
    let mut s = store_ctx(holder_at("code", &secret), wallet(1, 5000));
    assert_eq!(store(&mut s, "code", &secret, 700), Ok(()));
    let mut r = redeem_ctx(s.holder, wallet(3, 0));
    assert_eq!(redeem(&mut r, "code", &secret), Ok(()));
    let mut again = store_ctx(r.holder, s.authority);
    assert_eq!(store(&mut again, "code", &secret, 300), Ok(()));
    assert_eq!(again.holder.lamports, 300);
    assert_eq!(again.authority.lamports, 5000 - 2 * RENT - 1000);
}

#[test]
fn second_store_by_other_unsigned_depositor_fails_in_use() {
    let secret = addr(9);
    let mut s = store_ctx(holder_at("code", &secret), wallet(1, 5000));
    assert_eq!(store(&mut s, "code", &secret, 1000), Ok(()));
    let mut other = wallet(4, 5000);
    other.is_signer = false;
    let mut s2 = store_ctx(s.holder, other);
    assert_eq!(store(&mut s2, "code", &secret, 10), Err(PaperWalletError::AccountAlreadyInUse));
    assert_eq!(s2.holder.lamports, 1000);
    assert_eq!(s2.authority.lamports, 5000);
}

#[test]
fn store_at_address_holding_lamports_fails_in_use() {
    let secret = addr(9);
    let mut holder = holder_at("code", &secret);
    holder.lamports = 5;
    let mut s = store_ctx(holder, wallet(1, 5000));
    assert_eq!(store(&mut s, "code", &secret, 10), Err(PaperWalletError::AccountAlreadyInUse));
    assert_eq!(s.holder.lamports, 5);
    assert_eq!(s.authority.lamports, 5000);
}

#[test]
fn store_from_account_with_record_fails() {
    let secret = addr(9);
    let mut authority = wallet(1, 5000);
    authority.data = Some(Holder { bump: 200, stored: true });
    let mut s = store_ctx(holder_at("code", &secret), authority);
    assert_eq!(
        store(&mut s, "code", &secret, 5000 - RENT),
        Err(PaperWalletError::FundingAccountHoldsData)
    );
    assert_eq!(s.authority.lamports, 5000);
    assert_eq!(s.holder.data, None);
}

#[test]
fn redeem_empty_unsigned_fails_empty() {
    let secret = addr(9);
    let mut redeemer = wallet(3, 0);
    redeemer.is_signer = false;
    let mut r = redeem_ctx(holder_at("code", &secret), redeemer);
    assert_eq!(redeem(&mut r, "code", &secret), Err(PaperWalletError::EmptyRedeem));
}

#[test]
fn transfer_over_balance_near_max_changes_nothing() {
    let mut from = wallet(1, 10);
    let mut to = wallet(2, u64::MAX);
    assert_eq!(
        transfer_lamports(&mut from, &mut to, 11),
        Err(PaperWalletError::InsufficientLamports)
    );
    assert_eq!(from.lamports, 10);
    assert_eq!(to.lamports, u64::MAX);
}
