//! Ledger accounts, the escrow record, and the balance transfer between them.
use crate::address::Address;
use vstd::prelude::*;

verus! {

/// The escrow record persisted at a derived address.
#[derive(Clone, Copy, Debug, PartialEq, Eq, Structural)]
pub struct Holder {
    /// The canonical derivation salt, fixed when the record is created.
    pub bump: u8,
    /// Whether the record currently holds a deposit.
    pub stored: bool,
}

/// The errors that the escrow operations report.
#[derive(Clone, Copy, Debug, PartialEq, Eq, Structural)]
pub enum PaperWalletError {
    /// Cannot store to non-empty data. A deposit never reports it: the
    /// ledger's allocation check refuses an existing record first.
    NonEmptyStore,
    /// Insufficient lamports.
    InsufficientLamports,
    /// Redeeming an account without credit.
    EmptyRedeem,
    /// A deposit must move a nonzero amount.
    ZeroAmount,
    /// The ledger refuses to allocate over an existing record.
    AccountAlreadyInUse,
    /// The holder account is not at the address derived from the seeds.
    ConstraintSeeds,
    /// The acting authority did not sign.
    AccountNotSigner,
    /// The depositing account carries data; the ledger moves funds only out
    /// of plain accounts.
    FundingAccountHoldsData,
}

/// A ledger account as an operation sees it.
#[derive(Clone, Copy, Debug)]
pub struct AccountInfo {
    pub key: Address,
    pub lamports: u64,
    pub is_signer: bool,
    /// The escrow record allocated at this account, if any.
    pub data: Option<Holder>,
}

impl AccountInfo {
    /// The same account with its balance set to `lamports`.
    pub open spec fn with_lamports(self, lamports: int) -> AccountInfo {
        AccountInfo { lamports: lamports as u64, ..self }
    }

    /// The account holds a funded record.
    pub open spec fn funded(self) -> bool {
        self.data matches Some(h) && h.stored
    }

    /// A funded record never has an empty balance.
    pub open spec fn holder_invariant(self) -> bool {
        self.funded() ==> self.lamports > 0
    }
}

/// Moves `amount` lamports from `from` to `to`, or fails with
/// `InsufficientLamports`, leaving both untouched, where `from` holds less.
pub fn transfer_lamports(from: &mut AccountInfo, to: &mut AccountInfo, amount: u64) -> (r:
    Result<(), PaperWalletError>)
    requires
        amount <= old(from).lamports ==> old(to).lamports + amount <= u64::MAX,
    ensures
        amount > old(from).lamports ==> {
            &&& r == Err::<(), PaperWalletError>(PaperWalletError::InsufficientLamports)
            &&& *final(from) == *old(from)
            &&& *final(to) == *old(to)
        },
        amount <= old(from).lamports ==> {
            &&& r == Ok::<(), PaperWalletError>(())
            &&& *final(from) == old(from).with_lamports(old(from).lamports - amount)
            &&& *final(to) == old(to).with_lamports(old(to).lamports + amount)
        },
{
    if from.lamports < amount {
        return Err(PaperWalletError::InsufficientLamports);
    }
    from.lamports = from.lamports - amount;
    to.lamports = to.lamports + amount;
    Ok(())
}

} // verus!
