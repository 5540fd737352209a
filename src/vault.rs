use vstd::prelude::*;
use crate::address::Address;
use crate::derivation::{create_address, derive_address, find_address, program_address};
use crate::ledger::{data_of, empty_account, lamports_of, record_of, transfer_result, AccountData, Accounts, Ledger, SignerSeeds};

verus! {

/// The vault record: the two nonces that re-derive the record's own address
/// (from the owner) and the custody account's address (from the record).
#[derive(Clone, Copy, Debug, PartialEq, Eq, Structural)]
pub struct VaultState {
    pub vault_bump: u8,
    pub state_bump: u8,
}

impl VaultState {
    /// Bytes the record takes in its account, after the host's framing.
    pub const INIT_SPACE: usize = 2;
}

#[derive(Clone, Copy, Debug, PartialEq, Eq, Structural)]
pub enum VaultError {
    /// No nonce in the search space gives a program address.
    DerivationExhausted,
    /// A presented account does not re-derive to the expected address.
    ConstraintSeeds,
    /// The presented record account holds no vault record.
    AccountNotInitialized,
    /// The record address is already occupied by a vault record.
    AccountInUse,
    /// The paying account holds less than the amount.
    InsufficientFunds,
    /// A guarded withdrawal would leave the custody account under its minimum.
    BelowMinimumBalance,
    /// A balance would exceed the largest representable amount.
    ArithmeticOverflow,
    /// The seeds presented for a program-signed transfer do not derive its source.
    MissingRequiredSignature,
}

} // verus!

verus! {

/// The role tag of the vault record's address: "state".
pub open spec fn state_tag() -> Seq<u8> {
    seq![115u8, 116u8, 97u8, 116u8, 101u8]
}

/// The role tag of the custody account's address: "vault".
pub open spec fn vault_tag() -> Seq<u8> {
    seq![118u8, 97u8, 117u8, 108u8, 116u8]
}

pub fn state_seed() -> (r: Vec<u8>)
    ensures
        r@ == state_tag(),
{
    vec![115u8, 116u8, 97u8, 116u8, 101u8]
}

pub fn vault_seed() -> (r: Vec<u8>)
    ensures
        r@ == vault_tag(),
{
    vec![118u8, 97u8, 117u8, 108u8, 116u8]
}

/// Address and nonce of the vault record of `owner`.
pub open spec fn record_address(owner: Seq<u8>, program: Seq<u8>) -> Option<(Seq<u8>, u8)> {
    derive_address(state_tag(), owner, program)
}

/// Address and nonce of the custody account of the record at `record`.
pub open spec fn custody_address(record: Seq<u8>, program: Seq<u8>) -> Option<(Seq<u8>, u8)> {
    derive_address(vault_tag(), record, program)
}

/// `r` and the accounts after an operation agree with `expected`: on an
/// error, nothing changed.
pub open spec fn outcome(r: Result<(), VaultError>, pre: Accounts, post: Accounts, expected: Result<Accounts, VaultError>) -> bool {
    match expected {
        Ok(m) => r is Ok && post == m,
        Err(e) => r == Err::<(), VaultError>(e) && post == pre,
    }
}

/// Initialize: derive both addresses, create the record at its address,
/// paid by the owner, and fund the custody account with `vault_rent`.
pub open spec fn initialize_result(
    m: Accounts,
    program: Seq<u8>,
    signer: Seq<u8>,
    state: Seq<u8>,
    vault: Seq<u8>,
    record_rent: u64,
    vault_rent: u64,
) -> Result<Accounts, VaultError> {
    match record_address(signer, program) {
        None => Err(VaultError::DerivationExhausted),
        Some((a, sb)) => if a != state {
            Err(VaultError::ConstraintSeeds)
        } else if record_of(m, state) is Some {
            Err(VaultError::AccountInUse)
        } else {
            let held = lamports_of(m, state);
            let topup = if held < record_rent { (record_rent - held) as u64 } else { 0u64 };
            match transfer_result(m, signer, state, topup) {
                Err(e) => Err(e),
                Ok(m1) => match custody_address(state, program) {
                    None => Err(VaultError::DerivationExhausted),
                    Some((v, vb)) => if v != vault {
                        Err(VaultError::ConstraintSeeds)
                    } else {
                        let m2 = m1.insert(
                            state,
                            AccountData {
                                lamports: data_of(m1, state).lamports,
                                record: Some(VaultState { vault_bump: vb, state_bump: sb }),
                            },
                        );
                        transfer_result(m2, signer, vault, vault_rent)
                    },
                },
            }
        },
    }
}

/// The check of Deposit, Withdraw and Close: the record must exist, and its
/// cached nonces must re-derive the presented record and custody addresses.
pub open spec fn validate_result(m: Accounts, program: Seq<u8>, signer: Seq<u8>, state: Seq<u8>, vault: Seq<u8>) -> Result<VaultState, VaultError> {
    match record_of(m, state) {
        None => Err(VaultError::AccountNotInitialized),
        Some(rec) => if program_address(state_tag(), signer, rec.state_bump, program) != Some(state) {
            Err(VaultError::ConstraintSeeds)
        } else if program_address(vault_tag(), state, rec.vault_bump, program) != Some(vault) {
            Err(VaultError::ConstraintSeeds)
        } else {
            Ok(rec)
        },
    }
}

pub open spec fn deposit_result(m: Accounts, program: Seq<u8>, signer: Seq<u8>, state: Seq<u8>, vault: Seq<u8>, amount: u64) -> Result<Accounts, VaultError> {
    match validate_result(m, program, signer, state, vault) {
        Err(e) => Err(e),
        Ok(_) => transfer_result(m, signer, vault, amount),
    }
}

pub open spec fn withdraw_result(m: Accounts, program: Seq<u8>, signer: Seq<u8>, state: Seq<u8>, vault: Seq<u8>, amount: u64) -> Result<Accounts, VaultError> {
    match validate_result(m, program, signer, state, vault) {
        Err(e) => Err(e),
        Ok(_) => transfer_result(m, vault, signer, amount),
    }
}

/// Withdraw with the optional guard: the amount must be held, and what stays
/// in the custody account must be at least `minimum`.
pub open spec fn guarded_withdraw_result(
    m: Accounts,
    program: Seq<u8>,
    signer: Seq<u8>,
    state: Seq<u8>,
    vault: Seq<u8>,
    amount: u64,
    minimum: u64,
) -> Result<Accounts, VaultError> {
    match validate_result(m, program, signer, state, vault) {
        Err(e) => Err(e),
        Ok(_) => if lamports_of(m, vault) < amount {
            Err(VaultError::InsufficientFunds)
        } else if lamports_of(m, vault) - amount < minimum {
            Err(VaultError::BelowMinimumBalance)
        } else {
            transfer_result(m, vault, signer, amount)
        },
    }
}

/// Destroys the record at `state`, crediting what it held to `dest`.
pub open spec fn close_record_result(m: Accounts, state: Seq<u8>, dest: Seq<u8>) -> Result<Accounts, VaultError> {
    let s = data_of(m, state);
    let d = data_of(m, dest);
    if d.lamports + s.lamports > u64::MAX {
        Err(VaultError::ArithmeticOverflow)
    } else {
        Ok(m.insert(dest, AccountData { lamports: (d.lamports + s.lamports) as u64, record: d.record }).insert(state, empty_account()))
    }
}

pub open spec fn close_result(m: Accounts, program: Seq<u8>, signer: Seq<u8>, state: Seq<u8>, vault: Seq<u8>) -> Result<Accounts, VaultError> {
    match validate_result(m, program, signer, state, vault) {
        Err(e) => Err(e),
        Ok(_) => match transfer_result(m, vault, signer, data_of(m, vault).lamports) {
            Err(e) => Err(e),
            Ok(m1) => close_record_result(m1, state, signer),
        },
    }
}

/// The vault record address of `owner` under `program`, with its nonce.
pub fn find_record_address(owner: &Address, program: &Address) -> (r: Option<(Address, u8)>)
    ensures
        match r {
            Some((a, b)) => record_address(owner@, program@) == Some((a@, b)),
            None => record_address(owner@, program@).is_none(),
        },
{
    let tag = state_seed();
    find_address(tag.as_slice(), owner, program)
}

/// The custody account address of the record at `record`, with its nonce.
pub fn find_custody_address(record: &Address, program: &Address) -> (r: Option<(Address, u8)>)
    ensures
        match r {
            Some((a, b)) => custody_address(record@, program@) == Some((a@, b)),
            None => custody_address(record@, program@).is_none(),
        },
{
    let tag = vault_seed();
    find_address(tag.as_slice(), record, program)
}

fn validate(ledger: &Ledger, signer: &Address, state: &Address, vault: &Address) -> (r: Result<VaultState, VaultError>)
    requires
        ledger.wf(),
    ensures
        r == validate_result(ledger@, ledger.program(), signer@, state@, vault@),
{
    let rec = match ledger.record(state) {
        Some(rec) => rec,
        None => return Err(VaultError::AccountNotInitialized),
    };
    let state_tag = state_seed();
    match create_address(state_tag.as_slice(), signer, rec.state_bump, &ledger.program_id()) {
        Some(a) => if !a.same(state) {
            return Err(VaultError::ConstraintSeeds);
        },
        None => return Err(VaultError::ConstraintSeeds),
    }
    let vault_tag = vault_seed();
    match create_address(vault_tag.as_slice(), state, rec.vault_bump, &ledger.program_id()) {
        Some(a) => if !a.same(vault) {
            return Err(VaultError::ConstraintSeeds);
        },
        None => return Err(VaultError::ConstraintSeeds),
    }
    Ok(rec)
}

/// The accounts of Initialize: the owner (the transaction's verified
/// signer), the vault record and the custody account.
#[derive(Clone, Copy, Debug)]
pub struct Initialize {
    pub signer: Address,
    pub vault_state: Address,
    pub vault: Address,
}

impl Initialize {
    /// Creates the owner's vault: the record, paid up to `record_rent`, and
    /// the custody account, funded with `vault_rent`, both paid by the owner.
    /// Fails without change where any step fails.
    pub fn initialize(&self, ledger: &mut Ledger, record_rent: u64, vault_rent: u64) -> (r: Result<(), VaultError>)
        requires
            old(ledger).wf(),
        ensures
            final(ledger).wf(),
            final(ledger).program() == old(ledger).program(),
            outcome(
                r,
                old(ledger)@,
                final(ledger)@,
                initialize_result(old(ledger)@, old(ledger).program(), self.signer@, self.vault_state@, self.vault@, record_rent, vault_rent),
            ),
    {
        let (a, state_bump) = match find_record_address(&self.signer, &ledger.program_id()) {
            Some(found) => found,
            None => return Err(VaultError::DerivationExhausted),
        };
        if !a.same(&self.vault_state) {
            return Err(VaultError::ConstraintSeeds);
        }
        let current = ledger.get(&self.vault_state);
        if current.record.is_some() {
            return Err(VaultError::AccountInUse);
        }
        let topup: u64 = if current.lamports < record_rent { record_rent - current.lamports } else { 0 };
        let mut next = ledger.snapshot();
        match next.transfer(&self.signer, &self.vault_state, topup) {
            Ok(()) => {},
            Err(e) => return Err(e),
        }
        let (v, vault_bump) = match find_custody_address(&self.vault_state, &ledger.program_id()) {
            Some(found) => found,
            None => return Err(VaultError::DerivationExhausted),
        };
        if !v.same(&self.vault) {
            return Err(VaultError::ConstraintSeeds);
        }
        let held = next.get(&self.vault_state);
        next.put(&self.vault_state, AccountData { lamports: held.lamports, record: Some(VaultState { vault_bump, state_bump }) });
        match next.transfer(&self.signer, &self.vault, vault_rent) {
            Ok(()) => {},
            Err(e) => return Err(e),
        }
        *ledger = next;
        Ok(())
    }
}

/// The accounts of Deposit and Withdraw.
#[derive(Clone, Copy, Debug)]
pub struct Payments {
    pub signer: Address,
    pub vault_state: Address,
    pub vault: Address,
}

impl Payments {
    /// Moves `amount` from the owner to the custody account, on the owner's
    /// own signature, once the presented accounts re-derive.
    pub fn deposit(&self, ledger: &mut Ledger, amount: u64) -> (r: Result<(), VaultError>)
        requires
            old(ledger).wf(),
        ensures
            final(ledger).wf(),
            final(ledger).program() == old(ledger).program(),
            outcome(
                r,
                old(ledger)@,
                final(ledger)@,
                deposit_result(old(ledger)@, old(ledger).program(), self.signer@, self.vault_state@, self.vault@, amount),
            ),
    {
        match validate(ledger, &self.signer, &self.vault_state, &self.vault) {
            Ok(_) => {},
            Err(e) => return Err(e),
        }
        ledger.transfer(&self.signer, &self.vault, amount)
    }

    /// Moves `amount` from the custody account to the owner, the program
    /// signing with the custody account's seeds and cached nonce.
    pub fn withdraw(&self, ledger: &mut Ledger, amount: u64) -> (r: Result<(), VaultError>)
        requires
            old(ledger).wf(),
        ensures
            final(ledger).wf(),
            final(ledger).program() == old(ledger).program(),
            outcome(
                r,
                old(ledger)@,
                final(ledger)@,
                withdraw_result(old(ledger)@, old(ledger).program(), self.signer@, self.vault_state@, self.vault@, amount),
            ),
    {
        let rec = match validate(ledger, &self.signer, &self.vault_state, &self.vault) {
            Ok(rec) => rec,
            Err(e) => return Err(e),
        };
        let seeds = SignerSeeds::new(vault_seed(), self.vault_state, rec.vault_bump);
        ledger.transfer_signed(&seeds, &self.vault, &self.signer, amount)
    }

    /// Withdraw under a policy stricter than the plain one, which relies on
    /// the ledger's balance check alone: refuses an amount that the custody
    /// account does not hold, or that would leave it under `minimum` (its
    /// rent-exempt balance, say).
    pub fn withdraw_keeping(&self, ledger: &mut Ledger, amount: u64, minimum: u64) -> (r: Result<(), VaultError>)
        requires
            old(ledger).wf(),
        ensures
            final(ledger).wf(),
            final(ledger).program() == old(ledger).program(),
            outcome(
                r,
                old(ledger)@,
                final(ledger)@,
                guarded_withdraw_result(old(ledger)@, old(ledger).program(), self.signer@, self.vault_state@, self.vault@, amount, minimum),
            ),
    {
        match validate(ledger, &self.signer, &self.vault_state, &self.vault) {
            Ok(_) => {},
            Err(e) => return Err(e),
        }
        let held = ledger.lamports(&self.vault);
        if held < amount {
            return Err(VaultError::InsufficientFunds);
        }
        if held - amount < minimum {
            return Err(VaultError::BelowMinimumBalance);
        }
        self.withdraw(ledger, amount)
    }
}

/// The accounts of Close.
#[derive(Clone, Copy, Debug)]
pub struct CloseAccounts {
    pub signer: Address,
    pub vault_state: Address,
    pub vault: Address,
}

impl CloseAccounts {
    /// Drains the custody account to the owner (program-signed), then
    /// destroys the record and credits its balance to the owner.
    pub fn close(&self, ledger: &mut Ledger) -> (r: Result<(), VaultError>)
        requires
            old(ledger).wf(),
        ensures
            final(ledger).wf(),
            final(ledger).program() == old(ledger).program(),
            outcome(
                r,
                old(ledger)@,
                final(ledger)@,
                close_result(old(ledger)@, old(ledger).program(), self.signer@, self.vault_state@, self.vault@),
            ),
    {
        let rec = match validate(ledger, &self.signer, &self.vault_state, &self.vault) {
            Ok(rec) => rec,
            Err(e) => return Err(e),
        };
        let seeds = SignerSeeds::new(vault_seed(), self.vault_state, rec.vault_bump);
        let mut next = ledger.snapshot();
        let amount = next.lamports(&self.vault);
        match next.transfer_signed(&seeds, &self.vault, &self.signer, amount) {
            Ok(()) => {},
            Err(e) => return Err(e),
        }
        let s = next.get(&self.vault_state);
        let d = next.get(&self.signer);
        let total = match d.lamports.checked_add(s.lamports) {
            Some(t) => t,
            None => return Err(VaultError::ArithmeticOverflow),
        };
        next.put(&self.signer, AccountData { lamports: total, record: d.record });
        next.put(&self.vault_state, AccountData { lamports: 0, record: None });
        *ledger = next;
        Ok(())
    }
}

} // verus!
