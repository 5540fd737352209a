//! A single-owner custodial vault over a ledger of accounts: per-owner
//! records and custody accounts live at program-derived addresses, and the
//! program authorizes outgoing transfers by presenting derivation seeds.
use vstd::prelude::*;

pub mod address;
pub mod derivation;
pub mod ledger;
pub mod properties;
pub mod vault;

use crate::ledger::Ledger;
use crate::vault::{
    close_result, deposit_result, initialize_result, outcome, withdraw_result, CloseAccounts, Initialize,
    Payments, VaultError,
};

verus! {

/// The Initialize instruction.
pub fn initialize(ctx: &Initialize, ledger: &mut Ledger, record_rent: u64, vault_rent: u64) -> (r: Result<(), VaultError>)
    requires
        old(ledger).wf(),
    ensures
        final(ledger).wf(),
        final(ledger).program() == old(ledger).program(),
        outcome(
            r,
            old(ledger)@,
            final(ledger)@,
            initialize_result(old(ledger)@, old(ledger).program(), ctx.signer@, ctx.vault_state@, ctx.vault@, record_rent, vault_rent),
        ),
{
    ctx.initialize(ledger, record_rent, vault_rent)
}

/// The Deposit instruction.
pub fn deposit(ctx: &Payments, ledger: &mut Ledger, amount: u64) -> (r: Result<(), VaultError>)
    requires
        old(ledger).wf(),
    ensures
        final(ledger).wf(),
        final(ledger).program() == old(ledger).program(),
        outcome(
            r,
            old(ledger)@,
            final(ledger)@,
            deposit_result(old(ledger)@, old(ledger).program(), ctx.signer@, ctx.vault_state@, ctx.vault@, amount),
        ),
{
    ctx.deposit(ledger, amount)
}

/// The Withdraw instruction.
pub fn withraw(ctx: &Payments, ledger: &mut Ledger, amount: u64) -> (r: Result<(), VaultError>)
    requires
        old(ledger).wf(),
    ensures
        final(ledger).wf(),
        final(ledger).program() == old(ledger).program(),
        outcome(
            r,
            old(ledger)@,
            final(ledger)@,
            withdraw_result(old(ledger)@, old(ledger).program(), ctx.signer@, ctx.vault_state@, ctx.vault@, amount),
        ),
{
    ctx.withdraw(ledger, amount)
}

/// The Close instruction.
pub fn close(ctx: &CloseAccounts, ledger: &mut Ledger) -> (r: Result<(), VaultError>)
    requires
        old(ledger).wf(),
    ensures
        final(ledger).wf(),
        final(ledger).program() == old(ledger).program(),
        outcome(
            r,
            old(ledger)@,
            final(ledger)@,
            close_result(old(ledger)@, old(ledger).program(), ctx.signer@, ctx.vault_state@, ctx.vault@),
        ),
{
    ctx.close(ledger)
}

} // verus!
