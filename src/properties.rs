use vstd::prelude::*;
use crate::derivation::{program_address, search_bump};
use crate::ledger::{data_of, empty_account, lamports_of, record_of, transfer_result, AccountData, Accounts};
use crate::vault::{
    close_result, custody_address, deposit_result, initialize_result, record_address, state_tag, validate_result,
    vault_tag, withdraw_result, VaultError, VaultState,
};

verus! {

/// A nonce found by the search re-derives, alone, the address it was found with.
pub proof fn lemma_found_nonce_rederives(tag: Seq<u8>, key: Seq<u8>, program: Seq<u8>, bump: u8, address: Seq<u8>, nonce: u8)
    requires
        search_bump(tag, key, program, bump) == Some((address, nonce)),
    ensures
        program_address(tag, key, nonce, program) == Some(address),
        1 <= nonce <= bump,
    decreases bump,
{
    if bump > 0 && program_address(tag, key, bump, program).is_none() {
        lemma_found_nonce_rederives(tag, key, program, (bump - 1) as u8, address, nonce);
    }
}

/// Deriving the record address of an owner twice gives the same address and
/// nonce, and that cached nonce re-derives the address.
pub proof fn derivation_is_deterministic(owner: Seq<u8>, program: Seq<u8>, first: (Seq<u8>, u8), second: (Seq<u8>, u8))
    requires
        record_address(owner, program) == Some(first),
        record_address(owner, program) == Some(second),
    ensures
        first == second,
        program_address(state_tag(), owner, first.1, program) == Some(first.0),
{
    lemma_found_nonce_rederives(state_tag(), owner, program, 255, first.0, first.1);
}

/// A transfer never changes what record any account holds.
pub proof fn lemma_transfer_keeps_records(m: Accounts, from: Seq<u8>, to: Seq<u8>, amount: u64, k: Seq<u8>)
    requires
        transfer_result(m, from, to, amount) is Ok,
    ensures
        record_of(transfer_result(m, from, to, amount)->Ok_0, k) == record_of(m, k),
{
}

/// Initializing an owner twice fails the second time, whatever the rents;
/// and a successful Initialize occupies no record address but its own.
pub proof fn one_vault_per_owner(
    m: Accounts,
    program: Seq<u8>,
    signer: Seq<u8>,
    state: Seq<u8>,
    vault: Seq<u8>,
    record_rent: u64,
    vault_rent: u64,
    record_rent2: u64,
    vault_rent2: u64,
)
    requires
        initialize_result(m, program, signer, state, vault, record_rent, vault_rent) is Ok,
    ensures
        ({
            let m1 = initialize_result(m, program, signer, state, vault, record_rent, vault_rent)->Ok_0;
            &&& initialize_result(m1, program, signer, state, vault, record_rent2, vault_rent2) == Err::<Accounts, VaultError>(VaultError::AccountInUse)
            &&& forall|k: Seq<u8>| k != state ==> #[trigger] record_of(m1, k) == record_of(m, k)
        }),
{
    let held = lamports_of(m, state);
    let topup = if held < record_rent { (record_rent - held) as u64 } else { 0u64 };
    let m1 = transfer_result(m, signer, state, topup)->Ok_0;
    let (_, sb) = record_address(signer, program)->Some_0;
    let (_, vb) = custody_address(state, program)->Some_0;
    let m2 = m1.insert(
        state,
        AccountData { lamports: data_of(m1, state).lamports, record: Some(VaultState { vault_bump: vb, state_bump: sb }) },
    );
    lemma_transfer_keeps_records(m2, signer, vault, vault_rent, state);
    assert forall|k: Seq<u8>| k != state implies #[trigger] record_of(
        initialize_result(m, program, signer, state, vault, record_rent, vault_rent)->Ok_0,
        k,
    ) == record_of(m, k) by {
        lemma_transfer_keeps_records(m, signer, state, topup, k);
        lemma_transfer_keeps_records(m2, signer, vault, vault_rent, k);
    }
}

/// One balance movement of an owner: a deposit or a withdrawal.
pub enum Movement {
    Deposit(u64),
    Withdraw(u64),
}

/// Sum of deposits minus sum of withdrawals.
pub open spec fn net_deposits(moves: Seq<Movement>) -> int
    decreases moves.len(),
{
    if moves.len() == 0 {
        0
    } else {
        net_deposits(moves.drop_last()) + match moves.last() {
            Movement::Deposit(a) => a as int,
            Movement::Withdraw(a) => -(a as int),
        }
    }
}

pub open spec fn movement_result(m: Accounts, program: Seq<u8>, signer: Seq<u8>, state: Seq<u8>, vault: Seq<u8>, mv: Movement) -> Result<Accounts, VaultError> {
    match mv {
        Movement::Deposit(a) => deposit_result(m, program, signer, state, vault, a),
        Movement::Withdraw(a) => withdraw_result(m, program, signer, state, vault, a),
    }
}

/// Over any run of successful deposits and withdrawals, the custody account
/// ends with what it started with, plus the deposits, minus the withdrawals.
pub proof fn balance_conservation(
    states: Seq<Accounts>,
    moves: Seq<Movement>,
    program: Seq<u8>,
    signer: Seq<u8>,
    state: Seq<u8>,
    vault: Seq<u8>,
)
    requires
        states.len() == moves.len() + 1,
        signer != vault,
        forall|i: int|
            0 <= i < moves.len() ==> #[trigger] movement_result(states[i], program, signer, state, vault, moves[i])
                == Ok::<Accounts, VaultError>(states[i + 1]),
    ensures
        lamports_of(states.last(), vault) == lamports_of(states[0], vault) + net_deposits(moves),
    decreases moves.len(),
{
    if moves.len() > 0 {
        let n = moves.len() - 1;
        balance_conservation(states.drop_last(), moves.drop_last(), program, signer, state, vault);
        assert(movement_result(states[n], program, signer, state, vault, moves[n]) == Ok::<Accounts, VaultError>(states[n + 1]));
        assert(states.drop_last().last() == states[n]);
    }
}

/// A successful Initialize leaves a fresh custody account holding exactly
/// the minimum balance it was funded with, and the record holding the cached
/// nonces of both derivations.
pub proof fn initialize_funds_custody(
    m: Accounts,
    program: Seq<u8>,
    signer: Seq<u8>,
    state: Seq<u8>,
    vault: Seq<u8>,
    record_rent: u64,
    vault_rent: u64,
)
    requires
        initialize_result(m, program, signer, state, vault, record_rent, vault_rent) is Ok,
        data_of(m, vault) == empty_account(),
        signer != vault,
        state != vault,
    ensures
        ({
            let m1 = initialize_result(m, program, signer, state, vault, record_rent, vault_rent)->Ok_0;
            &&& lamports_of(m1, vault) == vault_rent
            &&& record_of(m1, state) == Some(
                VaultState {
                    vault_bump: custody_address(state, program)->Some_0.1,
                    state_bump: record_address(signer, program)->Some_0.1,
                },
            )
        }),
{
}

/// Presented with a record and custody pair that the cached nonces do not
/// re-derive for the claimed owner, or with no record, Deposit, Withdraw and
/// Close all fail (and so, by their contracts, change nothing).
pub proof fn authority_enforced(m: Accounts, program: Seq<u8>, signer: Seq<u8>, state: Seq<u8>, vault: Seq<u8>, amount: u64)
    requires
        match record_of(m, state) {
            None => true,
            Some(rec) => program_address(state_tag(), signer, rec.state_bump, program) != Some(state)
                || program_address(vault_tag(), state, rec.vault_bump, program) != Some(vault),
        },
    ensures
        validate_result(m, program, signer, state, vault) is Err,
        deposit_result(m, program, signer, state, vault, amount) is Err,
        withdraw_result(m, program, signer, state, vault, amount) is Err,
        close_result(m, program, signer, state, vault) is Err,
{
}

/// Initialize, Deposit, Withdraw of the same amount, then Close.
pub open spec fn round_trip_result(
    m: Accounts,
    program: Seq<u8>,
    signer: Seq<u8>,
    state: Seq<u8>,
    vault: Seq<u8>,
    record_rent: u64,
    vault_rent: u64,
    amount: u64,
) -> Result<Accounts, VaultError> {
    match initialize_result(m, program, signer, state, vault, record_rent, vault_rent) {
        Err(e) => Err(e),
        Ok(m1) => match deposit_result(m1, program, signer, state, vault, amount) {
            Err(e) => Err(e),
            Ok(m2) => match withdraw_result(m2, program, signer, state, vault, amount) {
                Err(e) => Err(e),
                Ok(m3) => close_result(m3, program, signer, state, vault),
            },
        },
    }
}

/// For an owner whose record and custody addresses derive to fresh accounts
/// and who can pay both rents and the amount, the round trip succeeds, hands
/// the owner back exactly the starting balance and leaves both vault accounts
/// empty.
pub proof fn round_trip(
    m: Accounts,
    program: Seq<u8>,
    signer: Seq<u8>,
    state: Seq<u8>,
    vault: Seq<u8>,
    record_rent: u64,
    vault_rent: u64,
    amount: u64,
)
    requires
        record_address(signer, program) is Some,
        record_address(signer, program)->Some_0.0 == state,
        custody_address(state, program) is Some,
        custody_address(state, program)->Some_0.0 == vault,
        data_of(m, state) == empty_account(),
        data_of(m, vault) == empty_account(),
        signer != state,
        signer != vault,
        state != vault,
        lamports_of(m, signer) >= record_rent + vault_rent + amount,
    ensures
        round_trip_result(m, program, signer, state, vault, record_rent, vault_rent, amount) is Ok,
        ({
            let m4 = round_trip_result(m, program, signer, state, vault, record_rent, vault_rent, amount)->Ok_0;
            &&& lamports_of(m4, signer) == lamports_of(m, signer)
            &&& data_of(m4, state) == empty_account()
            &&& data_of(m4, vault) == empty_account()
        }),
{
    let (_, sb) = record_address(signer, program)->Some_0;
    let (_, vb) = custody_address(state, program)->Some_0;
    lemma_found_nonce_rederives(state_tag(), signer, program, 255, state, sb);
    lemma_found_nonce_rederives(vault_tag(), state, program, 255, vault, vb);
    let rec = VaultState { vault_bump: vb, state_bump: sb };
    let m1 = initialize_result(m, program, signer, state, vault, record_rent, vault_rent)->Ok_0;
    assert(initialize_result(m, program, signer, state, vault, record_rent, vault_rent) is Ok);
    assert(record_of(m1, state) == Some(rec));
    assert(lamports_of(m1, signer) == lamports_of(m, signer) - record_rent - vault_rent);
    assert(lamports_of(m1, vault) == vault_rent);
    assert(lamports_of(m1, state) == record_rent);
    assert(validate_result(m1, program, signer, state, vault) == Ok::<VaultState, VaultError>(rec));
    let m2 = deposit_result(m1, program, signer, state, vault, amount)->Ok_0;
    assert(deposit_result(m1, program, signer, state, vault, amount) is Ok);
    assert(record_of(m2, state) == Some(rec));
    assert(validate_result(m2, program, signer, state, vault) == Ok::<VaultState, VaultError>(rec));
    let m3 = withdraw_result(m2, program, signer, state, vault, amount)->Ok_0;
    assert(withdraw_result(m2, program, signer, state, vault, amount) is Ok);
    assert(record_of(m3, state) == Some(rec));
    assert(lamports_of(m3, signer) == lamports_of(m, signer) - record_rent - vault_rent);
    assert(lamports_of(m3, vault) == vault_rent);
    assert(lamports_of(m3, state) == record_rent);
    assert(validate_result(m3, program, signer, state, vault) == Ok::<VaultState, VaultError>(rec));
    assert(close_result(m3, program, signer, state, vault) is Ok);
}

} // verus!
