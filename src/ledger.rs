use vstd::prelude::*;
use crate::address::Address;
use crate::derivation::{create_address, program_address};
use crate::vault::{VaultError, VaultState};

verus! {

/// What the ledger keeps for one account: its balance and, for an account
/// owned by the vault program, the vault record stored in it.
#[derive(Clone, Copy, Debug)]
pub struct AccountData {
    pub lamports: u64,
    pub record: Option<VaultState>,
}

/// One account of the ledger: its address and what it holds.
#[derive(Clone, Copy, Debug)]
pub struct AccountInfo {
    pub key: Address,
    pub data: AccountData,
}

/// The ledger's accounts, by address.
pub type Accounts = Map<Seq<u8>, AccountData>;

/// An address that holds nothing: zero balance and no record.
pub open spec fn empty_account() -> AccountData {
    AccountData { lamports: 0, record: None }
}

pub open spec fn data_of(m: Accounts, k: Seq<u8>) -> AccountData {
    if m.contains_key(k) {
        m[k]
    } else {
        empty_account()
    }
}

pub open spec fn lamports_of(m: Accounts, k: Seq<u8>) -> nat {
    data_of(m, k).lamports as nat
}

pub open spec fn record_of(m: Accounts, k: Seq<u8>) -> Option<VaultState> {
    data_of(m, k).record
}

/// The native balance transfer: moves `amount` from `from` to `to`, failing
/// when `from` holds less or when `to` would overflow.
pub open spec fn transfer_result(m: Accounts, from: Seq<u8>, to: Seq<u8>, amount: u64) -> Result<Accounts, VaultError> {
    let f = data_of(m, from);
    let t = data_of(m, to);
    if f.lamports < amount {
        Err(VaultError::InsufficientFunds)
    } else if from == to {
        Ok(m)
    } else if t.lamports + amount > u64::MAX {
        Err(VaultError::ArithmeticOverflow)
    } else {
        Ok(
            m.insert(from, AccountData { lamports: (f.lamports - amount) as u64, record: f.record }).insert(
                to,
                AccountData { lamports: (t.lamports + amount) as u64, record: t.record },
            ),
        )
    }
}

/// Seeds that let the program sign for the account derived from them.
/// Only the vault handlers build one.
pub struct SignerSeeds {
    tag: Vec<u8>,
    key: Address,
    bump: u8,
}

impl SignerSeeds {
    pub(crate) fn new(tag: Vec<u8>, key: Address, bump: u8) -> (r: SignerSeeds)
        ensures
            r.tag() == tag@,
            r.key() == key@,
            r.bump() == bump,
    {
        SignerSeeds { tag, key, bump }
    }

    pub closed spec fn tag(&self) -> Seq<u8> {
        self.tag@
    }

    pub closed spec fn key(&self) -> Seq<u8> {
        self.key@
    }

    pub closed spec fn bump(&self) -> u8 {
        self.bump
    }
}

/// The host ledger as the vault sees it: accounts by address, and the id of
/// the program whose derived addresses it lets sign through seeds. An address
/// it does not list holds nothing.
pub struct Ledger {
    program_id: Address,
    accounts: Vec<AccountInfo>,
}

impl Ledger {
    /// No address appears twice.
    pub closed spec fn wf(&self) -> bool {
        forall|i: int, j: int|
            0 <= i < j < self.accounts@.len() ==> self.accounts@[i].key@ != self.accounts@[j].key@
    }

    closed spec fn has_key(&self, k: Seq<u8>) -> bool {
        exists|i: int| 0 <= i < self.accounts@.len() && #[trigger] self.accounts@[i].key@ == k
    }

    closed spec fn index_of(&self, k: Seq<u8>) -> int {
        choose|i: int| 0 <= i < self.accounts@.len() && #[trigger] self.accounts@[i].key@ == k
    }

    /// The program whose derived addresses this ledger checks signatures for.
    pub closed spec fn program(&self) -> Seq<u8> {
        self.program_id@
    }

    pub fn program_id(&self) -> (r: Address)
        ensures
            r@ == self.program(),
    {
        self.program_id
    }

    pub closed spec fn view(&self) -> Accounts {
        Map::new(|k: Seq<u8>| self.has_key(k), |k: Seq<u8>| self.accounts@[self.index_of(k)].data)
    }

    proof fn lemma_view_at(&self, i: int)
        requires
            self.wf(),
            0 <= i < self.accounts@.len(),
        ensures
            self@.contains_key(self.accounts@[i].key@),
            self@[self.accounts@[i].key@] == self.accounts@[i].data,
    {
        let k = self.accounts@[i].key@;
        assert(self.has_key(k));
        let j = self.index_of(k);
        assert(self.accounts@[j].key@ == k);
        if j < i {
            assert(self.accounts@[j].key@ != self.accounts@[i].key@);
        } else if i < j {
            assert(self.accounts@[i].key@ != self.accounts@[j].key@);
        }
    }

    /// A ledger with no accounts, for the program `program_id`.
    pub fn new(program_id: Address) -> (r: Ledger)
        ensures
            r.wf(),
            r.program() == program_id@,
            r@ == Map::<Seq<u8>, AccountData>::empty(),
    {
        let r = Ledger { program_id, accounts: Vec::new() };
        assert(r@ =~= Map::<Seq<u8>, AccountData>::empty());
        r
    }

    fn find(&self, key: &Address) -> (r: Option<usize>)
        requires
            self.wf(),
        ensures
            match r {
                Some(i) => i < self.accounts@.len() && self.accounts@[i as int].key@ == key@,
                None => !self@.contains_key(key@),
            },
    {
        let mut i: usize = 0;
        while i < self.accounts.len()
            invariant
                i <= self.accounts@.len(),
                forall|j: int| 0 <= j < i ==> self.accounts@[j].key@ != key@,
            decreases self.accounts@.len() - i,
        {
            if self.accounts[i].key.same(key) {
                return Some(i);
            }
            i = i + 1;
        }
        None
    }

    /// What the ledger holds at `key`.
    pub fn get(&self, key: &Address) -> (r: AccountData)
        requires
            self.wf(),
        ensures
            r == data_of(self@, key@),
    {
        match self.find(key) {
            Some(i) => {
                proof {
                    self.lemma_view_at(i as int);
                }
                self.accounts[i].data
            },
            None => AccountData { lamports: 0, record: None },
        }
    }

    /// The balance at `key`.
    pub fn lamports(&self, key: &Address) -> (r: u64)
        requires
            self.wf(),
        ensures
            r == lamports_of(self@, key@),
    {
        self.get(key).lamports
    }

    /// The vault record stored at `key`, if any.
    pub fn record(&self, key: &Address) -> (r: Option<VaultState>)
        requires
            self.wf(),
        ensures
            r == record_of(self@, key@),
    {
        self.get(key).record
    }

    /// Stores `data` at `key`.
    pub(crate) fn put(&mut self, key: &Address, data: AccountData)
        requires
            old(self).wf(),
        ensures
            final(self).wf(),
            final(self).program() == old(self).program(),
            final(self)@ == old(self)@.insert(key@, data),
    {
        let ghost pre = *self;
        match self.find(key) {
            Some(i) => {
                let k = self.accounts[i].key;
                self.accounts.set(i, AccountInfo { key: k, data });
                assert(forall|j: int| 0 <= j < self.accounts@.len() ==> #[trigger] self.accounts@[j].key@ == pre.accounts@[j].key@);
                assert forall|q: Seq<u8>| #[trigger] self@.contains_key(q) == pre@.insert(key@, data).contains_key(q) && (self@.contains_key(q) ==> self@[q] == pre@.insert(key@, data)[q]) by {
                    if self.has_key(q) {
                        let j = self.index_of(q);
                        self.lemma_view_at(j);
                        pre.lemma_view_at(j);
                    }
                    if pre.has_key(q) {
                        let j = pre.index_of(q);
                        assert(self.accounts@[j].key@ == q);
                    }
                }
                assert(self@ =~= pre@.insert(key@, data));
            },
            None => {
                self.accounts.push(AccountInfo { key: *key, data });
                let ghost n = pre.accounts@.len() as int;
                assert(forall|j: int| 0 <= j < n ==> #[trigger] self.accounts@[j] == pre.accounts@[j]);
                assert forall|a: int, b: int| 0 <= a < b < self.accounts@.len() implies self.accounts@[a].key@ != self.accounts@[b].key@ by {
                    if b == n {
                        assert(pre.accounts@[a].key@ == self.accounts@[a].key@);
                        assert(!pre.has_key(key@));
                    }
                }
                assert forall|q: Seq<u8>| #[trigger] self@.contains_key(q) == pre@.insert(key@, data).contains_key(q) && (self@.contains_key(q) ==> self@[q] == pre@.insert(key@, data)[q]) by {
                    if self.has_key(q) {
                        let j = self.index_of(q);
                        self.lemma_view_at(j);
                        if j < n {
                            pre.lemma_view_at(j);
                        }
                    }
                    if pre.has_key(q) {
                        let j = pre.index_of(q);
                        assert(self.accounts@[j].key@ == q);
                    }
                    if q == key@ {
                        assert(self.accounts@[n].key@ == q);
                    }
                }
                assert(self@ =~= pre@.insert(key@, data));
            },
        }
    }

    /// Credits `amount` to `key` from outside the ledger (an airdrop).
    pub fn fund(&mut self, key: &Address, amount: u64) -> (r: Result<(), VaultError>)
        requires
            old(self).wf(),
        ensures
            final(self).wf(),
            final(self).program() == old(self).program(),
            r is Err <==> lamports_of(old(self)@, key@) + amount > u64::MAX,
            r is Err ==> r == Err::<(), VaultError>(VaultError::ArithmeticOverflow) && final(self)@ == old(self)@,
            r is Ok ==> final(self)@ == old(self)@.insert(
                key@,
                AccountData { lamports: (lamports_of(old(self)@, key@) + amount) as u64, record: record_of(old(self)@, key@) },
            ),
    {
        let d = self.get(key);
        match d.lamports.checked_add(amount) {
            Some(total) => {
                self.put(key, AccountData { lamports: total, record: d.record });
                Ok(())
            },
            None => Err(VaultError::ArithmeticOverflow),
        }
    }

    /// The native balance transfer, authorized by the signature of `from`
    /// (checked by the host before the operation runs).
    pub(crate) fn transfer(&mut self, from: &Address, to: &Address, amount: u64) -> (r: Result<(), VaultError>)
        requires
            old(self).wf(),
        ensures
            final(self).wf(),
            final(self).program() == old(self).program(),
            match transfer_result(old(self)@, from@, to@, amount) {
                Ok(m) => r is Ok && final(self)@ == m,
                Err(e) => r == Err::<(), VaultError>(e) && final(self)@ == old(self)@,
            },
    {
        let f = self.get(from);
        if f.lamports < amount {
            return Err(VaultError::InsufficientFunds);
        }
        if from.same(to) {
            return Ok(());
        }
        let t = self.get(to);
        match t.lamports.checked_add(amount) {
            Some(total) => {
                self.put(from, AccountData { lamports: f.lamports - amount, record: f.record });
                self.put(to, AccountData { lamports: total, record: t.record });
                Ok(())
            },
            None => Err(VaultError::ArithmeticOverflow),
        }
    }

    /// A transfer out of a program-derived account, authorized by the program
    /// presenting the seeds that derive `from`.
    pub(crate) fn transfer_signed(&mut self, seeds: &SignerSeeds, from: &Address, to: &Address, amount: u64) -> (r: Result<(), VaultError>)
        requires
            old(self).wf(),
        ensures
            final(self).wf(),
            final(self).program() == old(self).program(),
            program_address(seeds.tag(), seeds.key(), seeds.bump(), old(self).program()) != Some(from@)
                ==> r == Err::<(), VaultError>(VaultError::MissingRequiredSignature) && final(self)@ == old(self)@,
            program_address(seeds.tag(), seeds.key(), seeds.bump(), old(self).program()) == Some(from@) ==>
                match transfer_result(old(self)@, from@, to@, amount) {
                    Ok(m) => r is Ok && final(self)@ == m,
                    Err(e) => r == Err::<(), VaultError>(e) && final(self)@ == old(self)@,
                },
    {
        match create_address(seeds.tag.as_slice(), &seeds.key, seeds.bump, &self.program_id) {
            Some(a) => {
                if !a.same(from) {
                    return Err(VaultError::MissingRequiredSignature);
                }
            },
            None => {
                return Err(VaultError::MissingRequiredSignature);
            },
        }
        self.transfer(from, to, amount)
    }

    /// An exact copy, to work on while an operation may still fail.
    pub(crate) fn snapshot(&self) -> (r: Ledger)
        requires
            self.wf(),
        ensures
            r.wf(),
            r.program() == self.program(),
            r@ == self@,
    {
        let mut accounts: Vec<AccountInfo> = Vec::new();
        let mut i: usize = 0;
        while i < self.accounts.len()
            invariant
                i <= self.accounts@.len(),
                accounts@ == self.accounts@.subrange(0, i as int),
            decreases self.accounts@.len() - i,
        {
            accounts.push(self.accounts[i]);
            i = i + 1;
        }
        assert(accounts@ =~= self.accounts@);
        let r = Ledger { program_id: self.program_id, accounts };
        assert(r@ =~= self@);
        r
    }
}

} // verus!
