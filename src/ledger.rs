//! A model of the token ledger that carries out the engine's instructions:
//! balances by holding account, each transaction applied whole or not at all.

use vstd::prelude::*;
use crate::address::{Address, same_address};
use crate::accounts::{ProgramError, TokenInstruction};

verus! {

/// Applies one instruction to the balances.
pub open spec fn step(bal: Map<Seq<u8>, int>, ix: TokenInstruction) -> Result<Map<Seq<u8>, int>, ProgramError> {
    match ix {
        TokenInstruction::MintTo { to, amount, .. } => if !bal.contains_key(to@) {
            Err(ProgramError::NotInitialized)
        } else if bal[to@] + amount > u64::MAX {
            Err(ProgramError::Overflow)
        } else {
            Ok(bal.insert(to@, bal[to@] + amount))
        },
        TokenInstruction::Burn { from, amount, .. } => if !bal.contains_key(from@) {
            Err(ProgramError::NotInitialized)
        } else if bal[from@] < amount {
            Err(ProgramError::InsufficientBalance)
        } else {
            Ok(bal.insert(from@, bal[from@] - amount))
        },
    }
}

/// Applies the instructions in order, stopping at the first that fails.
pub open spec fn run(bal: Map<Seq<u8>, int>, ixs: Seq<TokenInstruction>) -> Result<Map<Seq<u8>, int>, ProgramError>
    decreases ixs.len(),
{
    if ixs.len() == 0 {
        Ok(bal)
    } else {
        match step(bal, ixs[0]) {
            Ok(next) => run(next, ixs.drop_first()),
            Err(e) => Err(e),
        }
    }
}

/// The balances once a transaction is over: every step applied, or where
/// any step fails, none.
pub open spec fn settle(bal: Map<Seq<u8>, int>, ixs: Seq<TokenInstruction>) -> Map<Seq<u8>, int> {
    match run(bal, ixs) {
        Ok(after) => after,
        Err(_) => bal,
    }
}

/// The balances reached when the steps before `k` are applied and the
/// transaction is then forced to fail.
pub open spec fn run_until_fault(bal: Map<Seq<u8>, int>, ixs: Seq<TokenInstruction>, k: int) -> Result<
    Map<Seq<u8>, int>,
    ProgramError,
> {
    run(bal, ixs.take(k))
}

/// The balances once a transaction whose step `k` was forced to fail is
/// over.
pub open spec fn settle_with_fault(bal: Map<Seq<u8>, int>, ixs: Seq<TokenInstruction>, k: int) -> Map<Seq<u8>, int> {
    if 0 <= k < ixs.len() {
        bal
    } else {
        settle(bal, ixs)
    }
}

/// One holding account and its balance.
#[derive(Clone, Copy, Debug, PartialEq, Eq)]
pub struct Holding {
    pub account: Address,
    pub balance: u64,
}

/// An in-memory ledger of holding accounts, each listed once.
#[derive(Debug)]
pub struct Ledger {
    pub holdings: Vec<Holding>,
}

/// The position of `k` among the holdings, where it is listed.
pub open spec fn index_of(h: Seq<Holding>, k: Seq<u8>) -> int {
    choose|i: int| 0 <= i < h.len() && h[i].account@ == k
}

/// The balances that a list of holdings records.
pub open spec fn balances_of(h: Seq<Holding>) -> Map<Seq<u8>, int> {
    Map::new(
        |k: Seq<u8>| exists|i: int| 0 <= i < h.len() && h[i].account@ == k,
        |k: Seq<u8>| h[index_of(h, k)].balance as int,
    )
}

/// No account is listed twice.
pub open spec fn distinct_accounts(h: Seq<Holding>) -> bool {
    forall|i: int, j: int| 0 <= i < h.len() && 0 <= j < h.len() && i != j ==> h[i].account@ != h[j].account@
}

impl View for Ledger {
    type V = Map<Seq<u8>, int>;

    open spec fn view(&self) -> Map<Seq<u8>, int> {
        balances_of(self.holdings@)
    }
}

/// Where the accounts are listed once, the holding at `i` is the one
/// recorded for its account.
proof fn lemma_index_of(h: Seq<Holding>, i: int)
    requires
        distinct_accounts(h),
        0 <= i < h.len(),
    ensures
        index_of(h, h[i].account@) == i,
        balances_of(h).contains_key(h[i].account@),
        balances_of(h)[h[i].account@] == h[i].balance as int,
{
    let k = h[i].account@;
    assert(exists|j: int| 0 <= j < h.len() && h[j].account@ == k);
}

/// Setting the balance at `i` sets the recorded balance of its account alone.
proof fn lemma_set_balance(h: Seq<Holding>, i: int, v: u64)
    requires
        distinct_accounts(h),
        0 <= i < h.len(),
    ensures
        distinct_accounts(h.update(i, Holding { account: h[i].account, balance: v })),
        balances_of(h.update(i, Holding { account: h[i].account, balance: v }))
            == balances_of(h).insert(h[i].account@, v as int),
{
    let h2 = h.update(i, Holding { account: h[i].account, balance: v });
    let k = h[i].account@;
    lemma_index_of(h, i);
    lemma_index_of(h2, i);
    assert forall|q: Seq<u8>| #[trigger] balances_of(h2).contains_key(q) == balances_of(h).insert(k, v as int).contains_key(q) by {
        if exists|j: int| 0 <= j < h.len() && h[j].account@ == q {
            let j = choose|j: int| 0 <= j < h.len() && h[j].account@ == q;
            assert(h2[j].account@ == q);
        }
        if exists|j: int| 0 <= j < h2.len() && h2[j].account@ == q {
            let j = choose|j: int| 0 <= j < h2.len() && h2[j].account@ == q;
            assert(h[j].account@ == q);
        }
    }
    assert forall|q: Seq<u8>| balances_of(h2).contains_key(q) && q != k implies #[trigger] balances_of(h2)[q]
        == balances_of(h)[q] by {
        let j = choose|j: int| 0 <= j < h2.len() && h2[j].account@ == q;
        assert(h[j].account@ == q);
        lemma_index_of(h, j);
        lemma_index_of(h2, j);
    }
    assert(balances_of(h2) =~= balances_of(h).insert(k, v as int));
}

impl Ledger {
    /// Every account is listed once.
    pub open spec fn wf(&self) -> bool {
        distinct_accounts(self.holdings@)
    }

    /// An empty ledger.
    pub fn new() -> (r: Ledger)
        ensures
            r.wf(),
            r@ == Map::<Seq<u8>, int>::empty(),
    {
        let r = Ledger { holdings: Vec::new() };
        assert(r@ =~= Map::<Seq<u8>, int>::empty());
        r
    }

    /// Where `account` is listed, its position.
    pub fn find(&self, account: &Address) -> (r: Option<usize>)
        requires
            self.wf(),
        ensures
            r is None <==> !self@.contains_key(account@),
            r matches Some(i) ==> i < self.holdings@.len() && self.holdings@[i as int].account@ == account@,
    {
        let mut i: usize = 0;
        while i < self.holdings.len()
            invariant
                i <= self.holdings@.len(),
                forall|j: int| 0 <= j < i ==> self.holdings@[j].account@ != account@,
            decreases self.holdings@.len() - i,
        {
            if same_address(&self.holdings[i].account, account) {
                return Some(i);
            }
            i = i + 1;
        }
        None
    }

    /// The balance of `account`, where it is listed.
    pub fn balance(&self, account: &Address) -> (r: Option<u64>)
        requires
            self.wf(),
        ensures
            r is None <==> !self@.contains_key(account@),
            r matches Some(b) ==> self@[account@] == b as int,
    {
        match self.find(account) {
            None => None,
            Some(i) => {
                proof {
                    lemma_index_of(self.holdings@, i as int);
                }
                Some(self.holdings[i].balance)
            },
        }
    }

    /// Lists `account` with `balance` where it is absent; returns whether it
    /// was.
    pub fn open(&mut self, account: &Address, balance: u64) -> (r: bool)
        requires
            old(self).wf(),
        ensures
            final(self).wf(),
            r == !old(self)@.contains_key(account@),
            r ==> final(self)@ == old(self)@.insert(account@, balance as int),
            !r ==> final(self)@ == old(self)@,
    {
        if self.find(account).is_some() {
            return false;
        }
        let ghost h = self.holdings@;
        self.holdings.push(Holding { account: *account, balance });
        let ghost h2 = self.holdings@;
        proof {
            assert forall|i: int| 0 <= i < h.len() implies #[trigger] h2[i] == h[i] by {}
            lemma_index_of(h2, h.len() as int);
            assert forall|q: Seq<u8>| #[trigger] balances_of(h2).contains_key(q) == balances_of(h).insert(account@, balance as int).contains_key(q) by {
                if exists|j: int| 0 <= j < h.len() && h[j].account@ == q {
                    let j = choose|j: int| 0 <= j < h.len() && h[j].account@ == q;
                    assert(h2[j].account@ == q);
                }
                if exists|j: int| 0 <= j < h2.len() && h2[j].account@ == q {
                    let j = choose|j: int| 0 <= j < h2.len() && h2[j].account@ == q;
                    if j < h.len() {
                        assert(h[j].account@ == q);
                    }
                }
            }
            assert forall|q: Seq<u8>| balances_of(h2).contains_key(q) && q != account@ implies #[trigger] balances_of(h2)[q]
                == balances_of(h)[q] by {
                let j = choose|j: int| 0 <= j < h2.len() && h2[j].account@ == q;
                assert(j < h.len());
                lemma_index_of(h, j);
                lemma_index_of(h2, j);
            }
            assert(balances_of(h2) =~= balances_of(h).insert(account@, balance as int));
        }
        true
    }

    /// Applies one instruction, or leaves the ledger as it was where it fails.
    pub fn apply(&mut self, ix: &TokenInstruction) -> (r: Result<(), ProgramError>)
        requires
            old(self).wf(),
        ensures
            final(self).wf(),
            match step(old(self)@, *ix) {
                Ok(after) => r is Ok && final(self)@ == after,
                Err(e) => r == Err::<(), ProgramError>(e) && final(self)@ == old(self)@,
            },
    {
        let (account, amount, minting) = match ix {
            TokenInstruction::MintTo { to, amount, .. } => (to, *amount, true),
            TokenInstruction::Burn { from, amount, .. } => (from, *amount, false),
        };
        let i = match self.find(account) {
            None => {
                return Err(ProgramError::NotInitialized);
            },
            Some(i) => i,
        };
        let current = self.holdings[i].balance;
        let listed = self.holdings[i].account;
        proof {
            lemma_index_of(self.holdings@, i as int);
        }
        let next = if minting {
            match current.checked_add(amount) {
                None => {
                    return Err(ProgramError::Overflow);
                },
                Some(n) => n,
            }
        } else {
            if current < amount {
                return Err(ProgramError::InsufficientBalance);
            }
            current - amount
        };
        proof {
            lemma_set_balance(self.holdings@, i as int, next);
        }
        self.holdings.set(i, Holding { account: listed, balance: next });
        Ok(())
    }

    /// A copy of the holdings.
    fn snapshot(&self) -> (r: Vec<Holding>)
        ensures
            r@ == self.holdings@,
    {
        let mut r: Vec<Holding> = Vec::new();
        let mut i: usize = 0;
        while i < self.holdings.len()
            invariant
                i <= self.holdings@.len(),
                r@ == self.holdings@.take(i as int),
            decreases self.holdings@.len() - i,
        {
            r.push(self.holdings[i]);
            i = i + 1;
            assert(r@ =~= self.holdings@.take(i as int));
        }
        assert(r@ =~= self.holdings@);
        r
    }

    /// Applies the first `n` instructions in order, stopping at the first
    /// that fails; what was applied before it stays.
    fn apply_prefix(&mut self, ixs: &Vec<TokenInstruction>, n: usize) -> (r: Result<(), ProgramError>)
        requires
            old(self).wf(),
            n <= ixs@.len(),
        ensures
            final(self).wf(),
            match run(old(self)@, ixs@.take(n as int)) {
                Ok(after) => r is Ok && final(self)@ == after,
                Err(e) => r == Err::<(), ProgramError>(e),
            },
    {
        let ghost t = ixs@.take(n as int);
        assert(t.skip(0) =~= t);
        let mut i: usize = 0;
        while i < n
            invariant
                self.wf(),
                i <= n,
                n <= ixs@.len(),
                t == ixs@.take(n as int),
                run(old(self)@, t) == run(self@, t.skip(i as int)),
            decreases n - i,
        {
            assert(t.skip(i as int).drop_first() =~= t.skip(i + 1));
            assert(t.skip(i as int)[0] == ixs@[i as int]);
            match self.apply(&ixs[i]) {
                Err(e) => {
                    return Err(e);
                },
                Ok(()) => {},
            }
            i = i + 1;
        }
        assert(t.skip(n as int) =~= Seq::<TokenInstruction>::empty());
        Ok(())
    }

    /// Carries out one transaction: every instruction in order, or where
    /// any fails, none.
    pub fn execute(&mut self, ixs: &Vec<TokenInstruction>) -> (r: Result<(), ProgramError>)
        requires
            old(self).wf(),
        ensures
            final(self).wf(),
            final(self)@ == settle(old(self)@, ixs@),
            match run(old(self)@, ixs@) {
                Ok(_) => r is Ok,
                Err(e) => r == Err::<(), ProgramError>(e),
            },
    {
        let saved = self.snapshot();
        let r = self.apply_prefix(ixs, ixs.len());
        assert(ixs@.take(ixs@.len() as int) =~= ixs@);
        if r.is_err() {
            self.holdings = saved;
        }
        r
    }

    /// Carries out one transaction whose instruction at `fault_at` is made
    /// to fail, where there is one; returns whether the transaction
    /// committed.
    pub fn execute_with_fault(&mut self, ixs: &Vec<TokenInstruction>, fault_at: usize) -> (r: bool)
        requires
            old(self).wf(),
        ensures
            final(self).wf(),
            final(self)@ == settle_with_fault(old(self)@, ixs@, fault_at as int),
            r == (fault_at >= ixs@.len() && run(old(self)@, ixs@) is Ok),
    {
        let saved = self.snapshot();
        let n = if fault_at < ixs.len() { fault_at } else { ixs.len() };
        let r = self.apply_prefix(ixs, n);
        assert(ixs@.take(ixs@.len() as int) =~= ixs@);
        if r.is_err() || fault_at < ixs.len() {
            self.holdings = saved;
            false
        } else {
            true
        }
    }
}

} // verus!
