//! The ledger: how many funds each identity holds outside of any escrow.

use vstd::prelude::*;
use crate::errors::ErrorCode;
use crate::identity::Identity;

verus! {

/// One line of the ledger: the funds that one identity holds.
#[derive(Clone, Copy, Debug)]
struct Account {
    key: Identity,
    funds: u64,
}

/// Balances by identity. An identity that never received funds holds zero.
#[derive(Debug)]
pub struct Ledger {
    entries: Vec<Account>,
}

/// The funds that the last line of `s` kept for `who` holds; zero when `s`
/// has no line for `who`.
spec fn held(s: Seq<Account>, who: Identity) -> u64
    decreases s.len(),
{
    if s.len() == 0 {
        0
    } else if s.last().key == who {
        s.last().funds
    } else {
        held(s.drop_last(), who)
    }
}

/// The balances after `amount` was added to what `who` holds.
pub open spec fn credited(balances: Map<Identity, u64>, who: Identity, amount: u64) -> Map<
    Identity,
    u64,
> {
    balances.insert(who, (balances[who] + amount) as u64)
}

/// The balances after `amount` was taken from what `who` holds.
pub open spec fn debited(balances: Map<Identity, u64>, who: Identity, amount: u64) -> Map<
    Identity,
    u64,
> {
    balances.insert(who, (balances[who] - amount) as u64)
}

/// Whether `who` can receive `amount` more without leaving the range of a
/// balance.
pub open spec fn can_receive(balances: Map<Identity, u64>, who: Identity, amount: u64) -> bool {
    balances[who] + amount <= u64::MAX
}

/// Whether `who` holds at least `amount`.
pub open spec fn can_pay(balances: Map<Identity, u64>, who: Identity, amount: u64) -> bool {
    balances[who] >= amount
}

/// Rewriting the funds of the last line kept for a key changes the balance
/// of that key and of no other.
proof fn lemma_held_update(s: Seq<Account>, at: int, line: Account, who: Identity)
    requires
        0 <= at < s.len(),
        line.key == s[at].key,
        forall|j: int| at < j < s.len() ==> s[j].key != line.key,
    ensures
        held(s.update(at, line), who) == if who == line.key {
            line.funds
        } else {
            held(s, who)
        },
    decreases s.len(),
{
    let t = s.update(at, line);
    if at == s.len() - 1 {
        assert(t.drop_last() =~= s.drop_last());
    } else {
        assert(t.drop_last() =~= s.drop_last().update(at, line));
        if s.last().key != who {
            lemma_held_update(s.drop_last(), at, line, who);
        }
    }
}

impl View for Ledger {
    type V = Map<Identity, u64>;

    /// The balance of every identity.
    closed spec fn view(&self) -> Map<Identity, u64> {
        Map::total(|who: Identity| held(self.entries@, who))
    }
}

impl Ledger {
    /// A ledger on which nobody holds anything.
    pub fn new() -> (ledger: Ledger)
        ensures
            ledger@ == Map::total(|who: Identity| 0u64),
    {
        let ledger = Ledger { entries: Vec::new() };
        assert(ledger@ =~= Map::total(|who: Identity| 0u64));
        ledger
    }

    /// Where the last line for `who` stands, if there is one.
    fn locate(&self, who: &Identity) -> (at: Option<usize>)
        ensures
            match at {
                Some(i) => {
                    &&& i < self.entries@.len()
                    &&& self.entries@[i as int].key == *who
                    &&& forall|j: int| i < j < self.entries@.len() ==> self.entries@[j].key != *who
                    &&& self@[*who] == self.entries@[i as int].funds
                },
                None => {
                    &&& forall|j: int| 0 <= j < self.entries@.len() ==> self.entries@[j].key != *who
                    &&& self@[*who] == 0
                },
            },
    {
        let mut i: usize = self.entries.len();
        assert(self.entries@.take(i as int) =~= self.entries@);
        while i > 0
            invariant
                i <= self.entries@.len(),
                forall|j: int| i <= j < self.entries@.len() ==> self.entries@[j].key != *who,
                held(self.entries@, *who) == held(self.entries@.take(i as int), *who),
            decreases i,
        {
            let ghost prefix = self.entries@.take(i as int);
            assert(prefix.drop_last() =~= self.entries@.take(i - 1));
            assert(prefix.last() == self.entries@[i - 1]);
            i -= 1;
            if self.entries[i].key == *who {
                return Some(i);
            }
        }
        assert(self.entries@.take(0).len() == 0);
        None
    }

    /// What `who` holds.
    pub fn balance(&self, who: &Identity) -> (funds: u64)
        ensures
            funds == self@[*who],
    {
        match self.locate(who) {
            Some(i) => self.entries[i].funds,
            None => 0,
        }
    }

    /// Adds `amount` to what `who` holds, unless the balance cannot hold it.
    pub fn credit(&mut self, who: Identity, amount: u64) -> (r: Result<(), ErrorCode>)
        ensures
            can_receive(old(self)@, who, amount) ==> r == Ok::<(), ErrorCode>(()) && final(self)@
                == credited(old(self)@, who, amount),
            !can_receive(old(self)@, who, amount) ==> r == Err::<(), ErrorCode>(
                ErrorCode::TransferFailed,
            ) && *final(self) == *old(self),
    {
        match self.locate(&who) {
            Some(i) => {
                let before: u64 = self.entries[i].funds;
                match before.checked_add(amount) {
                    Some(after) => {
                        let line = Account { key: who, funds: after };
                        proof {
                            assert forall|k: Identity|
                                held(self.entries@.update(i as int, line), k) == credited(
                                    self@,
                                    who,
                                    amount,
                                )[k] by {
                                lemma_held_update(self.entries@, i as int, line, k);
                            }
                        }
                        self.entries.set(i, line);
                        assert(self@ =~= credited(old(self)@, who, amount));
                        Ok(())
                    },
                    None => Err(ErrorCode::TransferFailed),
                }
            },
            None => {
                let line = Account { key: who, funds: amount };
                proof {
                    assert(self.entries@.push(line).drop_last() =~= self.entries@);
                }
                self.entries.push(line);
                assert(self@ =~= credited(old(self)@, who, amount));
                Ok(())
            },
        }
    }

    /// Takes `amount` from what `who` holds, unless `who` holds less.
    pub fn debit(&mut self, who: Identity, amount: u64) -> (r: Result<(), ErrorCode>)
        ensures
            can_pay(old(self)@, who, amount) ==> r == Ok::<(), ErrorCode>(()) && final(self)@
                == debited(old(self)@, who, amount),
            !can_pay(old(self)@, who, amount) ==> r == Err::<(), ErrorCode>(
                ErrorCode::TransferFailed,
            ) && *final(self) == *old(self),
    {
        match self.locate(&who) {
            Some(i) => {
                let before: u64 = self.entries[i].funds;
                if before < amount {
                    return Err(ErrorCode::TransferFailed);
                }
                let line = Account { key: who, funds: before - amount };
                proof {
                    assert forall|k: Identity|
                        held(self.entries@.update(i as int, line), k) == debited(
                            self@,
                            who,
                            amount,
                        )[k] by {
                        lemma_held_update(self.entries@, i as int, line, k);
                    }
                }
                self.entries.set(i, line);
                assert(self@ =~= debited(old(self)@, who, amount));
                Ok(())
            },
            None => {
                if amount > 0 {
                    return Err(ErrorCode::TransferFailed);
                }
                assert(self@ =~= debited(old(self)@, who, amount));
                Ok(())
            },
        }
    }
}

} // verus!
