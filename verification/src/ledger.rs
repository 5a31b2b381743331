use vstd::prelude::*;

use crate::models::Account;

verus! {

impl Account {
    /// An exact copy of this account.
    pub fn duplicate(&self) -> (r: Account)
        ensures
            r == *self,
    {
        Account {
            trader_id: self.trader_id.clone(),
            account_id: self.account_id.clone(),
            balance: self.balance,
            currency: self.currency.clone(),
            trading_group: self.trading_group.clone(),
        }
    }
}

/// A deterministic in-memory account ledger holding one account. It stands in
/// for the remote account ledger where the saga is run without a network, and
/// it records every balance delta it applies.
pub struct InMemoryAccountLedger {
    pub account: Account,
    pub applied_deltas: Vec<i64>,
}

impl InMemoryAccountLedger {
    pub open spec fn wf(self) -> bool {
        self.account.wf()
    }

    pub fn new(account: Account) -> (r: InMemoryAccountLedger)
        ensures
            r.account == account,
            r.applied_deltas@ == Seq::<i64>::empty(),
    {
        InMemoryAccountLedger { account, applied_deltas: Vec::new() }
    }

    /// Answer a get-account call: the stored account when the ids match,
    /// nothing otherwise.
    pub fn get_account(&self, trader_id: &String, account_id: &String) -> (r: Option<Account>)
        ensures
            trader_id@ == self.account.trader_id@ && account_id@ == self.account.account_id@
                ==> r == Some(self.account),
            !(trader_id@ == self.account.trader_id@ && account_id@ == self.account.account_id@)
                ==> r is None,
    {
        if self.account.trader_id == *trader_id && self.account.account_id == *account_id {
            Some(self.account.duplicate())
        } else {
            None
        }
    }

    /// Apply a balance delta. A mutation that would drive the balance
    /// negative is refused unless a negative balance is allowed; a refused
    /// mutation changes nothing and is not recorded.
    pub fn update_balance(&mut self, delta: i64, allow_negative: bool) -> (ok: bool)
        requires
            i64::MIN <= old(self).account.balance + delta <= i64::MAX,
        ensures
            ok <==> (allow_negative || old(self).account.balance + delta >= 0),
            final(self).account.trader_id == old(self).account.trader_id,
            final(self).account.account_id == old(self).account.account_id,
            final(self).account.currency == old(self).account.currency,
            final(self).account.trading_group == old(self).account.trading_group,
            ok ==> final(self).account.balance == old(self).account.balance + delta,
            ok ==> final(self).applied_deltas@ == old(self).applied_deltas@.push(delta),
            !ok ==> *final(self) == *old(self),
    {
        let new_balance = self.account.balance + delta;
        if !allow_negative && new_balance < 0 {
            return false;
        }
        self.account.balance = new_balance;
        self.applied_deltas.push(delta);
        true
    }
}

} // verus!
