//! Double-entry postings, balanced journal entries and the standard journals.

use vstd::prelude::*;
use crate::foundation::clone_vec_exact;
use crate::foundation::{DomainResult, Id, Money, Nat, ValidationError, checked_add, checked_sum, lemma_sum_nat_prefix_le, lemma_sum_nat_take_all, lemma_sum_nat_take_step, sum_nat, total_result};

verus! {

#[derive(Debug, PartialEq, Eq)]
pub struct LedgerAccount {
    pub(crate) id: Id,
    pub(crate) name: String,
}

impl LedgerAccount {
    pub open(crate) spec fn spec_id(&self) -> Id {
        self.id
    }

    pub open(crate) spec fn spec_name(&self) -> String {
        self.name
    }

    pub open(crate) spec fn spec_new(id: Id, name: String) -> Self {
        LedgerAccount { id, name }
    }
}

/// The accessors of a `LedgerAccount` built by `spec_new` give back its parts.
pub broadcast proof fn lemma_ledger_account_fields(id: Id, name: String)
    ensures
        #[trigger] LedgerAccount::spec_new(id, name).spec_id() == id
            && LedgerAccount::spec_new(id, name).spec_name() == name,
{
}

impl Clone for LedgerAccount {
    fn clone(&self) -> (r: Self)
        ensures
            r == *self,
    {
        LedgerAccount { id: self.id, name: self.name.clone() }
    }
}

impl LedgerAccount {
    pub fn new(id: Id, name: String) -> (r: Self)
        ensures
            r == (LedgerAccount::spec_new(id, name)),
    {
        LedgerAccount { id, name }
    }

    pub fn try_new(id: Id, name: String) -> (r: DomainResult<Self>)
        ensures
            r == Ok::<Self, ValidationError>(LedgerAccount::spec_new(id, name)),
    {
        Ok(Self::new(id, name))
    }

    pub fn id(&self) -> (r: Id)
        ensures
            r == self.spec_id(),
    {
        self.id
    }

    pub fn name(&self) -> (r: &str)
        ensures
            r@ == self.spec_name()@,
    {
        self.name.as_str()
    }
}

#[derive(Debug, PartialEq, Eq)]
pub struct Posting {
    pub(crate) account: LedgerAccount,
    pub(crate) side: PostingSide,
    pub(crate) amount: Money,
}

impl Posting {
    pub open(crate) spec fn spec_account(&self) -> LedgerAccount {
        self.account
    }

    pub open(crate) spec fn spec_side(&self) -> PostingSide {
        self.side
    }

    pub open(crate) spec fn spec_amount(&self) -> Money {
        self.amount
    }

    pub open(crate) spec fn spec_new(account: LedgerAccount, side: PostingSide, amount: Money) -> Self {
        Posting { account, side, amount }
    }
}

/// The accessors of a `Posting` built by `spec_new` give back its parts.
pub broadcast proof fn lemma_posting_fields(account: LedgerAccount, side: PostingSide, amount: Money)
    ensures
        #[trigger] Posting::spec_new(account, side, amount).spec_account() == account
            && Posting::spec_new(account, side, amount).spec_side() == side
            && Posting::spec_new(account, side, amount).spec_amount() == amount,
{
}

impl Clone for Posting {
    fn clone(&self) -> (r: Self)
        ensures
            r == *self,
    {
        Posting { account: self.account.clone(), side: self.side, amount: self.amount }
    }
}

impl Posting {
    pub fn new(account: LedgerAccount, side: PostingSide, amount: Money) -> (r: Self)
        ensures
            r == (Posting::spec_new(account, side, amount)),
    {
        Posting { account, side, amount }
    }

    pub fn try_new(account: LedgerAccount, side: PostingSide, amount: Money) -> (r: DomainResult<Self>)
        ensures
            r == Ok::<Self, ValidationError>(Posting::spec_new(account, side, amount)),
    {
        Ok(Self::new(account, side, amount))
    }

    pub fn account(&self) -> (r: &LedgerAccount)
        ensures
            *r == self.spec_account(),
    {
        &self.account
    }

    pub fn side(&self) -> (r: PostingSide)
        ensures
            r == self.spec_side(),
    {
        self.side
    }

    pub fn amount(&self) -> (r: Money)
        ensures
            r == self.spec_amount(),
    {
        self.amount
    }
}

#[derive(Debug, PartialEq, Eq)]
pub struct AccountingAccounts {
    pub(crate) cash: LedgerAccount,
    pub(crate) deferred_revenue: LedgerAccount,
    pub(crate) revenue: LedgerAccount,
    pub(crate) refunds: LedgerAccount,
    pub(crate) inventory: LedgerAccount,
    pub(crate) cogs: LedgerAccount,
}

impl AccountingAccounts {
    pub open(crate) spec fn spec_cash(&self) -> LedgerAccount {
        self.cash
    }

    pub open(crate) spec fn spec_deferred_revenue(&self) -> LedgerAccount {
        self.deferred_revenue
    }

    pub open(crate) spec fn spec_revenue(&self) -> LedgerAccount {
        self.revenue
    }

    pub open(crate) spec fn spec_refunds(&self) -> LedgerAccount {
        self.refunds
    }

    pub open(crate) spec fn spec_inventory(&self) -> LedgerAccount {
        self.inventory
    }

    pub open(crate) spec fn spec_cogs(&self) -> LedgerAccount {
        self.cogs
    }

    pub open(crate) spec fn spec_new(cash: LedgerAccount, deferred_revenue: LedgerAccount, revenue: LedgerAccount, refunds: LedgerAccount, inventory: LedgerAccount, cogs: LedgerAccount) -> Self {
        AccountingAccounts { cash, deferred_revenue, revenue, refunds, inventory, cogs }
    }
}

/// The accessors of a `AccountingAccounts` built by `spec_new` give back its parts.
pub broadcast proof fn lemma_accounting_accounts_fields(cash: LedgerAccount, deferred_revenue: LedgerAccount, revenue: LedgerAccount, refunds: LedgerAccount, inventory: LedgerAccount, cogs: LedgerAccount)
    ensures
        #[trigger] AccountingAccounts::spec_new(cash, deferred_revenue, revenue, refunds, inventory, cogs).spec_cash() == cash
            && AccountingAccounts::spec_new(cash, deferred_revenue, revenue, refunds, inventory, cogs).spec_deferred_revenue() == deferred_revenue
            && AccountingAccounts::spec_new(cash, deferred_revenue, revenue, refunds, inventory, cogs).spec_revenue() == revenue
            && AccountingAccounts::spec_new(cash, deferred_revenue, revenue, refunds, inventory, cogs).spec_refunds() == refunds
            && AccountingAccounts::spec_new(cash, deferred_revenue, revenue, refunds, inventory, cogs).spec_inventory() == inventory
            && AccountingAccounts::spec_new(cash, deferred_revenue, revenue, refunds, inventory, cogs).spec_cogs() == cogs,
{
}

impl Clone for AccountingAccounts {
    fn clone(&self) -> (r: Self)
        ensures
            r == *self,
    {
        AccountingAccounts { cash: self.cash.clone(), deferred_revenue: self.deferred_revenue.clone(), revenue: self.revenue.clone(), refunds: self.refunds.clone(), inventory: self.inventory.clone(), cogs: self.cogs.clone() }
    }
}

impl AccountingAccounts {
    pub fn new(cash: LedgerAccount, deferred_revenue: LedgerAccount, revenue: LedgerAccount, refunds: LedgerAccount, inventory: LedgerAccount, cogs: LedgerAccount) -> (r: Self)
        ensures
            r == (AccountingAccounts::spec_new(cash, deferred_revenue, revenue, refunds, inventory, cogs)),
    {
        AccountingAccounts { cash, deferred_revenue, revenue, refunds, inventory, cogs }
    }

    pub fn try_new(cash: LedgerAccount, deferred_revenue: LedgerAccount, revenue: LedgerAccount, refunds: LedgerAccount, inventory: LedgerAccount, cogs: LedgerAccount) -> (r: DomainResult<Self>)
        ensures
            r == Ok::<Self, ValidationError>(AccountingAccounts::spec_new(cash, deferred_revenue, revenue, refunds, inventory, cogs)),
    {
        Ok(Self::new(cash, deferred_revenue, revenue, refunds, inventory, cogs))
    }

    pub fn cash(&self) -> (r: &LedgerAccount)
        ensures
            *r == self.spec_cash(),
    {
        &self.cash
    }

    pub fn deferred_revenue(&self) -> (r: &LedgerAccount)
        ensures
            *r == self.spec_deferred_revenue(),
    {
        &self.deferred_revenue
    }

    pub fn revenue(&self) -> (r: &LedgerAccount)
        ensures
            *r == self.spec_revenue(),
    {
        &self.revenue
    }

    pub fn refunds(&self) -> (r: &LedgerAccount)
        ensures
            *r == self.spec_refunds(),
    {
        &self.refunds
    }

    pub fn inventory(&self) -> (r: &LedgerAccount)
        ensures
            *r == self.spec_inventory(),
    {
        &self.inventory
    }

    pub fn cogs(&self) -> (r: &LedgerAccount)
        ensures
            *r == self.spec_cogs(),
    {
        &self.cogs
    }
}

#[derive(Debug, PartialEq, Eq)]
pub struct AdvancedAccountingAccounts {
    pub(crate) operating: AccountingAccounts,
    pub(crate) accounts_receivable: LedgerAccount,
    pub(crate) accounts_payable: LedgerAccount,
    pub(crate) tax_liability: LedgerAccount,
    pub(crate) marketplace_clearing: LedgerAccount,
    pub(crate) marketplace_fees: LedgerAccount,
    pub(crate) chargeback_reserve: LedgerAccount,
    pub(crate) chargeback_expense: LedgerAccount,
    pub(crate) realized_fx_gain: LedgerAccount,
    pub(crate) realized_fx_loss: LedgerAccount,
    pub(crate) unrealized_fx_gain: LedgerAccount,
    pub(crate) unrealized_fx_loss: LedgerAccount,
}

impl AdvancedAccountingAccounts {
    pub open(crate) spec fn spec_operating(&self) -> AccountingAccounts {
        self.operating
    }

    pub open(crate) spec fn spec_accounts_receivable(&self) -> LedgerAccount {
        self.accounts_receivable
    }

    pub open(crate) spec fn spec_accounts_payable(&self) -> LedgerAccount {
        self.accounts_payable
    }

    pub open(crate) spec fn spec_tax_liability(&self) -> LedgerAccount {
        self.tax_liability
    }

    pub open(crate) spec fn spec_marketplace_clearing(&self) -> LedgerAccount {
        self.marketplace_clearing
    }

    pub open(crate) spec fn spec_marketplace_fees(&self) -> LedgerAccount {
        self.marketplace_fees
    }

    pub open(crate) spec fn spec_chargeback_reserve(&self) -> LedgerAccount {
        self.chargeback_reserve
    }

    pub open(crate) spec fn spec_chargeback_expense(&self) -> LedgerAccount {
        self.chargeback_expense
    }

    pub open(crate) spec fn spec_realized_fx_gain(&self) -> LedgerAccount {
        self.realized_fx_gain
    }

    pub open(crate) spec fn spec_realized_fx_loss(&self) -> LedgerAccount {
        self.realized_fx_loss
    }

    pub open(crate) spec fn spec_unrealized_fx_gain(&self) -> LedgerAccount {
        self.unrealized_fx_gain
    }

    pub open(crate) spec fn spec_unrealized_fx_loss(&self) -> LedgerAccount {
        self.unrealized_fx_loss
    }

    pub open(crate) spec fn spec_new(operating: AccountingAccounts, accounts_receivable: LedgerAccount, accounts_payable: LedgerAccount, tax_liability: LedgerAccount, marketplace_clearing: LedgerAccount, marketplace_fees: LedgerAccount, chargeback_reserve: LedgerAccount, chargeback_expense: LedgerAccount, realized_fx_gain: LedgerAccount, realized_fx_loss: LedgerAccount, unrealized_fx_gain: LedgerAccount, unrealized_fx_loss: LedgerAccount) -> Self {
        AdvancedAccountingAccounts { operating, accounts_receivable, accounts_payable, tax_liability, marketplace_clearing, marketplace_fees, chargeback_reserve, chargeback_expense, realized_fx_gain, realized_fx_loss, unrealized_fx_gain, unrealized_fx_loss }
    }
}

/// The accessors of a `AdvancedAccountingAccounts` built by `spec_new` give back its parts.
pub broadcast proof fn lemma_advanced_accounting_accounts_fields(operating: AccountingAccounts, accounts_receivable: LedgerAccount, accounts_payable: LedgerAccount, tax_liability: LedgerAccount, marketplace_clearing: LedgerAccount, marketplace_fees: LedgerAccount, chargeback_reserve: LedgerAccount, chargeback_expense: LedgerAccount, realized_fx_gain: LedgerAccount, realized_fx_loss: LedgerAccount, unrealized_fx_gain: LedgerAccount, unrealized_fx_loss: LedgerAccount)
    ensures
        #[trigger] AdvancedAccountingAccounts::spec_new(operating, accounts_receivable, accounts_payable, tax_liability, marketplace_clearing, marketplace_fees, chargeback_reserve, chargeback_expense, realized_fx_gain, realized_fx_loss, unrealized_fx_gain, unrealized_fx_loss).spec_operating() == operating
            && AdvancedAccountingAccounts::spec_new(operating, accounts_receivable, accounts_payable, tax_liability, marketplace_clearing, marketplace_fees, chargeback_reserve, chargeback_expense, realized_fx_gain, realized_fx_loss, unrealized_fx_gain, unrealized_fx_loss).spec_accounts_receivable() == accounts_receivable
            && AdvancedAccountingAccounts::spec_new(operating, accounts_receivable, accounts_payable, tax_liability, marketplace_clearing, marketplace_fees, chargeback_reserve, chargeback_expense, realized_fx_gain, realized_fx_loss, unrealized_fx_gain, unrealized_fx_loss).spec_accounts_payable() == accounts_payable
            && AdvancedAccountingAccounts::spec_new(operating, accounts_receivable, accounts_payable, tax_liability, marketplace_clearing, marketplace_fees, chargeback_reserve, chargeback_expense, realized_fx_gain, realized_fx_loss, unrealized_fx_gain, unrealized_fx_loss).spec_tax_liability() == tax_liability
            && AdvancedAccountingAccounts::spec_new(operating, accounts_receivable, accounts_payable, tax_liability, marketplace_clearing, marketplace_fees, chargeback_reserve, chargeback_expense, realized_fx_gain, realized_fx_loss, unrealized_fx_gain, unrealized_fx_loss).spec_marketplace_clearing() == marketplace_clearing
            && AdvancedAccountingAccounts::spec_new(operating, accounts_receivable, accounts_payable, tax_liability, marketplace_clearing, marketplace_fees, chargeback_reserve, chargeback_expense, realized_fx_gain, realized_fx_loss, unrealized_fx_gain, unrealized_fx_loss).spec_marketplace_fees() == marketplace_fees
            && AdvancedAccountingAccounts::spec_new(operating, accounts_receivable, accounts_payable, tax_liability, marketplace_clearing, marketplace_fees, chargeback_reserve, chargeback_expense, realized_fx_gain, realized_fx_loss, unrealized_fx_gain, unrealized_fx_loss).spec_chargeback_reserve() == chargeback_reserve
            && AdvancedAccountingAccounts::spec_new(operating, accounts_receivable, accounts_payable, tax_liability, marketplace_clearing, marketplace_fees, chargeback_reserve, chargeback_expense, realized_fx_gain, realized_fx_loss, unrealized_fx_gain, unrealized_fx_loss).spec_chargeback_expense() == chargeback_expense
            && AdvancedAccountingAccounts::spec_new(operating, accounts_receivable, accounts_payable, tax_liability, marketplace_clearing, marketplace_fees, chargeback_reserve, chargeback_expense, realized_fx_gain, realized_fx_loss, unrealized_fx_gain, unrealized_fx_loss).spec_realized_fx_gain() == realized_fx_gain
            && AdvancedAccountingAccounts::spec_new(operating, accounts_receivable, accounts_payable, tax_liability, marketplace_clearing, marketplace_fees, chargeback_reserve, chargeback_expense, realized_fx_gain, realized_fx_loss, unrealized_fx_gain, unrealized_fx_loss).spec_realized_fx_loss() == realized_fx_loss
            && AdvancedAccountingAccounts::spec_new(operating, accounts_receivable, accounts_payable, tax_liability, marketplace_clearing, marketplace_fees, chargeback_reserve, chargeback_expense, realized_fx_gain, realized_fx_loss, unrealized_fx_gain, unrealized_fx_loss).spec_unrealized_fx_gain() == unrealized_fx_gain
            && AdvancedAccountingAccounts::spec_new(operating, accounts_receivable, accounts_payable, tax_liability, marketplace_clearing, marketplace_fees, chargeback_reserve, chargeback_expense, realized_fx_gain, realized_fx_loss, unrealized_fx_gain, unrealized_fx_loss).spec_unrealized_fx_loss() == unrealized_fx_loss,
{
}

impl Clone for AdvancedAccountingAccounts {
    fn clone(&self) -> (r: Self)
        ensures
            r == *self,
    {
        AdvancedAccountingAccounts { operating: self.operating.clone(), accounts_receivable: self.accounts_receivable.clone(), accounts_payable: self.accounts_payable.clone(), tax_liability: self.tax_liability.clone(), marketplace_clearing: self.marketplace_clearing.clone(), marketplace_fees: self.marketplace_fees.clone(), chargeback_reserve: self.chargeback_reserve.clone(), chargeback_expense: self.chargeback_expense.clone(), realized_fx_gain: self.realized_fx_gain.clone(), realized_fx_loss: self.realized_fx_loss.clone(), unrealized_fx_gain: self.unrealized_fx_gain.clone(), unrealized_fx_loss: self.unrealized_fx_loss.clone() }
    }
}

impl AdvancedAccountingAccounts {
    pub fn new(operating: AccountingAccounts, accounts_receivable: LedgerAccount, accounts_payable: LedgerAccount, tax_liability: LedgerAccount, marketplace_clearing: LedgerAccount, marketplace_fees: LedgerAccount, chargeback_reserve: LedgerAccount, chargeback_expense: LedgerAccount, realized_fx_gain: LedgerAccount, realized_fx_loss: LedgerAccount, unrealized_fx_gain: LedgerAccount, unrealized_fx_loss: LedgerAccount) -> (r: Self)
        ensures
            r == (AdvancedAccountingAccounts::spec_new(operating, accounts_receivable, accounts_payable, tax_liability, marketplace_clearing, marketplace_fees, chargeback_reserve, chargeback_expense, realized_fx_gain, realized_fx_loss, unrealized_fx_gain, unrealized_fx_loss)),
    {
        AdvancedAccountingAccounts { operating, accounts_receivable, accounts_payable, tax_liability, marketplace_clearing, marketplace_fees, chargeback_reserve, chargeback_expense, realized_fx_gain, realized_fx_loss, unrealized_fx_gain, unrealized_fx_loss }
    }

    pub fn try_new(operating: AccountingAccounts, accounts_receivable: LedgerAccount, accounts_payable: LedgerAccount, tax_liability: LedgerAccount, marketplace_clearing: LedgerAccount, marketplace_fees: LedgerAccount, chargeback_reserve: LedgerAccount, chargeback_expense: LedgerAccount, realized_fx_gain: LedgerAccount, realized_fx_loss: LedgerAccount, unrealized_fx_gain: LedgerAccount, unrealized_fx_loss: LedgerAccount) -> (r: DomainResult<Self>)
        ensures
            r == Ok::<Self, ValidationError>(AdvancedAccountingAccounts::spec_new(operating, accounts_receivable, accounts_payable, tax_liability, marketplace_clearing, marketplace_fees, chargeback_reserve, chargeback_expense, realized_fx_gain, realized_fx_loss, unrealized_fx_gain, unrealized_fx_loss)),
    {
        Ok(Self::new(operating, accounts_receivable, accounts_payable, tax_liability, marketplace_clearing, marketplace_fees, chargeback_reserve, chargeback_expense, realized_fx_gain, realized_fx_loss, unrealized_fx_gain, unrealized_fx_loss))
    }

    pub fn operating(&self) -> (r: &AccountingAccounts)
        ensures
            *r == self.spec_operating(),
    {
        &self.operating
    }

    pub fn accounts_receivable(&self) -> (r: &LedgerAccount)
        ensures
            *r == self.spec_accounts_receivable(),
    {
        &self.accounts_receivable
    }

    pub fn accounts_payable(&self) -> (r: &LedgerAccount)
        ensures
            *r == self.spec_accounts_payable(),
    {
        &self.accounts_payable
    }

    pub fn tax_liability(&self) -> (r: &LedgerAccount)
        ensures
            *r == self.spec_tax_liability(),
    {
        &self.tax_liability
    }

    pub fn marketplace_clearing(&self) -> (r: &LedgerAccount)
        ensures
            *r == self.spec_marketplace_clearing(),
    {
        &self.marketplace_clearing
    }

    pub fn marketplace_fees(&self) -> (r: &LedgerAccount)
        ensures
            *r == self.spec_marketplace_fees(),
    {
        &self.marketplace_fees
    }

    pub fn chargeback_reserve(&self) -> (r: &LedgerAccount)
        ensures
            *r == self.spec_chargeback_reserve(),
    {
        &self.chargeback_reserve
    }

    pub fn chargeback_expense(&self) -> (r: &LedgerAccount)
        ensures
            *r == self.spec_chargeback_expense(),
    {
        &self.chargeback_expense
    }

    pub fn realized_fx_gain(&self) -> (r: &LedgerAccount)
        ensures
            *r == self.spec_realized_fx_gain(),
    {
        &self.realized_fx_gain
    }

    pub fn realized_fx_loss(&self) -> (r: &LedgerAccount)
        ensures
            *r == self.spec_realized_fx_loss(),
    {
        &self.realized_fx_loss
    }

    pub fn unrealized_fx_gain(&self) -> (r: &LedgerAccount)
        ensures
            *r == self.spec_unrealized_fx_gain(),
    {
        &self.unrealized_fx_gain
    }

    pub fn unrealized_fx_loss(&self) -> (r: &LedgerAccount)
        ensures
            *r == self.spec_unrealized_fx_loss(),
    {
        &self.unrealized_fx_loss
    }
}

#[derive(Clone, Copy, Debug, PartialEq, Eq, Structural)]
pub enum PostingSide {
    Debit,
    Credit,
}

#[derive(Debug, PartialEq, Eq)]
pub struct BalancedJournalEntry {
    pub(crate) postings: Vec<Posting>,
}

impl BalancedJournalEntry {
    /// Equal fields, and equal contents for the vectors it holds.
    pub open spec fn same_content(self, other: Self) -> bool {
        self.spec_postings()@ == other.spec_postings()@
    }

    pub open(crate) spec fn spec_postings(&self) -> Vec<Posting> {
        self.postings
    }

    pub open(crate) spec fn spec_new(postings: Vec<Posting>) -> Self {
        BalancedJournalEntry { postings }
    }
}

/// The accessors of a `BalancedJournalEntry` built by `spec_new` give back its parts.
pub broadcast proof fn lemma_balanced_journal_entry_fields(postings: Vec<Posting>)
    ensures
        #[trigger] BalancedJournalEntry::spec_new(postings).spec_postings() == postings,
{
}

impl Clone for BalancedJournalEntry {
    fn clone(&self) -> (r: Self)
        ensures
            r.same_content(*self),
    {
        proof {
            use_type_invariant(self);
        }
        BalancedJournalEntry { postings: clone_vec_exact(&self.postings) }
    }
}

pub fn debit(account: LedgerAccount, amount: Money) -> (r: Posting)
    ensures
        r == (Posting::spec_new(account, PostingSide::Debit, amount)),
{
    Posting::new(account, PostingSide::Debit, amount)
}

pub fn credit(account: LedgerAccount, amount: Money) -> (r: Posting)
    ensures
        r == (Posting::spec_new(account, PostingSide::Credit, amount)),
{
    Posting::new(account, PostingSide::Credit, amount)
}

pub open spec fn debit_total_value() -> spec_fn(Posting) -> nat {
    |x: Posting| (if x.spec_side() == PostingSide::Debit { x.spec_amount() } else { 0u128 }) as nat
}

/// Sum of the debit amounts.
pub fn debit_total(postings: &[Posting]) -> (r: DomainResult<Nat>)
    ensures
        r == total_result(sum_nat(postings@, debit_total_value()) as int, "debit_total"),
{
    let mut acc: Nat = 0;
    let mut i: usize = 0;
    while i < postings.len()
        invariant
            i <= postings.len(),
            acc == sum_nat(postings@.take(i as int), debit_total_value()),
        decreases postings.len() - i,
    {
        proof {
            lemma_sum_nat_take_step(postings@, debit_total_value(), i as int);
        }
        let item: Nat = if postings[i].side == PostingSide::Debit { postings[i].amount } else { 0 };
        match acc.checked_add(item) {
            Some(v) => {
                acc = v;
            },
            None => {
                proof {
                    lemma_sum_nat_prefix_le(postings@, debit_total_value(), i + 1);
                }
                return Err(ValidationError::Overflow("debit_total"));
            },
        }
        i += 1;
    }
    proof {
        lemma_sum_nat_take_all(postings@, debit_total_value());
    }
    Ok(acc)
}


pub open spec fn credit_total_value() -> spec_fn(Posting) -> nat {
    |x: Posting| (if x.spec_side() == PostingSide::Credit { x.spec_amount() } else { 0u128 }) as nat
}

/// Sum of the credit amounts.
pub fn credit_total(postings: &[Posting]) -> (r: DomainResult<Nat>)
    ensures
        r == total_result(sum_nat(postings@, credit_total_value()) as int, "credit_total"),
{
    let mut acc: Nat = 0;
    let mut i: usize = 0;
    while i < postings.len()
        invariant
            i <= postings.len(),
            acc == sum_nat(postings@.take(i as int), credit_total_value()),
        decreases postings.len() - i,
    {
        proof {
            lemma_sum_nat_take_step(postings@, credit_total_value(), i as int);
        }
        let item: Nat = if postings[i].side == PostingSide::Credit { postings[i].amount } else { 0 };
        match acc.checked_add(item) {
            Some(v) => {
                acc = v;
            },
            None => {
                proof {
                    lemma_sum_nat_prefix_le(postings@, credit_total_value(), i + 1);
                }
                return Err(ValidationError::Overflow("credit_total"));
            },
        }
        i += 1;
    }
    proof {
        lemma_sum_nat_take_all(postings@, credit_total_value());
    }
    Ok(acc)
}


/// The first reason a list of postings is not a balanced entry, if any.
pub open spec fn journal_error(postings: Seq<Posting>) -> Option<ValidationError> {
    let debits = total_result(sum_nat(postings, debit_total_value()) as int, "debit_total");
    let credits = total_result(sum_nat(postings, credit_total_value()) as int, "credit_total");
    if debits is Err {
        Some(debits->Err_0)
    } else if credits is Err {
        Some(credits->Err_0)
    } else if debits->Ok_0 != credits->Ok_0 {
        Some(ValidationError::Invariant("journal entry is not balanced"))
    } else {
        None
    }
}

impl BalancedJournalEntry {
    #[verifier::type_invariant]
    pub open spec fn valid(self) -> bool {
        journal_error(self.spec_postings()@) is None
    }

    pub fn try_new(postings: Vec<Posting>) -> (r: DomainResult<Self>)
        ensures
            r == (match journal_error(postings@) {
                Some(e) => Err(e),
                None => Ok(BalancedJournalEntry::spec_new(postings)),
            }),
    {
        let debits = match debit_total(postings.as_slice()) {
            Ok(d) => d,
            Err(e) => return Err(e),
        };
        let credits = match credit_total(postings.as_slice()) {
            Ok(c) => c,
            Err(e) => return Err(e),
        };
        if debits != credits {
            return Err(ValidationError::Invariant("journal entry is not balanced"));
        }
        Ok(Self { postings })
    }

    pub fn postings(&self) -> (r: &[Posting])
        ensures
            r@ == self.spec_postings()@,
    {
        self.postings.as_slice()
    }
}

/// Debit and credit totals of a journal of postings, by side.
pub proof fn lemma_sides_of_postings(postings: Seq<Posting>)
    ensures
        postings.len() == 2 ==> sum_nat(postings, debit_total_value()) == (if postings[0].spec_side() == PostingSide::Debit { postings[0].spec_amount() as nat } else { 0 }) + (if postings[1].spec_side() == PostingSide::Debit { postings[1].spec_amount() as nat } else { 0 }),
        postings.len() == 2 ==> sum_nat(postings, credit_total_value()) == (if postings[0].spec_side() == PostingSide::Credit { postings[0].spec_amount() as nat } else { 0 }) + (if postings[1].spec_side() == PostingSide::Credit { postings[1].spec_amount() as nat } else { 0 }),
{
    if postings.len() == 2 {
        reveal_with_fuel(sum_nat, 3);
        assert(postings.drop_last().drop_last().len() == 0);
    }
}

fn two_posting_journal(debit_account: LedgerAccount, credit_account: LedgerAccount, amount: Money) -> (r: DomainResult<BalancedJournalEntry>)
    ensures
        r is Ok,
        r matches Ok(j) ==> j.postings@ == seq![
            Posting { account: debit_account, side: PostingSide::Debit, amount },
            Posting { account: credit_account, side: PostingSide::Credit, amount },
        ],
{
    let mut postings: Vec<Posting> = Vec::new();
    postings.push(debit(debit_account, amount));
    postings.push(credit(credit_account, amount));
    proof {
        lemma_sides_of_postings(postings@);
    }
    BalancedJournalEntry::try_new(postings)
}

/// Payment capture: debit cash, credit deferred revenue.
pub fn payment_captured_journal(accounts: &AccountingAccounts, amount: Money) -> (r: DomainResult<BalancedJournalEntry>)
    ensures
        r is Ok,
        r matches Ok(j) ==> j.spec_postings()@ == seq![
            Posting::spec_new(accounts.spec_cash(), PostingSide::Debit, amount),
            Posting::spec_new(accounts.spec_deferred_revenue(), PostingSide::Credit, amount),
        ],
{
    two_posting_journal(accounts.cash.clone(), accounts.deferred_revenue.clone(), amount)
}

/// Refund: debit refunds, credit cash.
pub fn refund_issued_journal(accounts: &AccountingAccounts, amount: Money) -> (r: DomainResult<BalancedJournalEntry>)
    ensures
        r is Ok,
        r matches Ok(j) ==> j.spec_postings()@ == seq![
            Posting::spec_new(accounts.spec_refunds(), PostingSide::Debit, amount),
            Posting::spec_new(accounts.spec_cash(), PostingSide::Credit, amount),
        ],
{
    two_posting_journal(accounts.refunds.clone(), accounts.cash.clone(), amount)
}

/// Collection: debit cash, credit accounts receivable.
pub fn receivable_collection_journal(accounts: &AdvancedAccountingAccounts, amount: Money) -> (r: DomainResult<BalancedJournalEntry>)
    ensures
        r is Ok,
        r matches Ok(j) ==> j.spec_postings()@ == seq![
            Posting::spec_new(accounts.spec_operating().spec_cash(), PostingSide::Debit, amount),
            Posting::spec_new(accounts.spec_accounts_receivable(), PostingSide::Credit, amount),
        ],
{
    two_posting_journal(accounts.operating.cash.clone(), accounts.accounts_receivable.clone(), amount)
}

/// Supplier bill: debit inventory, credit accounts payable.
pub fn supplier_bill_journal(accounts: &AdvancedAccountingAccounts, amount: Money) -> (r: DomainResult<BalancedJournalEntry>)
    ensures
        r is Ok,
        r matches Ok(j) ==> j.spec_postings()@ == seq![
            Posting::spec_new(accounts.spec_operating().spec_inventory(), PostingSide::Debit, amount),
            Posting::spec_new(accounts.spec_accounts_payable(), PostingSide::Credit, amount),
        ],
{
    two_posting_journal(accounts.operating.inventory.clone(), accounts.accounts_payable.clone(), amount)
}

/// Supplier payment: debit accounts payable, credit cash.
pub fn supplier_payment_journal(accounts: &AdvancedAccountingAccounts, amount: Money) -> (r: DomainResult<BalancedJournalEntry>)
    ensures
        r is Ok,
        r matches Ok(j) ==> j.spec_postings()@ == seq![
            Posting::spec_new(accounts.spec_accounts_payable(), PostingSide::Debit, amount),
            Posting::spec_new(accounts.spec_operating().spec_cash(), PostingSide::Credit, amount),
        ],
{
    two_posting_journal(accounts.accounts_payable.clone(), accounts.operating.cash.clone(), amount)
}

/// Marketplace sale: debit clearing, credit revenue.
pub fn marketplace_sale_clearing_journal(accounts: &AdvancedAccountingAccounts, gross: Money) -> (r: DomainResult<BalancedJournalEntry>)
    ensures
        r is Ok,
        r matches Ok(j) ==> j.spec_postings()@ == seq![
            Posting::spec_new(accounts.spec_marketplace_clearing(), PostingSide::Debit, gross),
            Posting::spec_new(accounts.spec_operating().spec_revenue(), PostingSide::Credit, gross),
        ],
{
    two_posting_journal(accounts.marketplace_clearing.clone(), accounts.operating.revenue.clone(), gross)
}

/// Chargeback reserve: debit chargeback expense, credit the reserve.
pub fn chargeback_reserve_journal(accounts: &AdvancedAccountingAccounts, amount: Money) -> (r: DomainResult<BalancedJournalEntry>)
    ensures
        r is Ok,
        r matches Ok(j) ==> j.spec_postings()@ == seq![
            Posting::spec_new(accounts.spec_chargeback_expense(), PostingSide::Debit, amount),
            Posting::spec_new(accounts.spec_chargeback_reserve(), PostingSide::Credit, amount),
        ],
{
    two_posting_journal(accounts.chargeback_expense.clone(), accounts.chargeback_reserve.clone(), amount)
}

/// Chargeback settlement: debit the reserve, credit cash.
pub fn chargeback_settlement_journal(accounts: &AdvancedAccountingAccounts, amount: Money) -> (r: DomainResult<BalancedJournalEntry>)
    ensures
        r is Ok,
        r matches Ok(j) ==> j.spec_postings()@ == seq![
            Posting::spec_new(accounts.spec_chargeback_reserve(), PostingSide::Debit, amount),
            Posting::spec_new(accounts.spec_operating().spec_cash(), PostingSide::Credit, amount),
        ],
{
    two_posting_journal(accounts.chargeback_reserve.clone(), accounts.operating.cash.clone(), amount)
}

/// Unrealized FX gain: debit receivable, credit unrealized gain.
pub fn unrealized_fx_gain_journal(accounts: &AdvancedAccountingAccounts, amount: Money) -> (r: DomainResult<BalancedJournalEntry>)
    ensures
        r is Ok,
        r matches Ok(j) ==> j.spec_postings()@ == seq![
            Posting::spec_new(accounts.spec_accounts_receivable(), PostingSide::Debit, amount),
            Posting::spec_new(accounts.spec_unrealized_fx_gain(), PostingSide::Credit, amount),
        ],
{
    two_posting_journal(accounts.accounts_receivable.clone(), accounts.unrealized_fx_gain.clone(), amount)
}

/// Unrealized FX loss: debit unrealized loss, credit receivable.
pub fn unrealized_fx_loss_journal(accounts: &AdvancedAccountingAccounts, amount: Money) -> (r: DomainResult<BalancedJournalEntry>)
    ensures
        r is Ok,
        r matches Ok(j) ==> j.spec_postings()@ == seq![
            Posting::spec_new(accounts.spec_unrealized_fx_loss(), PostingSide::Debit, amount),
            Posting::spec_new(accounts.spec_accounts_receivable(), PostingSide::Credit, amount),
        ],
{
    two_posting_journal(accounts.unrealized_fx_loss.clone(), accounts.accounts_receivable.clone(), amount)
}

/// Realized FX gain: debit cash, credit realized gain.
pub fn realized_fx_gain_journal(accounts: &AdvancedAccountingAccounts, amount: Money) -> (r: DomainResult<BalancedJournalEntry>)
    ensures
        r is Ok,
        r matches Ok(j) ==> j.spec_postings()@ == seq![
            Posting::spec_new(accounts.spec_operating().spec_cash(), PostingSide::Debit, amount),
            Posting::spec_new(accounts.spec_realized_fx_gain(), PostingSide::Credit, amount),
        ],
{
    two_posting_journal(accounts.operating.cash.clone(), accounts.realized_fx_gain.clone(), amount)
}

/// Realized FX loss: debit realized loss, credit cash.
pub fn realized_fx_loss_journal(accounts: &AdvancedAccountingAccounts, amount: Money) -> (r: DomainResult<BalancedJournalEntry>)
    ensures
        r is Ok,
        r matches Ok(j) ==> j.spec_postings()@ == seq![
            Posting::spec_new(accounts.spec_realized_fx_loss(), PostingSide::Debit, amount),
            Posting::spec_new(accounts.spec_operating().spec_cash(), PostingSide::Credit, amount),
        ],
{
    two_posting_journal(accounts.realized_fx_loss.clone(), accounts.operating.cash.clone(), amount)
}

/// Three postings of one debit against two credits that add up to it.
proof fn lemma_three_posting_sides(postings: Seq<Posting>)
    requires
        postings.len() == 3,
        postings[0].side == PostingSide::Debit,
        postings[1].side == PostingSide::Credit,
        postings[2].side == PostingSide::Credit,
    ensures
        sum_nat(postings, debit_total_value()) == postings[0].amount,
        sum_nat(postings, credit_total_value()) == postings[1].amount + postings[2].amount,
{
    reveal_with_fuel(sum_nat, 4);
    assert(postings.drop_last().drop_last().drop_last().len() == 0);
}

fn sale_journal(debit_account: LedgerAccount, revenue: LedgerAccount, tax_liability: LedgerAccount, subtotal: Money, tax: Money, total: Money) -> (r: DomainResult<BalancedJournalEntry>)
    requires
        total == subtotal + tax,
    ensures
        r is Ok,
        r matches Ok(j) ==> j.postings@ == seq![
            Posting { account: debit_account, side: PostingSide::Debit, amount: total },
            Posting { account: revenue, side: PostingSide::Credit, amount: subtotal },
            Posting { account: tax_liability, side: PostingSide::Credit, amount: tax },
        ],
{
    let mut postings: Vec<Posting> = Vec::new();
    postings.push(debit(debit_account, total));
    postings.push(credit(revenue, subtotal));
    postings.push(credit(tax_liability, tax));
    proof {
        lemma_three_posting_sides(postings@);
    }
    BalancedJournalEntry::try_new(postings)
}

/// Invoice accrual: debit receivable by the total, credit revenue and tax;
/// the total must be the subtotal plus tax.
pub fn invoice_accrual_journal(accounts: &AdvancedAccountingAccounts, subtotal: Money, tax: Money, total: Money) -> (r: DomainResult<BalancedJournalEntry>)
    ensures
        subtotal + tax > u128::MAX ==> r == Err::<BalancedJournalEntry, ValidationError>(ValidationError::Overflow("invoice accrual total")),
        subtotal + tax <= u128::MAX && total != subtotal + tax ==> r == Err::<BalancedJournalEntry, ValidationError>(ValidationError::AccountingInvariantFailed),
        total == subtotal + tax ==> r is Ok,
        r matches Ok(j) ==> j.spec_postings()@ == seq![
            Posting::spec_new(accounts.spec_accounts_receivable(), PostingSide::Debit, total),
            Posting::spec_new(accounts.spec_operating().spec_revenue(), PostingSide::Credit, subtotal),
            Posting::spec_new(accounts.spec_tax_liability(), PostingSide::Credit, tax),
        ],
{
    match checked_add(subtotal, tax, "invoice accrual total") {
        Err(e) => return Err(e),
        Ok(sum) => if total != sum {
            return Err(ValidationError::AccountingInvariantFailed);
        },
    }
    sale_journal(accounts.accounts_receivable.clone(), accounts.operating.revenue.clone(), accounts.tax_liability.clone(), subtotal, tax, total)
}

/// Cash sale: debit cash by the total, credit revenue and tax; the total must
/// be the subtotal plus tax.
pub fn cash_sale_journal(accounts: &AdvancedAccountingAccounts, subtotal: Money, tax: Money, total: Money) -> (r: DomainResult<BalancedJournalEntry>)
    ensures
        subtotal + tax > u128::MAX ==> r == Err::<BalancedJournalEntry, ValidationError>(ValidationError::Overflow("cash sale total")),
        subtotal + tax <= u128::MAX && total != subtotal + tax ==> r == Err::<BalancedJournalEntry, ValidationError>(ValidationError::AccountingInvariantFailed),
        total == subtotal + tax ==> r is Ok,
        r matches Ok(j) ==> j.spec_postings()@ == seq![
            Posting::spec_new(accounts.spec_operating().spec_cash(), PostingSide::Debit, total),
            Posting::spec_new(accounts.spec_operating().spec_revenue(), PostingSide::Credit, subtotal),
            Posting::spec_new(accounts.spec_tax_liability(), PostingSide::Credit, tax),
        ],
{
    match checked_add(subtotal, tax, "cash sale total") {
        Err(e) => return Err(e),
        Ok(sum) => if total != sum {
            return Err(ValidationError::AccountingInvariantFailed);
        },
    }
    sale_journal(accounts.operating.cash.clone(), accounts.operating.revenue.clone(), accounts.tax_liability.clone(), subtotal, tax, total)
}

/// Marketplace settlement: debit cash by the payout and fees by the fee,
/// credit clearing by the gross; payout plus fee must equal the gross.
pub fn marketplace_settlement_journal(accounts: &AdvancedAccountingAccounts, gross: Money, fee: Money, payout: Money) -> (r: DomainResult<BalancedJournalEntry>)
    ensures
        payout + fee > u128::MAX ==> r == Err::<BalancedJournalEntry, ValidationError>(ValidationError::Overflow("marketplace settlement")),
        payout + fee <= u128::MAX && payout + fee != gross ==> r == Err::<BalancedJournalEntry, ValidationError>(ValidationError::AccountingInvariantFailed),
        payout + fee == gross ==> r is Ok,
        r matches Ok(j) ==> j.spec_postings()@ == seq![
            Posting::spec_new(accounts.spec_operating().spec_cash(), PostingSide::Debit, payout),
            Posting::spec_new(accounts.spec_marketplace_fees(), PostingSide::Debit, fee),
            Posting::spec_new(accounts.spec_marketplace_clearing(), PostingSide::Credit, gross),
        ],
{
    match checked_add(payout, fee, "marketplace settlement") {
        Err(e) => return Err(e),
        Ok(sum) => if sum != gross {
            return Err(ValidationError::AccountingInvariantFailed);
        },
    }
    let mut postings: Vec<Posting> = Vec::new();
    postings.push(debit(accounts.operating.cash.clone(), payout));
    postings.push(debit(accounts.marketplace_fees.clone(), fee));
    postings.push(credit(accounts.marketplace_clearing.clone(), gross));
    proof {
        reveal_with_fuel(sum_nat, 4);
        assert(postings@.drop_last().drop_last().drop_last().len() == 0);
    }
    BalancedJournalEntry::try_new(postings)
}

/// Marketplace payout reconciliation: payout, fee, refund, reserve and tax are
/// debited against the gross credited from clearing, and must add up to it.
pub fn marketplace_payout_reconciliation_journal(accounts: &AdvancedAccountingAccounts, gross: Money, fee: Money, refund: Money, reserve: Money, tax: Money, payout: Money) -> (r: DomainResult<BalancedJournalEntry>)
    ensures
        payout + fee + refund + reserve + tax > u128::MAX ==> r == Err::<BalancedJournalEntry, ValidationError>(ValidationError::Overflow("marketplace reconciliation")),
        payout + fee + refund + reserve + tax <= u128::MAX && payout + fee + refund + reserve + tax != gross ==> r == Err::<BalancedJournalEntry, ValidationError>(ValidationError::AccountingInvariantFailed),
        payout + fee + refund + reserve + tax == gross ==> r is Ok,
        r matches Ok(j) ==> j.spec_postings()@ == seq![
            Posting::spec_new(accounts.spec_operating().spec_cash(), PostingSide::Debit, payout),
            Posting::spec_new(accounts.spec_marketplace_fees(), PostingSide::Debit, fee),
            Posting::spec_new(accounts.spec_operating().spec_refunds(), PostingSide::Debit, refund),
            Posting::spec_new(accounts.spec_chargeback_reserve(), PostingSide::Debit, reserve),
            Posting::spec_new(accounts.spec_tax_liability(), PostingSide::Debit, tax),
            Posting::spec_new(accounts.spec_marketplace_clearing(), PostingSide::Credit, gross),
        ],
{
    let mut parts: Vec<Nat> = Vec::new();
    parts.push(payout);
    parts.push(fee);
    parts.push(refund);
    parts.push(reserve);
    parts.push(tax);
    proof {
        reveal_with_fuel(sum_nat, 6);
        assert(parts@.drop_last().drop_last().drop_last().drop_last().drop_last().len() == 0);
    }
    match checked_sum(parts.as_slice(), "marketplace reconciliation") {
        Err(e) => return Err(e),
        Ok(debits) => if debits != gross {
            return Err(ValidationError::AccountingInvariantFailed);
        },
    }
    let mut postings: Vec<Posting> = Vec::new();
    postings.push(debit(accounts.operating.cash.clone(), payout));
    postings.push(debit(accounts.marketplace_fees.clone(), fee));
    postings.push(debit(accounts.operating.refunds.clone(), refund));
    postings.push(debit(accounts.chargeback_reserve.clone(), reserve));
    postings.push(debit(accounts.tax_liability.clone(), tax));
    postings.push(credit(accounts.marketplace_clearing.clone(), gross));
    proof {
        reveal_with_fuel(sum_nat, 7);
        assert(postings@.drop_last().drop_last().drop_last().drop_last().drop_last().drop_last().len() == 0);
    }
    BalancedJournalEntry::try_new(postings)
}

/// Every journal entry that validates has equal debit and credit totals.
pub proof fn lemma_validated_journal_balances(postings: Seq<Posting>)
    requires
        journal_error(postings) is None,
    ensures
        sum_nat(postings, debit_total_value()) == sum_nat(postings, credit_total_value()),
        sum_nat(postings, debit_total_value()) <= u128::MAX,
{
}

/// The accessor lemmas for the records of this module.
pub broadcast group group_accounting_record_fields {
    lemma_ledger_account_fields,
    lemma_posting_fields,
    lemma_accounting_accounts_fields,
    lemma_advanced_accounting_accounts_fields,
    lemma_balanced_journal_entry_fields,
}

} // verus!
