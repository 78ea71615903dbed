//! Retail and wholesale trade: customers, payment terms, price books, lines
//! and wholesale credit.

use vstd::prelude::*;
use crate::foundation::{Currency, CustomerId, DomainResult, Money, Nat, Quantity, Sku, ValidationError, checked_add, checked_mul, checked_result_sum, mul_result, nat_sub, nat_sub_spec, result_sum};
use crate::pricing::{order_total};

verus! {

#[derive(Debug, PartialEq, Eq, Structural)]
pub struct Customer {
    pub(crate) id: CustomerId,
    pub(crate) kind: CustomerKind,
    pub(crate) wholesale_approved: bool,
}

impl Customer {
    pub open(crate) spec fn spec_id(&self) -> CustomerId {
        self.id
    }

    pub open(crate) spec fn spec_kind(&self) -> CustomerKind {
        self.kind
    }

    pub open(crate) spec fn spec_wholesale_approved(&self) -> bool {
        self.wholesale_approved
    }

    pub open(crate) spec fn spec_new(id: CustomerId, kind: CustomerKind, wholesale_approved: bool) -> Self {
        Customer { id, kind, wholesale_approved }
    }
}

/// The accessors of a `Customer` built by `spec_new` give back its parts.
pub broadcast proof fn lemma_customer_fields(id: CustomerId, kind: CustomerKind, wholesale_approved: bool)
    ensures
        #[trigger] Customer::spec_new(id, kind, wholesale_approved).spec_id() == id
            && Customer::spec_new(id, kind, wholesale_approved).spec_kind() == kind
            && Customer::spec_new(id, kind, wholesale_approved).spec_wholesale_approved() == wholesale_approved,
{
}

impl Clone for Customer {
    fn clone(&self) -> (r: Self)
        ensures
            r == *self,
    {
        Customer { id: self.id, kind: self.kind, wholesale_approved: self.wholesale_approved }
    }
}

impl Customer {
    pub fn new(id: CustomerId, kind: CustomerKind, wholesale_approved: bool) -> (r: Self)
        ensures
            r == (Customer::spec_new(id, kind, wholesale_approved)),
    {
        Customer { id, kind, wholesale_approved }
    }

    pub fn try_new(id: CustomerId, kind: CustomerKind, wholesale_approved: bool) -> (r: DomainResult<Self>)
        ensures
            r == Ok::<Self, ValidationError>(Customer::spec_new(id, kind, wholesale_approved)),
    {
        Ok(Self::new(id, kind, wholesale_approved))
    }

    pub fn id(&self) -> (r: CustomerId)
        ensures
            r == self.spec_id(),
    {
        self.id
    }

    pub fn kind(&self) -> (r: CustomerKind)
        ensures
            r == self.spec_kind(),
    {
        self.kind
    }

    pub fn wholesale_approved(&self) -> (r: bool)
        ensures
            r == self.spec_wholesale_approved(),
    {
        self.wholesale_approved
    }
}

#[derive(Clone, Copy, Debug, PartialEq, Eq, Structural)]
pub enum TradeMode {
    Retail,
    Wholesale,
}

#[derive(Clone, Copy, Debug, PartialEq, Eq, Structural)]
pub enum CustomerKind {
    Guest,
    Registered,
    WholesaleAccount,
}

#[derive(Clone, Copy, Debug, PartialEq, Eq, Structural)]
pub enum PaymentTerms {
    Prepaid,
    NetDays(Nat),
}

#[derive(Debug, PartialEq, Eq, Structural)]
pub struct TradePriceBookEntry {
    pub(crate) sku: Sku,
    pub(crate) currency: Currency,
    pub(crate) unit_cost: Money,
    pub(crate) retail_unit_price: Money,
    pub(crate) wholesale_unit_price: Money,
    pub(crate) retail_margin: Money,
    pub(crate) wholesale_margin: Money,
    pub(crate) wholesale_min_qty: Quantity,
}

impl TradePriceBookEntry {
    /// Every value satisfies what `try_new` checks.
    #[verifier::type_invariant]
    pub open spec fn valid(self) -> bool {
        trade_price_book_error(self.spec_unit_cost(), self.spec_retail_unit_price(), self.spec_wholesale_unit_price(), self.spec_retail_margin(), self.spec_wholesale_margin(), self.spec_wholesale_min_qty()) is None
    }

    pub open(crate) spec fn spec_sku(&self) -> Sku {
        self.sku
    }

    pub open(crate) spec fn spec_currency(&self) -> Currency {
        self.currency
    }

    pub open(crate) spec fn spec_unit_cost(&self) -> Money {
        self.unit_cost
    }

    pub open(crate) spec fn spec_retail_unit_price(&self) -> Money {
        self.retail_unit_price
    }

    pub open(crate) spec fn spec_wholesale_unit_price(&self) -> Money {
        self.wholesale_unit_price
    }

    pub open(crate) spec fn spec_retail_margin(&self) -> Money {
        self.retail_margin
    }

    pub open(crate) spec fn spec_wholesale_margin(&self) -> Money {
        self.wholesale_margin
    }

    pub open(crate) spec fn spec_wholesale_min_qty(&self) -> Quantity {
        self.wholesale_min_qty
    }

    pub open(crate) spec fn spec_new(sku: Sku, currency: Currency, unit_cost: Money, retail_unit_price: Money, wholesale_unit_price: Money, retail_margin: Money, wholesale_margin: Money, wholesale_min_qty: Quantity) -> Self {
        TradePriceBookEntry { sku, currency, unit_cost, retail_unit_price, wholesale_unit_price, retail_margin, wholesale_margin, wholesale_min_qty }
    }
}

/// The accessors of a `TradePriceBookEntry` built by `spec_new` give back its parts.
pub broadcast proof fn lemma_trade_price_book_entry_fields(sku: Sku, currency: Currency, unit_cost: Money, retail_unit_price: Money, wholesale_unit_price: Money, retail_margin: Money, wholesale_margin: Money, wholesale_min_qty: Quantity)
    ensures
        #[trigger] TradePriceBookEntry::spec_new(sku, currency, unit_cost, retail_unit_price, wholesale_unit_price, retail_margin, wholesale_margin, wholesale_min_qty).spec_sku() == sku
            && TradePriceBookEntry::spec_new(sku, currency, unit_cost, retail_unit_price, wholesale_unit_price, retail_margin, wholesale_margin, wholesale_min_qty).spec_currency() == currency
            && TradePriceBookEntry::spec_new(sku, currency, unit_cost, retail_unit_price, wholesale_unit_price, retail_margin, wholesale_margin, wholesale_min_qty).spec_unit_cost() == unit_cost
            && TradePriceBookEntry::spec_new(sku, currency, unit_cost, retail_unit_price, wholesale_unit_price, retail_margin, wholesale_margin, wholesale_min_qty).spec_retail_unit_price() == retail_unit_price
            && TradePriceBookEntry::spec_new(sku, currency, unit_cost, retail_unit_price, wholesale_unit_price, retail_margin, wholesale_margin, wholesale_min_qty).spec_wholesale_unit_price() == wholesale_unit_price
            && TradePriceBookEntry::spec_new(sku, currency, unit_cost, retail_unit_price, wholesale_unit_price, retail_margin, wholesale_margin, wholesale_min_qty).spec_retail_margin() == retail_margin
            && TradePriceBookEntry::spec_new(sku, currency, unit_cost, retail_unit_price, wholesale_unit_price, retail_margin, wholesale_margin, wholesale_min_qty).spec_wholesale_margin() == wholesale_margin
            && TradePriceBookEntry::spec_new(sku, currency, unit_cost, retail_unit_price, wholesale_unit_price, retail_margin, wholesale_margin, wholesale_min_qty).spec_wholesale_min_qty() == wholesale_min_qty,
{
}

impl Clone for TradePriceBookEntry {
    fn clone(&self) -> (r: Self)
        ensures
            r == *self,
    {
        proof {
            use_type_invariant(self);
        }
        TradePriceBookEntry { sku: self.sku, currency: self.currency, unit_cost: self.unit_cost, retail_unit_price: self.retail_unit_price, wholesale_unit_price: self.wholesale_unit_price, retail_margin: self.retail_margin, wholesale_margin: self.wholesale_margin, wholesale_min_qty: self.wholesale_min_qty }
    }
}

#[derive(Debug, PartialEq, Eq, Structural)]
pub struct RetailLine {
    pub(crate) entry: TradePriceBookEntry,
    pub(crate) quantity: Quantity,
    pub(crate) discount: Money,
}

impl RetailLine {
    /// Every value satisfies what `try_new` checks.
    #[verifier::type_invariant]
    pub open spec fn valid(self) -> bool {
        self.spec_discount() <= self.spec_entry().spec_retail_unit_price() * self.spec_quantity() <= u128::MAX
    }

    pub open(crate) spec fn spec_entry(&self) -> TradePriceBookEntry {
        self.entry
    }

    pub open(crate) spec fn spec_quantity(&self) -> Quantity {
        self.quantity
    }

    pub open(crate) spec fn spec_discount(&self) -> Money {
        self.discount
    }

    pub open(crate) spec fn spec_new(entry: TradePriceBookEntry, quantity: Quantity, discount: Money) -> Self {
        RetailLine { entry, quantity, discount }
    }
}

/// The accessors of a `RetailLine` built by `spec_new` give back its parts.
pub broadcast proof fn lemma_retail_line_fields(entry: TradePriceBookEntry, quantity: Quantity, discount: Money)
    ensures
        #[trigger] RetailLine::spec_new(entry, quantity, discount).spec_entry() == entry
            && RetailLine::spec_new(entry, quantity, discount).spec_quantity() == quantity
            && RetailLine::spec_new(entry, quantity, discount).spec_discount() == discount,
{
}

impl Clone for RetailLine {
    fn clone(&self) -> (r: Self)
        ensures
            r == *self,
    {
        proof {
            use_type_invariant(self);
        }
        RetailLine { entry: self.entry.clone(), quantity: self.quantity, discount: self.discount }
    }
}

#[derive(Debug, PartialEq, Eq, Structural)]
pub struct WholesaleLine {
    pub(crate) entry: TradePriceBookEntry,
    pub(crate) quantity: Quantity,
    pub(crate) discount: Money,
}

impl WholesaleLine {
    /// Every value satisfies what `try_new` checks.
    #[verifier::type_invariant]
    pub open spec fn valid(self) -> bool {
        self.spec_quantity() >= self.spec_entry().spec_wholesale_min_qty() && self.spec_discount() <= self.spec_entry().spec_wholesale_unit_price() * self.spec_quantity() <= u128::MAX
    }

    pub open(crate) spec fn spec_entry(&self) -> TradePriceBookEntry {
        self.entry
    }

    pub open(crate) spec fn spec_quantity(&self) -> Quantity {
        self.quantity
    }

    pub open(crate) spec fn spec_discount(&self) -> Money {
        self.discount
    }

    pub open(crate) spec fn spec_new(entry: TradePriceBookEntry, quantity: Quantity, discount: Money) -> Self {
        WholesaleLine { entry, quantity, discount }
    }
}

/// The accessors of a `WholesaleLine` built by `spec_new` give back its parts.
pub broadcast proof fn lemma_wholesale_line_fields(entry: TradePriceBookEntry, quantity: Quantity, discount: Money)
    ensures
        #[trigger] WholesaleLine::spec_new(entry, quantity, discount).spec_entry() == entry
            && WholesaleLine::spec_new(entry, quantity, discount).spec_quantity() == quantity
            && WholesaleLine::spec_new(entry, quantity, discount).spec_discount() == discount,
{
}

impl Clone for WholesaleLine {
    fn clone(&self) -> (r: Self)
        ensures
            r == *self,
    {
        proof {
            use_type_invariant(self);
        }
        WholesaleLine { entry: self.entry.clone(), quantity: self.quantity, discount: self.discount }
    }
}

#[derive(Debug, PartialEq, Eq, Structural)]
pub struct WholesaleCreditAccount {
    pub(crate) customer: Customer,
    pub(crate) credit_limit: Money,
    pub(crate) outstanding: Money,
}

impl WholesaleCreditAccount {
    /// Every value satisfies what `try_new` checks.
    #[verifier::type_invariant]
    pub open spec fn valid(self) -> bool {
        (self.spec_customer().spec_kind() == CustomerKind::WholesaleAccount && self.spec_customer().spec_wholesale_approved()) && self.spec_outstanding() <= self.spec_credit_limit()
    }

    pub open(crate) spec fn spec_customer(&self) -> Customer {
        self.customer
    }

    pub open(crate) spec fn spec_credit_limit(&self) -> Money {
        self.credit_limit
    }

    pub open(crate) spec fn spec_outstanding(&self) -> Money {
        self.outstanding
    }

    pub open(crate) spec fn spec_new(customer: Customer, credit_limit: Money, outstanding: Money) -> Self {
        WholesaleCreditAccount { customer, credit_limit, outstanding }
    }
}

/// The accessors of a `WholesaleCreditAccount` built by `spec_new` give back its parts.
pub broadcast proof fn lemma_wholesale_credit_account_fields(customer: Customer, credit_limit: Money, outstanding: Money)
    ensures
        #[trigger] WholesaleCreditAccount::spec_new(customer, credit_limit, outstanding).spec_customer() == customer
            && WholesaleCreditAccount::spec_new(customer, credit_limit, outstanding).spec_credit_limit() == credit_limit
            && WholesaleCreditAccount::spec_new(customer, credit_limit, outstanding).spec_outstanding() == outstanding,
{
}

impl Clone for WholesaleCreditAccount {
    fn clone(&self) -> (r: Self)
        ensures
            r == *self,
    {
        proof {
            use_type_invariant(self);
        }
        WholesaleCreditAccount { customer: self.customer.clone(), credit_limit: self.credit_limit, outstanding: self.outstanding }
    }
}

impl TradePriceBookEntry {
    pub fn sku(&self) -> (r: Sku)
        ensures
            r == self.spec_sku(),
    {
        self.sku
    }

    pub fn currency(&self) -> (r: Currency)
        ensures
            r == self.spec_currency(),
    {
        self.currency
    }

    pub fn unit_cost(&self) -> (r: Money)
        ensures
            r == self.spec_unit_cost(),
    {
        self.unit_cost
    }

    pub fn retail_unit_price(&self) -> (r: Money)
        ensures
            r == self.spec_retail_unit_price(),
    {
        self.retail_unit_price
    }

    pub fn wholesale_unit_price(&self) -> (r: Money)
        ensures
            r == self.spec_wholesale_unit_price(),
    {
        self.wholesale_unit_price
    }

    pub fn retail_margin(&self) -> (r: Money)
        ensures
            r == self.spec_retail_margin(),
    {
        self.retail_margin
    }

    pub fn wholesale_margin(&self) -> (r: Money)
        ensures
            r == self.spec_wholesale_margin(),
    {
        self.wholesale_margin
    }

    pub fn wholesale_min_qty(&self) -> (r: Quantity)
        ensures
            r == self.spec_wholesale_min_qty(),
    {
        self.wholesale_min_qty
    }
}

impl RetailLine {
    pub fn entry(&self) -> (r: &TradePriceBookEntry)
        ensures
            *r == self.spec_entry(),
    {
        &self.entry
    }

    pub fn quantity(&self) -> (r: Quantity)
        ensures
            r == self.spec_quantity(),
    {
        self.quantity
    }

    pub fn discount(&self) -> (r: Money)
        ensures
            r == self.spec_discount(),
    {
        self.discount
    }
}

impl WholesaleLine {
    pub fn entry(&self) -> (r: &TradePriceBookEntry)
        ensures
            *r == self.spec_entry(),
    {
        &self.entry
    }

    pub fn quantity(&self) -> (r: Quantity)
        ensures
            r == self.spec_quantity(),
    {
        self.quantity
    }

    pub fn discount(&self) -> (r: Money)
        ensures
            r == self.spec_discount(),
    {
        self.discount
    }
}

impl WholesaleCreditAccount {
    pub fn customer(&self) -> (r: &Customer)
        ensures
            *r == self.spec_customer(),
    {
        &self.customer
    }

    pub fn credit_limit(&self) -> (r: Money)
        ensures
            r == self.spec_credit_limit(),
    {
        self.credit_limit
    }

    pub fn outstanding(&self) -> (r: Money)
        ensures
            r == self.spec_outstanding(),
    {
        self.outstanding
    }
}

pub fn customer_can_buy_wholesale(customer: &Customer) -> (r: bool)
    ensures
        r == (customer.spec_kind() == CustomerKind::WholesaleAccount && customer.spec_wholesale_approved()),
{
    customer.kind == CustomerKind::WholesaleAccount && customer.wholesale_approved
}

/// Net-days terms are for wholesale only; prepaid is always allowed.
pub fn payment_terms_allowed(mode: TradeMode, terms: PaymentTerms) -> (r: bool)
    ensures
        r == !(mode == TradeMode::Retail && terms is NetDays),
{
    match (mode, terms) {
        (TradeMode::Retail, PaymentTerms::NetDays(_)) => false,
        _ => true,
    }
}

/// The first check a price-book entry fails, if any.
pub open spec fn trade_price_book_error(unit_cost: u128, retail_unit_price: u128, wholesale_unit_price: u128, retail_margin: u128, wholesale_margin: u128, wholesale_min_qty: u128) -> Option<ValidationError> {
    if unit_cost + retail_margin > u128::MAX {
        Some(ValidationError::Overflow("retail margin"))
    } else if unit_cost + retail_margin > retail_unit_price {
        Some(ValidationError::Invariant("retail margin is unsafe"))
    } else if unit_cost + wholesale_margin > u128::MAX {
        Some(ValidationError::Overflow("wholesale margin"))
    } else if unit_cost + wholesale_margin > wholesale_unit_price {
        Some(ValidationError::Invariant("wholesale margin is unsafe"))
    } else if wholesale_unit_price > retail_unit_price {
        Some(ValidationError::Invariant("wholesale price exceeds retail price"))
    } else if wholesale_min_qty == 0 {
        Some(ValidationError::Invariant("wholesale minimum quantity must be positive"))
    } else {
        None
    }
}

impl TradePriceBookEntry {
    pub fn try_new(sku: Sku, currency: Currency, unit_cost: Money, retail_unit_price: Money, wholesale_unit_price: Money, retail_margin: Money, wholesale_margin: Money, wholesale_min_qty: Quantity) -> (r: DomainResult<Self>)
        ensures
            r == (match trade_price_book_error(unit_cost, retail_unit_price, wholesale_unit_price, retail_margin, wholesale_margin, wholesale_min_qty) {
                Some(e) => Err(e),
                None => Ok(TradePriceBookEntry::spec_new(sku, currency, unit_cost, retail_unit_price, wholesale_unit_price, retail_margin, wholesale_margin, wholesale_min_qty)),
            }),
    {
        match checked_add(unit_cost, retail_margin, "retail margin") {
            Err(e) => return Err(e),
            Ok(v) => if v > retail_unit_price {
                return Err(ValidationError::Invariant("retail margin is unsafe"));
            },
        }
        match checked_add(unit_cost, wholesale_margin, "wholesale margin") {
            Err(e) => return Err(e),
            Ok(v) => if v > wholesale_unit_price {
                return Err(ValidationError::Invariant("wholesale margin is unsafe"));
            },
        }
        if wholesale_unit_price > retail_unit_price {
            return Err(ValidationError::Invariant("wholesale price exceeds retail price"));
        }
        if wholesale_min_qty == 0 {
            return Err(ValidationError::Invariant("wholesale minimum quantity must be positive"));
        }
        Ok(Self { sku, currency, unit_cost, retail_unit_price, wholesale_unit_price, retail_margin, wholesale_margin, wholesale_min_qty })
    }
}

pub fn unit_price_for_trade_mode(mode: TradeMode, entry: &TradePriceBookEntry) -> (r: Money)
    ensures
        mode == TradeMode::Retail ==> r == entry.spec_retail_unit_price(),
        mode == TradeMode::Wholesale ==> r == entry.spec_wholesale_unit_price(),
{
    match mode {
        TradeMode::Retail => entry.retail_unit_price,
        TradeMode::Wholesale => entry.wholesale_unit_price,
    }
}

impl RetailLine {
    pub fn try_new(entry: TradePriceBookEntry, quantity: Quantity, discount: Money) -> (r: DomainResult<Self>)
        ensures
            entry.spec_retail_unit_price() * quantity > u128::MAX ==> r == Err::<Self, ValidationError>(ValidationError::Overflow("retail line gross")),
            entry.spec_retail_unit_price() * quantity <= u128::MAX && discount > entry.spec_retail_unit_price() * quantity ==> r == Err::<Self, ValidationError>(ValidationError::Invariant("retail discount exceeds gross")),
            discount <= entry.spec_retail_unit_price() * quantity <= u128::MAX ==> r == Ok::<Self, ValidationError>(RetailLine::spec_new(entry, quantity, discount)),
    {
        match checked_mul(entry.retail_unit_price, quantity, "retail line gross") {
            Err(e) => Err(e),
            Ok(gross) => {
                if discount > gross {
                    return Err(ValidationError::Invariant("retail discount exceeds gross"));
                }
                Ok(Self { entry, quantity, discount })
            },
        }
    }
}

pub fn retail_line_gross_total(line: &RetailLine) -> (r: DomainResult<Money>)
    ensures
        r == mul_result(line.spec_entry().spec_retail_unit_price() as int, line.spec_quantity() as int, "retail_line_gross_total"),
{
    checked_mul(line.entry.retail_unit_price, line.quantity, "retail_line_gross_total")
}

pub fn retail_line_net_total(line: &RetailLine) -> (r: DomainResult<Money>)
    ensures
        r == (match mul_result(line.spec_entry().spec_retail_unit_price() as int, line.spec_quantity() as int, "retail_line_gross_total") {
            Err(e) => Err(e),
            Ok(g) => Ok(nat_sub_spec(g as int, line.spec_discount() as int) as u128),
        }),
{
    match retail_line_gross_total(line) {
        Err(e) => Err(e),
        Ok(g) => Ok(nat_sub(g, line.discount)),
    }
}

impl WholesaleLine {
    pub fn try_new(entry: TradePriceBookEntry, quantity: Quantity, discount: Money) -> (r: DomainResult<Self>)
        ensures
            quantity < entry.spec_wholesale_min_qty() ==> r == Err::<Self, ValidationError>(ValidationError::Invariant("wholesale quantity below minimum")),
            quantity >= entry.spec_wholesale_min_qty() && entry.spec_wholesale_unit_price() * quantity > u128::MAX ==> r == Err::<Self, ValidationError>(ValidationError::Overflow("wholesale line gross")),
            quantity >= entry.spec_wholesale_min_qty() && entry.spec_wholesale_unit_price() * quantity <= u128::MAX && discount > entry.spec_wholesale_unit_price() * quantity ==> r == Err::<Self, ValidationError>(ValidationError::Invariant("wholesale discount exceeds gross")),
            quantity >= entry.spec_wholesale_min_qty() && discount <= entry.spec_wholesale_unit_price() * quantity <= u128::MAX ==> r == Ok::<Self, ValidationError>(WholesaleLine::spec_new(entry, quantity, discount)),
    {
        if quantity < entry.wholesale_min_qty {
            return Err(ValidationError::Invariant("wholesale quantity below minimum"));
        }
        match checked_mul(entry.wholesale_unit_price, quantity, "wholesale line gross") {
            Err(e) => Err(e),
            Ok(gross) => {
                if discount > gross {
                    return Err(ValidationError::Invariant("wholesale discount exceeds gross"));
                }
                Ok(Self { entry, quantity, discount })
            },
        }
    }
}

pub open spec fn wholesale_gross_spec(line: WholesaleLine) -> DomainResult<u128> {
    mul_result(line.spec_entry().spec_wholesale_unit_price() as int, line.spec_quantity() as int, "wholesale_line_gross_total")
}

pub open spec fn wholesale_retail_equivalent_spec(line: WholesaleLine) -> DomainResult<u128> {
    mul_result(line.spec_entry().spec_retail_unit_price() as int, line.spec_quantity() as int, "wholesale_line_retail_equivalent_total")
}

pub open spec fn wholesale_retail_equivalent_fn() -> spec_fn(WholesaleLine) -> DomainResult<u128> {
    |line: WholesaleLine| wholesale_retail_equivalent_spec(line)
}

pub open spec fn wholesale_net_spec(line: WholesaleLine) -> DomainResult<u128> {
    match wholesale_gross_spec(line) {
        Err(e) => Err(e),
        Ok(g) => Ok(nat_sub_spec(g as int, line.spec_discount() as int) as u128),
    }
}

pub open spec fn wholesale_net_fn() -> spec_fn(WholesaleLine) -> DomainResult<u128> {
    |line: WholesaleLine| wholesale_net_spec(line)
}

pub fn wholesale_line_gross_total(line: &WholesaleLine) -> (r: DomainResult<Money>)
    ensures
        r == wholesale_gross_spec(*line),
{
    checked_mul(line.entry.wholesale_unit_price, line.quantity, "wholesale_line_gross_total")
}

pub fn wholesale_line_retail_equivalent_total(line: &WholesaleLine) -> (r: DomainResult<Money>)
    ensures
        r == wholesale_retail_equivalent_spec(*line),
{
    checked_mul(line.entry.retail_unit_price, line.quantity, "wholesale_line_retail_equivalent_total")
}

pub fn wholesale_line_net_total(line: &WholesaleLine) -> (r: DomainResult<Money>)
    ensures
        r == wholesale_net_spec(*line),
{
    match wholesale_line_gross_total(line) {
        Err(e) => Err(e),
        Ok(g) => Ok(nat_sub(g, line.discount)),
    }
}

/// Running sum of line net totals, stopping at the first error.
pub fn wholesale_order_net_total(lines: &[WholesaleLine]) -> (r: DomainResult<Nat>)
    ensures
        r == result_sum(lines@.map_values(wholesale_net_fn()), "wholesale_order_net_total"),
{
    let mut results: Vec<DomainResult<Nat>> = Vec::new();
    let mut i: usize = 0;
    while i < lines.len()
        invariant
            i <= lines.len(),
            results@.len() == i,
            forall|j: int| 0 <= j < i ==> results@[j] == (wholesale_net_fn())(lines@[j]),
        decreases lines.len() - i,
    {
        results.push(wholesale_line_net_total(&lines[i]));
        i += 1;
    }
    proof {
        assert(results@ =~= lines@.map_values(wholesale_net_fn()));
    }
    checked_result_sum(results.as_slice(), "wholesale_order_net_total")
}


/// Running sum of the lines' retail-price equivalents, stopping at the first error.
pub fn wholesale_retail_equivalent_total(lines: &[WholesaleLine]) -> (r: DomainResult<Nat>)
    ensures
        r == result_sum(lines@.map_values(wholesale_retail_equivalent_fn()), "wholesale_retail_equivalent_total"),
{
    let mut results: Vec<DomainResult<Nat>> = Vec::new();
    let mut i: usize = 0;
    while i < lines.len()
        invariant
            i <= lines.len(),
            results@.len() == i,
            forall|j: int| 0 <= j < i ==> results@[j] == (wholesale_retail_equivalent_fn())(lines@[j]),
        decreases lines.len() - i,
    {
        results.push(wholesale_line_retail_equivalent_total(&lines[i]));
        i += 1;
    }
    proof {
        assert(results@ =~= lines@.map_values(wholesale_retail_equivalent_fn()));
    }
    checked_result_sum(results.as_slice(), "wholesale_retail_equivalent_total")
}


impl WholesaleCreditAccount {
    pub fn try_new(customer: Customer, credit_limit: Money, outstanding: Money) -> (r: DomainResult<Self>)
        ensures
            !(customer.spec_kind() == CustomerKind::WholesaleAccount && customer.spec_wholesale_approved()) ==> r == Err::<Self, ValidationError>(ValidationError::Invariant("customer cannot buy wholesale")),
            (customer.spec_kind() == CustomerKind::WholesaleAccount && customer.spec_wholesale_approved()) && outstanding > credit_limit ==> r == Err::<Self, ValidationError>(ValidationError::Invariant("outstanding exceeds credit limit")),
            (customer.spec_kind() == CustomerKind::WholesaleAccount && customer.spec_wholesale_approved()) && outstanding <= credit_limit ==> r == Ok::<Self, ValidationError>(WholesaleCreditAccount::spec_new(customer, credit_limit, outstanding)),
    {
        if !customer_can_buy_wholesale(&customer) {
            return Err(ValidationError::Invariant("customer cannot buy wholesale"));
        }
        if outstanding > credit_limit {
            return Err(ValidationError::Invariant("outstanding exceeds credit limit"));
        }
        Ok(Self { customer, credit_limit, outstanding })
    }
}

pub fn can_place_wholesale_credit_order(account: &WholesaleCreditAccount, order_total: Money) -> (r: bool)
    ensures
        r == (account.spec_outstanding() + order_total <= account.spec_credit_limit()),
{
    match account.outstanding.checked_add(order_total) {
        Some(total) => total <= account.credit_limit,
        None => false,
    }
}

/// The accessor lemmas for the records of this module.
pub broadcast group group_b2b_record_fields {
    lemma_customer_fields,
    lemma_trade_price_book_entry_fields,
    lemma_retail_line_fields,
    lemma_wholesale_line_fields,
    lemma_wholesale_credit_account_fields,
}

} // verus!
