//! Tax treatments, invoices and their lines, exemptions and marketplace
//! facilitator rules.

use vstd::prelude::*;
use crate::foundation::clone_vec_exact;
use crate::b2b::{Customer};
use crate::foundation::{lemma_round_bps_rounds, Currency, CustomerId, DomainResult, Id, Money, Nat, Quantity, RoundingMode, Sku, Timestamp, ValidationError, checked_add, checked_mul, checked_result_sum, floor_rounding_remainder, lemma_sum_nat_prefix_le, lemma_sum_nat_take_all, lemma_sum_nat_take_step, mul_result, nat_sub, result_sum, sum_nat, total_result};
use crate::fulfillment_finance::{TaxRate, tax_amount_rounded, tax_amount_spec};
use crate::marketplace::{Marketplace};
use crate::orders::{Order};

verus! {

#[derive(Debug, PartialEq, Eq)]
pub struct TaxJurisdiction {
    pub(crate) id: Id,
    pub(crate) name: String,
    pub(crate) regime: TaxRegime,
    pub(crate) currency: Currency,
}

impl TaxJurisdiction {
    pub open(crate) spec fn spec_id(&self) -> Id {
        self.id
    }

    pub open(crate) spec fn spec_name(&self) -> String {
        self.name
    }

    pub open(crate) spec fn spec_regime(&self) -> TaxRegime {
        self.regime
    }

    pub open(crate) spec fn spec_currency(&self) -> Currency {
        self.currency
    }

    pub open(crate) spec fn spec_new(id: Id, name: String, regime: TaxRegime, currency: Currency) -> Self {
        TaxJurisdiction { id, name, regime, currency }
    }
}

/// The accessors of a `TaxJurisdiction` built by `spec_new` give back its parts.
pub broadcast proof fn lemma_tax_jurisdiction_fields(id: Id, name: String, regime: TaxRegime, currency: Currency)
    ensures
        #[trigger] TaxJurisdiction::spec_new(id, name, regime, currency).spec_id() == id
            && TaxJurisdiction::spec_new(id, name, regime, currency).spec_name() == name
            && TaxJurisdiction::spec_new(id, name, regime, currency).spec_regime() == regime
            && TaxJurisdiction::spec_new(id, name, regime, currency).spec_currency() == currency,
{
}

impl Clone for TaxJurisdiction {
    fn clone(&self) -> (r: Self)
        ensures
            r == *self,
    {
        TaxJurisdiction { id: self.id, name: self.name.clone(), regime: self.regime, currency: self.currency }
    }
}

impl TaxJurisdiction {
    pub fn new(id: Id, name: String, regime: TaxRegime, currency: Currency) -> (r: Self)
        ensures
            r == (TaxJurisdiction::spec_new(id, name, regime, currency)),
    {
        TaxJurisdiction { id, name, regime, currency }
    }

    pub fn try_new(id: Id, name: String, regime: TaxRegime, currency: Currency) -> (r: DomainResult<Self>)
        ensures
            r == Ok::<Self, ValidationError>(TaxJurisdiction::spec_new(id, name, regime, currency)),
    {
        Ok(Self::new(id, name, regime, currency))
    }

    pub fn id(&self) -> (r: Id)
        ensures
            r == self.spec_id(),
    {
        self.id
    }

    pub fn name(&self) -> (r: &str)
        ensures
            r@ == self.spec_name()@,
    {
        self.name.as_str()
    }

    pub fn regime(&self) -> (r: TaxRegime)
        ensures
            r == self.spec_regime(),
    {
        self.regime
    }

    pub fn currency(&self) -> (r: Currency)
        ensures
            r == self.spec_currency(),
    {
        self.currency
    }
}

#[derive(Clone, Copy, Debug, PartialEq, Eq, Structural)]
pub enum TaxRegime {
    SalesTax,
    VAT,
    GST,
    Custom,
}

#[derive(Clone, Copy, Debug, PartialEq, Eq, Structural)]
pub enum TaxTreatment {
    Taxable,
    Exempt,
    ZeroRated,
    ReverseCharge,
}

#[derive(Clone, Copy, Debug, PartialEq, Eq, Structural)]
pub enum TaxPriceMode {
    Exclusive,
    Inclusive,
}

#[derive(Debug, PartialEq, Eq, Structural)]
pub struct TaxInclusivePrice {
    pub(crate) gross: Money,
    pub(crate) net: Money,
    pub(crate) tax: Money,
}

impl TaxInclusivePrice {
    /// Every value satisfies what `try_new` checks.
    #[verifier::type_invariant]
    pub open spec fn valid(self) -> bool {
        self.spec_gross() == self.spec_net() + self.spec_tax()
    }

    pub open(crate) spec fn spec_gross(&self) -> Money {
        self.gross
    }

    pub open(crate) spec fn spec_net(&self) -> Money {
        self.net
    }

    pub open(crate) spec fn spec_tax(&self) -> Money {
        self.tax
    }

    pub open(crate) spec fn spec_new(gross: Money, net: Money, tax: Money) -> Self {
        TaxInclusivePrice { gross, net, tax }
    }
}

/// The accessors of a `TaxInclusivePrice` built by `spec_new` give back its parts.
pub broadcast proof fn lemma_tax_inclusive_price_fields(gross: Money, net: Money, tax: Money)
    ensures
        #[trigger] TaxInclusivePrice::spec_new(gross, net, tax).spec_gross() == gross
            && TaxInclusivePrice::spec_new(gross, net, tax).spec_net() == net
            && TaxInclusivePrice::spec_new(gross, net, tax).spec_tax() == tax,
{
}

impl Clone for TaxInclusivePrice {
    fn clone(&self) -> (r: Self)
        ensures
            r == *self,
    {
        proof {
            use_type_invariant(self);
        }
        TaxInclusivePrice { gross: self.gross, net: self.net, tax: self.tax }
    }
}

#[derive(Debug, PartialEq, Eq, Structural)]
pub struct TaxExclusivePrice {
    pub(crate) net: Money,
    pub(crate) tax: Money,
    pub(crate) total: Money,
}

impl TaxExclusivePrice {
    /// Every value satisfies what `try_new` checks.
    #[verifier::type_invariant]
    pub open spec fn valid(self) -> bool {
        self.spec_total() == self.spec_net() + self.spec_tax()
    }

    pub open(crate) spec fn spec_net(&self) -> Money {
        self.net
    }

    pub open(crate) spec fn spec_tax(&self) -> Money {
        self.tax
    }

    pub open(crate) spec fn spec_total(&self) -> Money {
        self.total
    }

    pub open(crate) spec fn spec_new(net: Money, tax: Money, total: Money) -> Self {
        TaxExclusivePrice { net, tax, total }
    }
}

/// The accessors of a `TaxExclusivePrice` built by `spec_new` give back its parts.
pub broadcast proof fn lemma_tax_exclusive_price_fields(net: Money, tax: Money, total: Money)
    ensures
        #[trigger] TaxExclusivePrice::spec_new(net, tax, total).spec_net() == net
            && TaxExclusivePrice::spec_new(net, tax, total).spec_tax() == tax
            && TaxExclusivePrice::spec_new(net, tax, total).spec_total() == total,
{
}

impl Clone for TaxExclusivePrice {
    fn clone(&self) -> (r: Self)
        ensures
            r == *self,
    {
        proof {
            use_type_invariant(self);
        }
        TaxExclusivePrice { net: self.net, tax: self.tax, total: self.total }
    }
}

#[derive(Debug, PartialEq, Eq, Structural)]
pub struct TaxInvoiceLine {
    pub(crate) sku: Sku,
    pub(crate) quantity: Quantity,
    pub(crate) unit_price: Money,
    pub(crate) discount: Money,
    pub(crate) treatment: TaxTreatment,
    pub(crate) rate: TaxRate,
    pub(crate) rounding_mode: RoundingMode,
    pub(crate) taxable_amount: Money,
    pub(crate) tax: Money,
    pub(crate) total: Money,
}

impl TaxInvoiceLine {
    /// Every value satisfies what `try_new` checks.
    #[verifier::type_invariant]
    pub open spec fn valid(self) -> bool {
        tax_invoice_line_error(self.spec_quantity(), self.spec_unit_price(), self.spec_discount(), self.spec_treatment(), self.spec_rate(), self.spec_rounding_mode(), self.spec_taxable_amount(), self.spec_tax(), self.spec_total()) is None
    }

    pub open(crate) spec fn spec_sku(&self) -> Sku {
        self.sku
    }

    pub open(crate) spec fn spec_quantity(&self) -> Quantity {
        self.quantity
    }

    pub open(crate) spec fn spec_unit_price(&self) -> Money {
        self.unit_price
    }

    pub open(crate) spec fn spec_discount(&self) -> Money {
        self.discount
    }

    pub open(crate) spec fn spec_treatment(&self) -> TaxTreatment {
        self.treatment
    }

    pub open(crate) spec fn spec_rate(&self) -> TaxRate {
        self.rate
    }

    pub open(crate) spec fn spec_rounding_mode(&self) -> RoundingMode {
        self.rounding_mode
    }

    pub open(crate) spec fn spec_taxable_amount(&self) -> Money {
        self.taxable_amount
    }

    pub open(crate) spec fn spec_tax(&self) -> Money {
        self.tax
    }

    pub open(crate) spec fn spec_total(&self) -> Money {
        self.total
    }

    pub open(crate) spec fn spec_new(sku: Sku, quantity: Quantity, unit_price: Money, discount: Money, treatment: TaxTreatment, rate: TaxRate, rounding_mode: RoundingMode, taxable_amount: Money, tax: Money, total: Money) -> Self {
        TaxInvoiceLine { sku, quantity, unit_price, discount, treatment, rate, rounding_mode, taxable_amount, tax, total }
    }
}

/// The accessors of a `TaxInvoiceLine` built by `spec_new` give back its parts.
pub broadcast proof fn lemma_tax_invoice_line_fields(sku: Sku, quantity: Quantity, unit_price: Money, discount: Money, treatment: TaxTreatment, rate: TaxRate, rounding_mode: RoundingMode, taxable_amount: Money, tax: Money, total: Money)
    ensures
        #[trigger] TaxInvoiceLine::spec_new(sku, quantity, unit_price, discount, treatment, rate, rounding_mode, taxable_amount, tax, total).spec_sku() == sku
            && TaxInvoiceLine::spec_new(sku, quantity, unit_price, discount, treatment, rate, rounding_mode, taxable_amount, tax, total).spec_quantity() == quantity
            && TaxInvoiceLine::spec_new(sku, quantity, unit_price, discount, treatment, rate, rounding_mode, taxable_amount, tax, total).spec_unit_price() == unit_price
            && TaxInvoiceLine::spec_new(sku, quantity, unit_price, discount, treatment, rate, rounding_mode, taxable_amount, tax, total).spec_discount() == discount
            && TaxInvoiceLine::spec_new(sku, quantity, unit_price, discount, treatment, rate, rounding_mode, taxable_amount, tax, total).spec_treatment() == treatment
            && TaxInvoiceLine::spec_new(sku, quantity, unit_price, discount, treatment, rate, rounding_mode, taxable_amount, tax, total).spec_rate() == rate
            && TaxInvoiceLine::spec_new(sku, quantity, unit_price, discount, treatment, rate, rounding_mode, taxable_amount, tax, total).spec_rounding_mode() == rounding_mode
            && TaxInvoiceLine::spec_new(sku, quantity, unit_price, discount, treatment, rate, rounding_mode, taxable_amount, tax, total).spec_taxable_amount() == taxable_amount
            && TaxInvoiceLine::spec_new(sku, quantity, unit_price, discount, treatment, rate, rounding_mode, taxable_amount, tax, total).spec_tax() == tax
            && TaxInvoiceLine::spec_new(sku, quantity, unit_price, discount, treatment, rate, rounding_mode, taxable_amount, tax, total).spec_total() == total,
{
}

impl Clone for TaxInvoiceLine {
    fn clone(&self) -> (r: Self)
        ensures
            r == *self,
    {
        proof {
            use_type_invariant(self);
        }
        TaxInvoiceLine { sku: self.sku, quantity: self.quantity, unit_price: self.unit_price, discount: self.discount, treatment: self.treatment, rate: self.rate.clone(), rounding_mode: self.rounding_mode, taxable_amount: self.taxable_amount, tax: self.tax, total: self.total }
    }
}

#[derive(Debug, PartialEq, Eq)]
pub struct TaxInvoice {
    pub(crate) id: Id,
    pub(crate) issued_at: Timestamp,
    pub(crate) seller_id: Id,
    pub(crate) buyer_id: CustomerId,
    pub(crate) jurisdiction: TaxJurisdiction,
    pub(crate) currency: Currency,
    pub(crate) lines: Vec<TaxInvoiceLine>,
    pub(crate) subtotal: Money,
    pub(crate) tax: Money,
    pub(crate) shipping: Money,
    pub(crate) discount: Money,
    pub(crate) total: Money,
}

impl TaxInvoice {
    /// Equal fields, and equal contents for the vectors it holds.
    pub open spec fn same_content(self, other: Self) -> bool {
        self.spec_id() == other.spec_id()
            && self.spec_issued_at() == other.spec_issued_at()
            && self.spec_seller_id() == other.spec_seller_id()
            && self.spec_buyer_id() == other.spec_buyer_id()
            && self.spec_jurisdiction() == other.spec_jurisdiction()
            && self.spec_currency() == other.spec_currency()
            && self.spec_lines()@ == other.spec_lines()@
            && self.spec_subtotal() == other.spec_subtotal()
            && self.spec_tax() == other.spec_tax()
            && self.spec_shipping() == other.spec_shipping()
            && self.spec_discount() == other.spec_discount()
            && self.spec_total() == other.spec_total()
    }

    /// Every value satisfies what `try_new` checks.
    #[verifier::type_invariant]
    pub open spec fn valid(self) -> bool {
        tax_invoice_error(self.spec_lines()@, self.spec_subtotal(), self.spec_tax(), self.spec_shipping(), self.spec_discount(), self.spec_total()) is None
    }

    pub open(crate) spec fn spec_id(&self) -> Id {
        self.id
    }

    pub open(crate) spec fn spec_issued_at(&self) -> Timestamp {
        self.issued_at
    }

    pub open(crate) spec fn spec_seller_id(&self) -> Id {
        self.seller_id
    }

    pub open(crate) spec fn spec_buyer_id(&self) -> CustomerId {
        self.buyer_id
    }

    pub open(crate) spec fn spec_jurisdiction(&self) -> TaxJurisdiction {
        self.jurisdiction
    }

    pub open(crate) spec fn spec_currency(&self) -> Currency {
        self.currency
    }

    pub open(crate) spec fn spec_lines(&self) -> Vec<TaxInvoiceLine> {
        self.lines
    }

    pub open(crate) spec fn spec_subtotal(&self) -> Money {
        self.subtotal
    }

    pub open(crate) spec fn spec_tax(&self) -> Money {
        self.tax
    }

    pub open(crate) spec fn spec_shipping(&self) -> Money {
        self.shipping
    }

    pub open(crate) spec fn spec_discount(&self) -> Money {
        self.discount
    }

    pub open(crate) spec fn spec_total(&self) -> Money {
        self.total
    }
}

impl Clone for TaxInvoice {
    fn clone(&self) -> (r: Self)
        ensures
            r.same_content(*self),
    {
        proof {
            use_type_invariant(self);
        }
        TaxInvoice { id: self.id.clone(), issued_at: self.issued_at.clone(), seller_id: self.seller_id.clone(), buyer_id: self.buyer_id.clone(), jurisdiction: self.jurisdiction.clone(), currency: self.currency.clone(), lines: clone_vec_exact(&self.lines), subtotal: self.subtotal.clone(), tax: self.tax.clone(), shipping: self.shipping.clone(), discount: self.discount.clone(), total: self.total.clone() }
    }
}

#[derive(Debug, PartialEq, Eq)]
pub struct OrderTaxInvoiceLink {
    pub(crate) order: Order,
    pub(crate) invoice: TaxInvoice,
}

impl OrderTaxInvoiceLink {
    /// Equal fields, and equal contents for the vectors it holds.
    pub open spec fn same_content(self, other: Self) -> bool {
        self.spec_order().same_content(other.spec_order())
            && self.spec_invoice().same_content(other.spec_invoice())
    }

    /// Every value satisfies what `try_new` checks.
    #[verifier::type_invariant]
    pub open spec fn valid(self) -> bool {
        (self.spec_order().spec_tax() == self.spec_invoice().spec_tax() && self.spec_invoice().spec_currency() == self.spec_order().spec_currency())
    }

    pub open(crate) spec fn spec_order(&self) -> Order {
        self.order
    }

    pub open(crate) spec fn spec_invoice(&self) -> TaxInvoice {
        self.invoice
    }

    pub open(crate) spec fn spec_new(order: Order, invoice: TaxInvoice) -> Self {
        OrderTaxInvoiceLink { order, invoice }
    }
}

/// The accessors of a `OrderTaxInvoiceLink` built by `spec_new` give back its parts.
pub broadcast proof fn lemma_order_tax_invoice_link_fields(order: Order, invoice: TaxInvoice)
    ensures
        #[trigger] OrderTaxInvoiceLink::spec_new(order, invoice).spec_order() == order
            && OrderTaxInvoiceLink::spec_new(order, invoice).spec_invoice() == invoice,
{
}

impl Clone for OrderTaxInvoiceLink {
    fn clone(&self) -> (r: Self)
        ensures
            r.same_content(*self),
    {
        proof {
            use_type_invariant(self);
        }
        OrderTaxInvoiceLink { order: self.order.clone(), invoice: self.invoice.clone() }
    }
}

#[derive(Debug, PartialEq, Eq, Structural)]
pub struct TaxExemptionCertificate {
    pub(crate) customer_id: CustomerId,
    pub(crate) jurisdiction_id: Id,
    pub(crate) valid_from: Timestamp,
    pub(crate) valid_until: Timestamp,
}

impl TaxExemptionCertificate {
    /// Every value satisfies what `try_new` checks.
    #[verifier::type_invariant]
    pub open spec fn valid(self) -> bool {
        self.spec_valid_until().spec_seconds() >= self.spec_valid_from().spec_seconds()
    }

    pub open(crate) spec fn spec_customer_id(&self) -> CustomerId {
        self.customer_id
    }

    pub open(crate) spec fn spec_jurisdiction_id(&self) -> Id {
        self.jurisdiction_id
    }

    pub open(crate) spec fn spec_valid_from(&self) -> Timestamp {
        self.valid_from
    }

    pub open(crate) spec fn spec_valid_until(&self) -> Timestamp {
        self.valid_until
    }

    pub open(crate) spec fn spec_new(customer_id: CustomerId, jurisdiction_id: Id, valid_from: Timestamp, valid_until: Timestamp) -> Self {
        TaxExemptionCertificate { customer_id, jurisdiction_id, valid_from, valid_until }
    }
}

/// The accessors of a `TaxExemptionCertificate` built by `spec_new` give back its parts.
pub broadcast proof fn lemma_tax_exemption_certificate_fields(customer_id: CustomerId, jurisdiction_id: Id, valid_from: Timestamp, valid_until: Timestamp)
    ensures
        #[trigger] TaxExemptionCertificate::spec_new(customer_id, jurisdiction_id, valid_from, valid_until).spec_customer_id() == customer_id
            && TaxExemptionCertificate::spec_new(customer_id, jurisdiction_id, valid_from, valid_until).spec_jurisdiction_id() == jurisdiction_id
            && TaxExemptionCertificate::spec_new(customer_id, jurisdiction_id, valid_from, valid_until).spec_valid_from() == valid_from
            && TaxExemptionCertificate::spec_new(customer_id, jurisdiction_id, valid_from, valid_until).spec_valid_until() == valid_until,
{
}

impl Clone for TaxExemptionCertificate {
    fn clone(&self) -> (r: Self)
        ensures
            r == *self,
    {
        proof {
            use_type_invariant(self);
        }
        TaxExemptionCertificate { customer_id: self.customer_id, jurisdiction_id: self.jurisdiction_id, valid_from: self.valid_from, valid_until: self.valid_until }
    }
}

#[derive(Debug, PartialEq, Eq)]
pub struct B2BTaxExemption {
    pub(crate) customer: Customer,
    pub(crate) jurisdiction: TaxJurisdiction,
    pub(crate) certificate: TaxExemptionCertificate,
    pub(crate) checked_at: Timestamp,
}

impl B2BTaxExemption {
    /// Every value satisfies what `try_new` checks.
    #[verifier::type_invariant]
    pub open spec fn valid(self) -> bool {
        (self.spec_certificate().spec_customer_id() == self.spec_customer().spec_id() && self.spec_certificate().spec_jurisdiction_id() == self.spec_jurisdiction().spec_id() && self.spec_customer().spec_wholesale_approved()
            && certificate_valid_at_spec(self.spec_certificate(), self.spec_checked_at()))
    }

    pub open(crate) spec fn spec_customer(&self) -> Customer {
        self.customer
    }

    pub open(crate) spec fn spec_jurisdiction(&self) -> TaxJurisdiction {
        self.jurisdiction
    }

    pub open(crate) spec fn spec_certificate(&self) -> TaxExemptionCertificate {
        self.certificate
    }

    pub open(crate) spec fn spec_checked_at(&self) -> Timestamp {
        self.checked_at
    }

    pub open(crate) spec fn spec_new(customer: Customer, jurisdiction: TaxJurisdiction, certificate: TaxExemptionCertificate, checked_at: Timestamp) -> Self {
        B2BTaxExemption { customer, jurisdiction, certificate, checked_at }
    }
}

/// The accessors of a `B2BTaxExemption` built by `spec_new` give back its parts.
pub broadcast proof fn lemma_b2b_tax_exemption_fields(customer: Customer, jurisdiction: TaxJurisdiction, certificate: TaxExemptionCertificate, checked_at: Timestamp)
    ensures
        #[trigger] B2BTaxExemption::spec_new(customer, jurisdiction, certificate, checked_at).spec_customer() == customer
            && B2BTaxExemption::spec_new(customer, jurisdiction, certificate, checked_at).spec_jurisdiction() == jurisdiction
            && B2BTaxExemption::spec_new(customer, jurisdiction, certificate, checked_at).spec_certificate() == certificate
            && B2BTaxExemption::spec_new(customer, jurisdiction, certificate, checked_at).spec_checked_at() == checked_at,
{
}

impl Clone for B2BTaxExemption {
    fn clone(&self) -> (r: Self)
        ensures
            r == *self,
    {
        proof {
            use_type_invariant(self);
        }
        B2BTaxExemption { customer: self.customer.clone(), jurisdiction: self.jurisdiction.clone(), certificate: self.certificate.clone(), checked_at: self.checked_at }
    }
}

#[derive(Debug, PartialEq, Eq)]
pub struct MarketplaceFacilitatorTax {
    pub(crate) marketplace: Marketplace,
    pub(crate) jurisdiction: TaxJurisdiction,
    pub(crate) taxable_amount: Money,
    pub(crate) rate: TaxRate,
    pub(crate) rounding_mode: RoundingMode,
    pub(crate) tax: Money,
    pub(crate) facilitator_collects: bool,
    pub(crate) seller_tax_due: Money,
}

impl MarketplaceFacilitatorTax {
    /// Every value satisfies what `try_new` checks.
    #[verifier::type_invariant]
    pub open spec fn valid(self) -> bool {
        tax_amount_spec(self.spec_rounding_mode(), self.spec_rate(), self.spec_taxable_amount()) == Ok::<u128, ValidationError>(self.spec_tax())
            && self.spec_seller_tax_due() == (if self.spec_facilitator_collects() { 0 } else { self.spec_tax() })
    }

    pub open(crate) spec fn spec_marketplace(&self) -> Marketplace {
        self.marketplace
    }

    pub open(crate) spec fn spec_jurisdiction(&self) -> TaxJurisdiction {
        self.jurisdiction
    }

    pub open(crate) spec fn spec_taxable_amount(&self) -> Money {
        self.taxable_amount
    }

    pub open(crate) spec fn spec_rate(&self) -> TaxRate {
        self.rate
    }

    pub open(crate) spec fn spec_rounding_mode(&self) -> RoundingMode {
        self.rounding_mode
    }

    pub open(crate) spec fn spec_tax(&self) -> Money {
        self.tax
    }

    pub open(crate) spec fn spec_facilitator_collects(&self) -> bool {
        self.facilitator_collects
    }

    pub open(crate) spec fn spec_seller_tax_due(&self) -> Money {
        self.seller_tax_due
    }

    pub open(crate) spec fn spec_new(marketplace: Marketplace, jurisdiction: TaxJurisdiction, taxable_amount: Money, rate: TaxRate, rounding_mode: RoundingMode, tax: Money, facilitator_collects: bool, seller_tax_due: Money) -> Self {
        MarketplaceFacilitatorTax { marketplace, jurisdiction, taxable_amount, rate, rounding_mode, tax, facilitator_collects, seller_tax_due }
    }
}

/// The accessors of a `MarketplaceFacilitatorTax` built by `spec_new` give back its parts.
pub broadcast proof fn lemma_marketplace_facilitator_tax_fields(marketplace: Marketplace, jurisdiction: TaxJurisdiction, taxable_amount: Money, rate: TaxRate, rounding_mode: RoundingMode, tax: Money, facilitator_collects: bool, seller_tax_due: Money)
    ensures
        #[trigger] MarketplaceFacilitatorTax::spec_new(marketplace, jurisdiction, taxable_amount, rate, rounding_mode, tax, facilitator_collects, seller_tax_due).spec_marketplace() == marketplace
            && MarketplaceFacilitatorTax::spec_new(marketplace, jurisdiction, taxable_amount, rate, rounding_mode, tax, facilitator_collects, seller_tax_due).spec_jurisdiction() == jurisdiction
            && MarketplaceFacilitatorTax::spec_new(marketplace, jurisdiction, taxable_amount, rate, rounding_mode, tax, facilitator_collects, seller_tax_due).spec_taxable_amount() == taxable_amount
            && MarketplaceFacilitatorTax::spec_new(marketplace, jurisdiction, taxable_amount, rate, rounding_mode, tax, facilitator_collects, seller_tax_due).spec_rate() == rate
            && MarketplaceFacilitatorTax::spec_new(marketplace, jurisdiction, taxable_amount, rate, rounding_mode, tax, facilitator_collects, seller_tax_due).spec_rounding_mode() == rounding_mode
            && MarketplaceFacilitatorTax::spec_new(marketplace, jurisdiction, taxable_amount, rate, rounding_mode, tax, facilitator_collects, seller_tax_due).spec_tax() == tax
            && MarketplaceFacilitatorTax::spec_new(marketplace, jurisdiction, taxable_amount, rate, rounding_mode, tax, facilitator_collects, seller_tax_due).spec_facilitator_collects() == facilitator_collects
            && MarketplaceFacilitatorTax::spec_new(marketplace, jurisdiction, taxable_amount, rate, rounding_mode, tax, facilitator_collects, seller_tax_due).spec_seller_tax_due() == seller_tax_due,
{
}

impl Clone for MarketplaceFacilitatorTax {
    fn clone(&self) -> (r: Self)
        ensures
            r == *self,
    {
        proof {
            use_type_invariant(self);
        }
        MarketplaceFacilitatorTax { marketplace: self.marketplace, jurisdiction: self.jurisdiction.clone(), taxable_amount: self.taxable_amount, rate: self.rate.clone(), rounding_mode: self.rounding_mode, tax: self.tax, facilitator_collects: self.facilitator_collects, seller_tax_due: self.seller_tax_due }
    }
}

impl TaxInclusivePrice {
    pub fn gross(&self) -> (r: Money)
        ensures
            r == self.spec_gross(),
    {
        self.gross
    }

    pub fn net(&self) -> (r: Money)
        ensures
            r == self.spec_net(),
    {
        self.net
    }

    pub fn tax(&self) -> (r: Money)
        ensures
            r == self.spec_tax(),
    {
        self.tax
    }
}

impl TaxExclusivePrice {
    pub fn net(&self) -> (r: Money)
        ensures
            r == self.spec_net(),
    {
        self.net
    }

    pub fn tax(&self) -> (r: Money)
        ensures
            r == self.spec_tax(),
    {
        self.tax
    }

    pub fn total(&self) -> (r: Money)
        ensures
            r == self.spec_total(),
    {
        self.total
    }
}

impl TaxInvoiceLine {
    pub fn sku(&self) -> (r: Sku)
        ensures
            r == self.spec_sku(),
    {
        self.sku
    }

    pub fn quantity(&self) -> (r: Quantity)
        ensures
            r == self.spec_quantity(),
    {
        self.quantity
    }

    pub fn unit_price(&self) -> (r: Money)
        ensures
            r == self.spec_unit_price(),
    {
        self.unit_price
    }

    pub fn discount(&self) -> (r: Money)
        ensures
            r == self.spec_discount(),
    {
        self.discount
    }

    pub fn treatment(&self) -> (r: TaxTreatment)
        ensures
            r == self.spec_treatment(),
    {
        self.treatment
    }

    pub fn rate(&self) -> (r: &TaxRate)
        ensures
            *r == self.spec_rate(),
    {
        &self.rate
    }

    pub fn rounding_mode(&self) -> (r: RoundingMode)
        ensures
            r == self.spec_rounding_mode(),
    {
        self.rounding_mode
    }

    pub fn taxable_amount(&self) -> (r: Money)
        ensures
            r == self.spec_taxable_amount(),
    {
        self.taxable_amount
    }

    pub fn tax(&self) -> (r: Money)
        ensures
            r == self.spec_tax(),
    {
        self.tax
    }

    pub fn total(&self) -> (r: Money)
        ensures
            r == self.spec_total(),
    {
        self.total
    }
}

impl TaxInvoice {
    pub fn id(&self) -> (r: Id)
        ensures
            r == self.spec_id(),
    {
        self.id
    }

    pub fn issued_at(&self) -> (r: Timestamp)
        ensures
            r == self.spec_issued_at(),
    {
        self.issued_at
    }

    pub fn seller_id(&self) -> (r: Id)
        ensures
            r == self.spec_seller_id(),
    {
        self.seller_id
    }

    pub fn buyer_id(&self) -> (r: CustomerId)
        ensures
            r == self.spec_buyer_id(),
    {
        self.buyer_id
    }

    pub fn jurisdiction(&self) -> (r: &TaxJurisdiction)
        ensures
            *r == self.spec_jurisdiction(),
    {
        &self.jurisdiction
    }

    pub fn currency(&self) -> (r: Currency)
        ensures
            r == self.spec_currency(),
    {
        self.currency
    }

    pub fn lines(&self) -> (r: &[TaxInvoiceLine])
        ensures
            r@ == self.spec_lines()@,
    {
        self.lines.as_slice()
    }

    pub fn subtotal(&self) -> (r: Money)
        ensures
            r == self.spec_subtotal(),
    {
        self.subtotal
    }

    pub fn tax(&self) -> (r: Money)
        ensures
            r == self.spec_tax(),
    {
        self.tax
    }

    pub fn shipping(&self) -> (r: Money)
        ensures
            r == self.spec_shipping(),
    {
        self.shipping
    }

    pub fn discount(&self) -> (r: Money)
        ensures
            r == self.spec_discount(),
    {
        self.discount
    }

    pub fn total(&self) -> (r: Money)
        ensures
            r == self.spec_total(),
    {
        self.total
    }
}

impl OrderTaxInvoiceLink {
    pub fn order(&self) -> (r: &Order)
        ensures
            *r == self.spec_order(),
    {
        &self.order
    }

    pub fn invoice(&self) -> (r: &TaxInvoice)
        ensures
            *r == self.spec_invoice(),
    {
        &self.invoice
    }
}

impl TaxExemptionCertificate {
    pub fn customer_id(&self) -> (r: CustomerId)
        ensures
            r == self.spec_customer_id(),
    {
        self.customer_id
    }

    pub fn jurisdiction_id(&self) -> (r: Id)
        ensures
            r == self.spec_jurisdiction_id(),
    {
        self.jurisdiction_id
    }

    pub fn valid_from(&self) -> (r: Timestamp)
        ensures
            r == self.spec_valid_from(),
    {
        self.valid_from
    }

    pub fn valid_until(&self) -> (r: Timestamp)
        ensures
            r == self.spec_valid_until(),
    {
        self.valid_until
    }
}

impl B2BTaxExemption {
    pub fn customer(&self) -> (r: &Customer)
        ensures
            *r == self.spec_customer(),
    {
        &self.customer
    }

    pub fn jurisdiction(&self) -> (r: &TaxJurisdiction)
        ensures
            *r == self.spec_jurisdiction(),
    {
        &self.jurisdiction
    }

    pub fn certificate(&self) -> (r: &TaxExemptionCertificate)
        ensures
            *r == self.spec_certificate(),
    {
        &self.certificate
    }

    pub fn checked_at(&self) -> (r: Timestamp)
        ensures
            r == self.spec_checked_at(),
    {
        self.checked_at
    }
}

impl MarketplaceFacilitatorTax {
    pub fn marketplace(&self) -> (r: Marketplace)
        ensures
            r == self.spec_marketplace(),
    {
        self.marketplace
    }

    pub fn jurisdiction(&self) -> (r: &TaxJurisdiction)
        ensures
            *r == self.spec_jurisdiction(),
    {
        &self.jurisdiction
    }

    pub fn taxable_amount(&self) -> (r: Money)
        ensures
            r == self.spec_taxable_amount(),
    {
        self.taxable_amount
    }

    pub fn rate(&self) -> (r: &TaxRate)
        ensures
            *r == self.spec_rate(),
    {
        &self.rate
    }

    pub fn rounding_mode(&self) -> (r: RoundingMode)
        ensures
            r == self.spec_rounding_mode(),
    {
        self.rounding_mode
    }

    pub fn tax(&self) -> (r: Money)
        ensures
            r == self.spec_tax(),
    {
        self.tax
    }

    pub fn facilitator_collects(&self) -> (r: bool)
        ensures
            r == self.spec_facilitator_collects(),
    {
        self.facilitator_collects
    }

    pub fn seller_tax_due(&self) -> (r: Money)
        ensures
            r == self.spec_seller_tax_due(),
    {
        self.seller_tax_due
    }
}

pub fn seller_collects_tax_for_treatment(treatment: TaxTreatment) -> (r: bool)
    ensures
        r == (treatment == TaxTreatment::Taxable),
{
    treatment == TaxTreatment::Taxable
}

/// The tax owed on a line: the rounded rate for taxable lines, nothing otherwise.
pub open spec fn tax_for_treatment_spec(treatment: TaxTreatment, mode: RoundingMode, rate: TaxRate, taxable_amount: u128) -> DomainResult<u128> {
    match treatment {
        TaxTreatment::Taxable => tax_amount_spec(mode, rate, taxable_amount),
        _ => Ok(0),
    }
}

pub fn tax_for_treatment(treatment: TaxTreatment, mode: RoundingMode, rate: &TaxRate, taxable_amount: Money) -> (r: DomainResult<Money>)
    ensures
        r == tax_for_treatment_spec(treatment, mode, *rate, taxable_amount),
        treatment != TaxTreatment::Taxable ==> r == Ok::<Money, ValidationError>(0),
{
    match treatment {
        TaxTreatment::Taxable => tax_amount_rounded(mode, rate, taxable_amount),
        TaxTreatment::Exempt | TaxTreatment::ZeroRated | TaxTreatment::ReverseCharge => Ok(0),
    }
}

impl TaxInclusivePrice {
    pub fn try_new(gross: Money, net: Money, tax: Money) -> (r: DomainResult<Self>)
        ensures
            net + tax > u128::MAX ==> r == Err::<Self, ValidationError>(ValidationError::Overflow("tax inclusive price")),
            net + tax <= u128::MAX && gross != net + tax ==> r == Err::<Self, ValidationError>(ValidationError::TaxInvariantFailed),
            gross == net + tax ==> r == Ok::<Self, ValidationError>(TaxInclusivePrice::spec_new(gross, net, tax)),
    {
        match checked_add(net, tax, "tax inclusive price") {
            Err(e) => Err(e),
            Ok(sum) => if gross != sum {
                Err(ValidationError::TaxInvariantFailed)
            } else {
                Ok(Self { gross, net, tax })
            },
        }
    }
}

impl TaxExclusivePrice {
    pub fn try_new(net: Money, tax: Money, total: Money) -> (r: DomainResult<Self>)
        ensures
            net + tax > u128::MAX ==> r == Err::<Self, ValidationError>(ValidationError::Overflow("tax exclusive price")),
            net + tax <= u128::MAX && total != net + tax ==> r == Err::<Self, ValidationError>(ValidationError::TaxInvariantFailed),
            total == net + tax ==> r == Ok::<Self, ValidationError>(TaxExclusivePrice::spec_new(net, tax, total)),
    {
        match checked_add(net, tax, "tax exclusive price") {
            Err(e) => Err(e),
            Ok(sum) => if total != sum {
                Err(ValidationError::TaxInvariantFailed)
            } else {
                Ok(Self { net, tax, total })
            },
        }
    }
}

/// The first check an invoice line fails, if any: the taxable amount is the
/// gross less the discount, the tax follows the treatment, and the total is
/// the taxable amount plus the tax.
pub open spec fn tax_invoice_line_error(quantity: u128, unit_price: u128, discount: u128, treatment: TaxTreatment, rate: TaxRate, rounding_mode: RoundingMode, taxable_amount: u128, tax: u128, total: u128) -> Option<ValidationError> {
    let gross = unit_price * quantity;
    if gross > u128::MAX {
        Some(ValidationError::Overflow("tax invoice line gross"))
    } else if discount > gross || taxable_amount != gross - discount {
        Some(ValidationError::TaxInvariantFailed)
    } else {
        match tax_for_treatment_spec(treatment, rounding_mode, rate, taxable_amount) {
            Err(e) => Some(e),
            Ok(expected) => if tax != expected {
                Some(ValidationError::TaxInvariantFailed)
            } else if taxable_amount + tax > u128::MAX {
                Some(ValidationError::Overflow("tax invoice line total"))
            } else if total != taxable_amount + tax {
                Some(ValidationError::TaxInvariantFailed)
            } else {
                None
            },
        }
    }
}

impl TaxInvoiceLine {
    pub fn try_new(sku: Sku, quantity: Quantity, unit_price: Money, discount: Money, treatment: TaxTreatment, rate: TaxRate, rounding_mode: RoundingMode, taxable_amount: Money, tax: Money, total: Money) -> (r: DomainResult<Self>)
        ensures
            r == (match tax_invoice_line_error(quantity, unit_price, discount, treatment, rate, rounding_mode, taxable_amount, tax, total) {
                Some(e) => Err(e),
                None => Ok(TaxInvoiceLine::spec_new(sku, quantity, unit_price, discount, treatment, rate, rounding_mode, taxable_amount, tax, total)),
            }),
    {
        let gross = match checked_mul(unit_price, quantity, "tax invoice line gross") {
            Ok(g) => g,
            Err(e) => return Err(e),
        };
        if discount > gross || taxable_amount != nat_sub(gross, discount) {
            return Err(ValidationError::TaxInvariantFailed);
        }
        match tax_for_treatment(treatment, rounding_mode, &rate, taxable_amount) {
            Err(e) => return Err(e),
            Ok(expected) => if tax != expected {
                return Err(ValidationError::TaxInvariantFailed);
            },
        }
        match checked_add(taxable_amount, tax, "tax invoice line total") {
            Err(e) => return Err(e),
            Ok(sum) => if total != sum {
                return Err(ValidationError::TaxInvariantFailed);
            },
        }
        Ok(Self { sku, quantity, unit_price, discount, treatment, rate, rounding_mode, taxable_amount, tax, total })
    }
}

pub open spec fn invoice_line_subtotal_total_value() -> spec_fn(TaxInvoiceLine) -> nat {
    |x: TaxInvoiceLine| (x.spec_taxable_amount()) as nat
}

/// Sum of the lines' taxable amounts.
pub fn invoice_line_subtotal_total(lines: &[TaxInvoiceLine]) -> (r: DomainResult<Nat>)
    ensures
        r == total_result(sum_nat(lines@, invoice_line_subtotal_total_value()) as int, "invoice_line_subtotal_total"),
{
    let mut acc: Nat = 0;
    let mut i: usize = 0;
    while i < lines.len()
        invariant
            i <= lines.len(),
            acc == sum_nat(lines@.take(i as int), invoice_line_subtotal_total_value()),
        decreases lines.len() - i,
    {
        proof {
            lemma_sum_nat_take_step(lines@, invoice_line_subtotal_total_value(), i as int);
        }
        let item: Nat = lines[i].taxable_amount;
        match acc.checked_add(item) {
            Some(v) => {
                acc = v;
            },
            None => {
                proof {
                    lemma_sum_nat_prefix_le(lines@, invoice_line_subtotal_total_value(), i + 1);
                }
                return Err(ValidationError::Overflow("invoice_line_subtotal_total"));
            },
        }
        i += 1;
    }
    proof {
        lemma_sum_nat_take_all(lines@, invoice_line_subtotal_total_value());
    }
    Ok(acc)
}


pub open spec fn invoice_line_tax_total_value() -> spec_fn(TaxInvoiceLine) -> nat {
    |x: TaxInvoiceLine| (x.spec_tax()) as nat
}

/// Sum of the lines' tax.
pub fn invoice_line_tax_total(lines: &[TaxInvoiceLine]) -> (r: DomainResult<Nat>)
    ensures
        r == total_result(sum_nat(lines@, invoice_line_tax_total_value()) as int, "invoice_line_tax_total"),
{
    let mut acc: Nat = 0;
    let mut i: usize = 0;
    while i < lines.len()
        invariant
            i <= lines.len(),
            acc == sum_nat(lines@.take(i as int), invoice_line_tax_total_value()),
        decreases lines.len() - i,
    {
        proof {
            lemma_sum_nat_take_step(lines@, invoice_line_tax_total_value(), i as int);
        }
        let item: Nat = lines[i].tax;
        match acc.checked_add(item) {
            Some(v) => {
                acc = v;
            },
            None => {
                proof {
                    lemma_sum_nat_prefix_le(lines@, invoice_line_tax_total_value(), i + 1);
                }
                return Err(ValidationError::Overflow("invoice_line_tax_total"));
            },
        }
        i += 1;
    }
    proof {
        lemma_sum_nat_take_all(lines@, invoice_line_tax_total_value());
    }
    Ok(acc)
}


pub open spec fn invoice_line_grand_total_value() -> spec_fn(TaxInvoiceLine) -> nat {
    |x: TaxInvoiceLine| (x.spec_total()) as nat
}

/// Sum of the lines' totals.
pub fn invoice_line_grand_total(lines: &[TaxInvoiceLine]) -> (r: DomainResult<Nat>)
    ensures
        r == total_result(sum_nat(lines@, invoice_line_grand_total_value()) as int, "invoice_line_grand_total"),
{
    let mut acc: Nat = 0;
    let mut i: usize = 0;
    while i < lines.len()
        invariant
            i <= lines.len(),
            acc == sum_nat(lines@.take(i as int), invoice_line_grand_total_value()),
        decreases lines.len() - i,
    {
        proof {
            lemma_sum_nat_take_step(lines@, invoice_line_grand_total_value(), i as int);
        }
        let item: Nat = lines[i].total;
        match acc.checked_add(item) {
            Some(v) => {
                acc = v;
            },
            None => {
                proof {
                    lemma_sum_nat_prefix_le(lines@, invoice_line_grand_total_value(), i + 1);
                }
                return Err(ValidationError::Overflow("invoice_line_grand_total"));
            },
        }
        i += 1;
    }
    proof {
        lemma_sum_nat_take_all(lines@, invoice_line_grand_total_value());
    }
    Ok(acc)
}


/// The first check an invoice fails, if any: the subtotal and tax are the
/// sums over the lines, and the total is subtotal plus tax plus shipping,
/// less the discount.
pub open spec fn tax_invoice_error(lines: Seq<TaxInvoiceLine>, subtotal: u128, tax: u128, shipping: u128, discount: u128, total: u128) -> Option<ValidationError> {
    let components = subtotal + tax + shipping;
    let line_subtotal = sum_nat(lines, invoice_line_subtotal_total_value());
    let line_tax = sum_nat(lines, invoice_line_tax_total_value());
    if subtotal + tax > u128::MAX {
        Some(ValidationError::Overflow("tax invoice subtotal tax"))
    } else if components > u128::MAX {
        Some(ValidationError::Overflow("tax invoice components"))
    } else if line_subtotal > u128::MAX {
        Some(ValidationError::Overflow("invoice_line_subtotal_total"))
    } else if subtotal != line_subtotal {
        Some(ValidationError::TaxInvariantFailed)
    } else if line_tax > u128::MAX {
        Some(ValidationError::Overflow("invoice_line_tax_total"))
    } else if tax != line_tax || discount > components || total != components - discount {
        Some(ValidationError::TaxInvariantFailed)
    } else {
        None
    }
}

impl TaxInvoice {
    pub fn try_new(id: Id, issued_at: Timestamp, seller_id: Id, buyer_id: CustomerId, jurisdiction: TaxJurisdiction, currency: Currency, lines: Vec<TaxInvoiceLine>, subtotal: Money, tax: Money, shipping: Money, discount: Money, total: Money) -> (r: DomainResult<Self>)
        ensures
            match r {
                Ok(inv) => tax_invoice_error(lines@, subtotal, tax, shipping, discount, total) is None
                    && inv.spec_id() == id && inv.spec_issued_at() == issued_at && inv.spec_seller_id() == seller_id && inv.spec_buyer_id() == buyer_id
                    && inv.spec_jurisdiction() == jurisdiction && inv.spec_currency() == currency && inv.spec_lines()@ == lines@
                    && inv.spec_subtotal() == subtotal && inv.spec_tax() == tax && inv.spec_shipping() == shipping && inv.spec_discount() == discount && inv.spec_total() == total,
                Err(e) => tax_invoice_error(lines@, subtotal, tax, shipping, discount, total) == Some(e),
            },
    {
        let st = match checked_add(subtotal, tax, "tax invoice subtotal tax") {
            Ok(v) => v,
            Err(e) => return Err(e),
        };
        let components = match checked_add(st, shipping, "tax invoice components") {
            Ok(v) => v,
            Err(e) => return Err(e),
        };
        match invoice_line_subtotal_total(lines.as_slice()) {
            Err(e) => return Err(e),
            Ok(v) => if subtotal != v {
                return Err(ValidationError::TaxInvariantFailed);
            },
        }
        match invoice_line_tax_total(lines.as_slice()) {
            Err(e) => return Err(e),
            Ok(v) => if tax != v {
                return Err(ValidationError::TaxInvariantFailed);
            },
        }
        if discount > components || total != nat_sub(components, discount) {
            return Err(ValidationError::TaxInvariantFailed);
        }
        Ok(Self { id, issued_at, seller_id, buyer_id, jurisdiction, currency, lines, subtotal, tax, shipping, discount, total })
    }
}

impl OrderTaxInvoiceLink {
    /// Links an order to its invoice when the tax and currency agree.
    pub fn try_new(order: Order, invoice: TaxInvoice) -> (r: DomainResult<Self>)
        ensures
            (order.spec_tax() != invoice.spec_tax() || invoice.spec_currency() != order.spec_currency()) ==> r == Err::<Self, ValidationError>(ValidationError::TaxInvariantFailed),
            (order.spec_tax() == invoice.spec_tax() && invoice.spec_currency() == order.spec_currency()) ==> r == Ok::<Self, ValidationError>(OrderTaxInvoiceLink::spec_new(order, invoice)),
    {
        if order.tax() != invoice.tax || invoice.currency != order.currency() {
            return Err(ValidationError::TaxInvariantFailed);
        }
        Ok(Self { order, invoice })
    }
}

impl TaxExemptionCertificate {
    pub fn try_new(customer_id: CustomerId, jurisdiction_id: Id, valid_from: Timestamp, valid_until: Timestamp) -> (r: DomainResult<Self>)
        ensures
            valid_until.spec_seconds() < valid_from.spec_seconds() ==> r == Err::<Self, ValidationError>(ValidationError::TaxInvariantFailed),
            valid_until.spec_seconds() >= valid_from.spec_seconds() ==> r == Ok::<Self, ValidationError>(TaxExemptionCertificate::spec_new(customer_id, jurisdiction_id, valid_from, valid_until)),
    {
        if valid_until.seconds < valid_from.seconds {
            return Err(ValidationError::TaxInvariantFailed);
        }
        Ok(Self { customer_id, jurisdiction_id, valid_from, valid_until })
    }
}

pub open spec fn certificate_valid_at_spec(certificate: TaxExemptionCertificate, now: Timestamp) -> bool {
    certificate.spec_valid_from().spec_seconds() <= now.spec_seconds() && now.spec_seconds() <= certificate.spec_valid_until().spec_seconds()
}

pub fn certificate_valid_at(certificate: &TaxExemptionCertificate, now: Timestamp) -> (r: bool)
    ensures
        r == certificate_valid_at_spec(*certificate, now),
        r <==> certificate.spec_valid_from().spec_seconds() <= now.spec_seconds() <= certificate.spec_valid_until().spec_seconds(),
{
    certificate.valid_from.seconds <= now.seconds && now.seconds <= certificate.valid_until.seconds
}

impl B2BTaxExemption {
    /// An exemption backed by a certificate issued to this approved wholesale
    /// customer, in this jurisdiction, valid when checked.
    pub fn try_new(customer: Customer, jurisdiction: TaxJurisdiction, certificate: TaxExemptionCertificate, checked_at: Timestamp) -> (r: DomainResult<Self>)
        ensures
            (certificate.spec_customer_id() != customer.spec_id() || certificate.spec_jurisdiction_id() != jurisdiction.spec_id() || !customer.spec_wholesale_approved()
                || !certificate_valid_at_spec(certificate, checked_at)) ==> r == Err::<Self, ValidationError>(ValidationError::TaxInvariantFailed),
            (certificate.spec_customer_id() == customer.spec_id() && certificate.spec_jurisdiction_id() == jurisdiction.spec_id() && customer.spec_wholesale_approved()
                && certificate_valid_at_spec(certificate, checked_at)) ==> r == Ok::<Self, ValidationError>(B2BTaxExemption::spec_new(customer, jurisdiction, certificate, checked_at)),
    {
        if certificate.customer_id != customer.id || certificate.jurisdiction_id != jurisdiction.id || !customer.wholesale_approved
            || !certificate_valid_at(&certificate, checked_at) {
            return Err(ValidationError::TaxInvariantFailed);
        }
        Ok(Self { customer, jurisdiction, certificate, checked_at })
    }
}

/// Only taxable lines carry seller tax: exempt, zero-rated and reverse-charge
/// lines owe nothing whatever the rate, and a taxable line owes the rate
/// applied to its amount with the given rounding.
pub proof fn lemma_tax_only_on_taxable_lines(treatment: TaxTreatment, mode: RoundingMode, rate: TaxRate, taxable_amount: u128)
    ensures
        treatment != TaxTreatment::Taxable ==> tax_for_treatment_spec(treatment, mode, rate, taxable_amount) == Ok::<u128, ValidationError>(0),
        treatment == TaxTreatment::Taxable ==> tax_for_treatment_spec(treatment, mode, rate, taxable_amount) == tax_amount_spec(mode, rate, taxable_amount),
        tax_for_treatment_spec(treatment, mode, rate, taxable_amount) matches Ok(t) && t > 0 ==> treatment == TaxTreatment::Taxable,
        treatment == TaxTreatment::Taxable ==> (tax_for_treatment_spec(treatment, mode, rate, taxable_amount) matches Ok(t) ==> {
            let n = taxable_amount * rate.spec_bps().spec_value();
            match mode {
                RoundingMode::Floor => t * 10000 <= n < (t + 1) * 10000,
                RoundingMode::Ceiling => (t - 1) * 10000 < n <= t * 10000,
                RoundingMode::HalfUp => (2 * t - 1) * 10000 <= 2 * n < (2 * t + 1) * 10000,
            }
        }),
{
    lemma_round_bps_rounds(mode, taxable_amount, rate.spec_bps());
}

/// A certificate counts only inside its validity window: never before
/// `valid_from` and never after `valid_until`, and at every moment in between.
/// So no exemption rests on a certificate checked outside its window.
pub proof fn lemma_certificate_valid_only_in_window(certificate: TaxExemptionCertificate, now: Timestamp, exemption: B2BTaxExemption)
    ensures
        certificate_valid_at_spec(certificate, now) ==> certificate.spec_valid_from().spec_seconds() <= now.spec_seconds(),
        certificate_valid_at_spec(certificate, now) ==> now.spec_seconds() <= certificate.spec_valid_until().spec_seconds(),
        certificate.spec_valid_from().spec_seconds() <= now.spec_seconds() <= certificate.spec_valid_until().spec_seconds()
            ==> certificate_valid_at_spec(certificate, now),
        exemption.valid() ==> exemption.spec_certificate().spec_valid_from().spec_seconds() <= exemption.spec_checked_at().spec_seconds()
            <= exemption.spec_certificate().spec_valid_until().spec_seconds(),
{
}

pub fn seller_tax_due_for_facilitator(facilitator_collects: bool, tax: Money) -> (r: Money)
    ensures
        r == (if facilitator_collects { 0 } else { tax }),
{
    if facilitator_collects { 0 } else { tax }
}

impl MarketplaceFacilitatorTax {
    pub fn try_new(marketplace: Marketplace, jurisdiction: TaxJurisdiction, taxable_amount: Money, rate: TaxRate, rounding_mode: RoundingMode, tax: Money, facilitator_collects: bool, seller_tax_due: Money) -> (r: DomainResult<Self>)
        ensures
            match tax_amount_spec(rounding_mode, rate, taxable_amount) {
                Err(e) => r == Err::<Self, ValidationError>(e),
                Ok(expected) => if tax != expected || seller_tax_due != (if facilitator_collects { 0 } else { tax }) {
                    r == Err::<Self, ValidationError>(ValidationError::TaxInvariantFailed)
                } else {
                    r == Ok::<Self, ValidationError>(MarketplaceFacilitatorTax::spec_new(marketplace, jurisdiction, taxable_amount, rate, rounding_mode, tax, facilitator_collects, seller_tax_due))
                },
            },
    {
        match tax_amount_rounded(rounding_mode, &rate, taxable_amount) {
            Err(e) => return Err(e),
            Ok(expected) => if tax != expected || seller_tax_due != seller_tax_due_for_facilitator(facilitator_collects, tax) {
                return Err(ValidationError::TaxInvariantFailed);
            },
        }
        Ok(Self { marketplace, jurisdiction, taxable_amount, rate, rounding_mode, tax, facilitator_collects, seller_tax_due })
    }
}

/// What floor rounding drops from a line's tax: `(taxable * bps) % 10000`.
pub open spec fn line_tax_remainder_spec(line: TaxInvoiceLine, context: &'static str) -> DomainResult<u128> {
    match mul_result(line.spec_taxable_amount() as int, line.spec_rate().spec_bps().spec_value() as int, context) {
        Err(e) => Err(e),
        Ok(n) => Ok(n % 10_000),
    }
}

pub fn invoice_line_floor_tax_rounding_remainder(line: &TaxInvoiceLine) -> (r: DomainResult<Nat>)
    ensures
        r == line_tax_remainder_spec(*line, "invoice line tax remainder"),
{
    match checked_mul(line.taxable_amount, line.rate.bps.value, "invoice line tax remainder") {
        Err(e) => Err(e),
        Ok(n) => floor_rounding_remainder(n, 10_000),
    }
}

pub open spec fn lines_remainder_fn() -> spec_fn(TaxInvoiceLine) -> DomainResult<u128> {
    |line: TaxInvoiceLine| line_tax_remainder_spec(line, "invoice lines tax remainder")
}

fn lines_remainder_item(line: &TaxInvoiceLine) -> (r: DomainResult<Nat>)
    ensures
        r == lines_remainder_fn()(*line),
{
    match checked_mul(line.taxable_amount, line.rate.bps.value, "invoice lines tax remainder") {
        Err(e) => Err(e),
        Ok(n) => floor_rounding_remainder(n, 10_000),
    }
}

/// Running sum of what floor rounding drops from each line's tax, stopping at the first error.
pub fn invoice_lines_floor_tax_rounding_remainder_total(lines: &[TaxInvoiceLine]) -> (r: DomainResult<Nat>)
    ensures
        r == result_sum(lines@.map_values(lines_remainder_fn()), "floor_rounded_lines_remainder_total"),
{
    let mut results: Vec<DomainResult<Nat>> = Vec::new();
    let mut i: usize = 0;
    while i < lines.len()
        invariant
            i <= lines.len(),
            results@.len() == i,
            forall|j: int| 0 <= j < i ==> results@[j] == (lines_remainder_fn())(lines@[j]),
        decreases lines.len() - i,
    {
        results.push(lines_remainder_item(&lines[i]));
        i += 1;
    }
    proof {
        assert(results@ =~= lines@.map_values(lines_remainder_fn()));
    }
    checked_result_sum(results.as_slice(), "floor_rounded_lines_remainder_total")
}


/// The accessor lemmas for the records of this module.
pub broadcast group group_tax_record_fields {
    lemma_tax_jurisdiction_fields,
    lemma_tax_inclusive_price_fields,
    lemma_tax_exclusive_price_fields,
    lemma_tax_invoice_line_fields,
    lemma_order_tax_invoice_link_fields,
    lemma_tax_exemption_certificate_fields,
    lemma_b2b_tax_exemption_fields,
    lemma_marketplace_facilitator_tax_fields,
}

} // verus!
