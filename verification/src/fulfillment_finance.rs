//! Exchange rates, currency conversion, tax calculation, carrier quotes and
//! reconciliation tolerances.

use vstd::prelude::*;
use crate::foundation::{BasisPoints, Currency, Days, DomainResult, Duration, Id, Money, Nat, RoundingMode, Timestamp, ValidationError, Weight, checked_add, checked_mul, mul_result, round_bps_amount, round_bps_spec, round_div_spec, lemma_round_div_rounds, round_money, timestamp_age};

verus! {

#[derive(Debug, PartialEq, Eq, Structural)]
pub struct TaxRate {
    pub(crate) bps: BasisPoints,
}

impl TaxRate {
    pub open(crate) spec fn spec_bps(&self) -> BasisPoints {
        self.bps
    }

    pub open(crate) spec fn spec_new(bps: BasisPoints) -> Self {
        TaxRate { bps }
    }
}

/// The accessors of a `TaxRate` built by `spec_new` give back its parts.
pub broadcast proof fn lemma_tax_rate_fields(bps: BasisPoints)
    ensures
        #[trigger] TaxRate::spec_new(bps).spec_bps() == bps,
{
}

impl Clone for TaxRate {
    fn clone(&self) -> (r: Self)
        ensures
            r == *self,
    {
        TaxRate { bps: self.bps }
    }
}

impl TaxRate {
    pub fn new(bps: BasisPoints) -> (r: Self)
        ensures
            r == (TaxRate::spec_new(bps)),
    {
        TaxRate { bps }
    }

    pub fn try_new(bps: BasisPoints) -> (r: DomainResult<Self>)
        ensures
            r == Ok::<Self, ValidationError>(TaxRate::spec_new(bps)),
    {
        Ok(Self::new(bps))
    }

    pub fn bps(&self) -> (r: BasisPoints)
        ensures
            r == self.spec_bps(),
    {
        self.bps
    }
}

#[derive(Debug, PartialEq, Eq)]
pub struct ShippingZone {
    pub(crate) id: Id,
    pub(crate) name: String,
}

impl ShippingZone {
    pub open(crate) spec fn spec_id(&self) -> Id {
        self.id
    }

    pub open(crate) spec fn spec_name(&self) -> String {
        self.name
    }

    pub open(crate) spec fn spec_new(id: Id, name: String) -> Self {
        ShippingZone { id, name }
    }
}

/// The accessors of a `ShippingZone` built by `spec_new` give back its parts.
pub broadcast proof fn lemma_shipping_zone_fields(id: Id, name: String)
    ensures
        #[trigger] ShippingZone::spec_new(id, name).spec_id() == id
            && ShippingZone::spec_new(id, name).spec_name() == name,
{
}

impl Clone for ShippingZone {
    fn clone(&self) -> (r: Self)
        ensures
            r == *self,
    {
        ShippingZone { id: self.id, name: self.name.clone() }
    }
}

impl ShippingZone {
    pub fn new(id: Id, name: String) -> (r: Self)
        ensures
            r == (ShippingZone::spec_new(id, name)),
    {
        ShippingZone { id, name }
    }

    pub fn try_new(id: Id, name: String) -> (r: DomainResult<Self>)
        ensures
            r == Ok::<Self, ValidationError>(ShippingZone::spec_new(id, name)),
    {
        Ok(Self::new(id, name))
    }

    pub fn id(&self) -> (r: Id)
        ensures
            r == self.spec_id(),
    {
        self.id
    }

    pub fn name(&self) -> (r: &str)
        ensures
            r@ == self.spec_name()@,
    {
        self.name.as_str()
    }
}

#[derive(Debug, PartialEq, Eq)]
pub struct CarrierService {
    pub(crate) carrier_id: Id,
    pub(crate) zone: ShippingZone,
    pub(crate) max_weight: Weight,
    pub(crate) base_cost: Money,
    pub(crate) promised_days: Days,
}

impl CarrierService {
    pub open(crate) spec fn spec_carrier_id(&self) -> Id {
        self.carrier_id
    }

    pub open(crate) spec fn spec_zone(&self) -> ShippingZone {
        self.zone
    }

    pub open(crate) spec fn spec_max_weight(&self) -> Weight {
        self.max_weight
    }

    pub open(crate) spec fn spec_base_cost(&self) -> Money {
        self.base_cost
    }

    pub open(crate) spec fn spec_promised_days(&self) -> Days {
        self.promised_days
    }

    pub open(crate) spec fn spec_new(carrier_id: Id, zone: ShippingZone, max_weight: Weight, base_cost: Money, promised_days: Days) -> Self {
        CarrierService { carrier_id, zone, max_weight, base_cost, promised_days }
    }
}

/// The accessors of a `CarrierService` built by `spec_new` give back its parts.
pub broadcast proof fn lemma_carrier_service_fields(carrier_id: Id, zone: ShippingZone, max_weight: Weight, base_cost: Money, promised_days: Days)
    ensures
        #[trigger] CarrierService::spec_new(carrier_id, zone, max_weight, base_cost, promised_days).spec_carrier_id() == carrier_id
            && CarrierService::spec_new(carrier_id, zone, max_weight, base_cost, promised_days).spec_zone() == zone
            && CarrierService::spec_new(carrier_id, zone, max_weight, base_cost, promised_days).spec_max_weight() == max_weight
            && CarrierService::spec_new(carrier_id, zone, max_weight, base_cost, promised_days).spec_base_cost() == base_cost
            && CarrierService::spec_new(carrier_id, zone, max_weight, base_cost, promised_days).spec_promised_days() == promised_days,
{
}

impl Clone for CarrierService {
    fn clone(&self) -> (r: Self)
        ensures
            r == *self,
    {
        CarrierService { carrier_id: self.carrier_id, zone: self.zone.clone(), max_weight: self.max_weight, base_cost: self.base_cost, promised_days: self.promised_days }
    }
}

impl CarrierService {
    pub fn new(carrier_id: Id, zone: ShippingZone, max_weight: Weight, base_cost: Money, promised_days: Days) -> (r: Self)
        ensures
            r == (CarrierService::spec_new(carrier_id, zone, max_weight, base_cost, promised_days)),
    {
        CarrierService { carrier_id, zone, max_weight, base_cost, promised_days }
    }

    pub fn try_new(carrier_id: Id, zone: ShippingZone, max_weight: Weight, base_cost: Money, promised_days: Days) -> (r: DomainResult<Self>)
        ensures
            r == Ok::<Self, ValidationError>(CarrierService::spec_new(carrier_id, zone, max_weight, base_cost, promised_days)),
    {
        Ok(Self::new(carrier_id, zone, max_weight, base_cost, promised_days))
    }

    pub fn carrier_id(&self) -> (r: Id)
        ensures
            r == self.spec_carrier_id(),
    {
        self.carrier_id
    }

    pub fn zone(&self) -> (r: &ShippingZone)
        ensures
            *r == self.spec_zone(),
    {
        &self.zone
    }

    pub fn max_weight(&self) -> (r: Weight)
        ensures
            r == self.spec_max_weight(),
    {
        self.max_weight
    }

    pub fn base_cost(&self) -> (r: Money)
        ensures
            r == self.spec_base_cost(),
    {
        self.base_cost
    }

    pub fn promised_days(&self) -> (r: Days)
        ensures
            r == self.spec_promised_days(),
    {
        self.promised_days
    }
}

#[derive(Debug, PartialEq, Eq, Structural)]
pub struct Package {
    pub(crate) weight: Weight,
    pub(crate) volume: Nat,
}

impl Package {
    pub open(crate) spec fn spec_weight(&self) -> Weight {
        self.weight
    }

    pub open(crate) spec fn spec_volume(&self) -> Nat {
        self.volume
    }

    pub open(crate) spec fn spec_new(weight: Weight, volume: Nat) -> Self {
        Package { weight, volume }
    }
}

/// The accessors of a `Package` built by `spec_new` give back its parts.
pub broadcast proof fn lemma_package_fields(weight: Weight, volume: Nat)
    ensures
        #[trigger] Package::spec_new(weight, volume).spec_weight() == weight
            && Package::spec_new(weight, volume).spec_volume() == volume,
{
}

impl Clone for Package {
    fn clone(&self) -> (r: Self)
        ensures
            r == *self,
    {
        Package { weight: self.weight, volume: self.volume }
    }
}

impl Package {
    pub fn new(weight: Weight, volume: Nat) -> (r: Self)
        ensures
            r == (Package::spec_new(weight, volume)),
    {
        Package { weight, volume }
    }

    pub fn try_new(weight: Weight, volume: Nat) -> (r: DomainResult<Self>)
        ensures
            r == Ok::<Self, ValidationError>(Package::spec_new(weight, volume)),
    {
        Ok(Self::new(weight, volume))
    }

    pub fn weight(&self) -> (r: Weight)
        ensures
            r == self.spec_weight(),
    {
        self.weight
    }

    pub fn volume(&self) -> (r: Nat)
        ensures
            r == self.spec_volume(),
    {
        self.volume
    }
}

#[derive(Debug, PartialEq, Eq, Structural)]
pub struct ExchangeRate {
    pub(crate) source: Currency,
    pub(crate) target: Currency,
    pub(crate) numerator: Nat,
    pub(crate) denominator: Nat,
    pub(crate) observed_at: Timestamp,
}

impl ExchangeRate {
    /// Every value satisfies what `try_new` checks.
    #[verifier::type_invariant]
    pub open spec fn valid(self) -> bool {
        self.spec_denominator() != 0
    }

    pub open(crate) spec fn spec_source(&self) -> Currency {
        self.source
    }

    pub open(crate) spec fn spec_target(&self) -> Currency {
        self.target
    }

    pub open(crate) spec fn spec_numerator(&self) -> Nat {
        self.numerator
    }

    pub open(crate) spec fn spec_denominator(&self) -> Nat {
        self.denominator
    }

    pub open(crate) spec fn spec_observed_at(&self) -> Timestamp {
        self.observed_at
    }

    pub open(crate) spec fn spec_new(source: Currency, target: Currency, numerator: Nat, denominator: Nat, observed_at: Timestamp) -> Self {
        ExchangeRate { source, target, numerator, denominator, observed_at }
    }
}

/// The accessors of a `ExchangeRate` built by `spec_new` give back its parts.
pub broadcast proof fn lemma_exchange_rate_fields(source: Currency, target: Currency, numerator: Nat, denominator: Nat, observed_at: Timestamp)
    ensures
        #[trigger] ExchangeRate::spec_new(source, target, numerator, denominator, observed_at).spec_source() == source
            && ExchangeRate::spec_new(source, target, numerator, denominator, observed_at).spec_target() == target
            && ExchangeRate::spec_new(source, target, numerator, denominator, observed_at).spec_numerator() == numerator
            && ExchangeRate::spec_new(source, target, numerator, denominator, observed_at).spec_denominator() == denominator
            && ExchangeRate::spec_new(source, target, numerator, denominator, observed_at).spec_observed_at() == observed_at,
{
}

impl Clone for ExchangeRate {
    fn clone(&self) -> (r: Self)
        ensures
            r == *self,
    {
        proof {
            use_type_invariant(self);
        }
        ExchangeRate { source: self.source, target: self.target, numerator: self.numerator, denominator: self.denominator, observed_at: self.observed_at }
    }
}

#[derive(Debug, PartialEq, Eq, Structural)]
pub struct TaxCalculation {
    pub(crate) taxable_amount: Money,
    pub(crate) rate: TaxRate,
    pub(crate) rounding_mode: RoundingMode,
    pub(crate) tax: Money,
    pub(crate) total: Money,
}

impl TaxCalculation {
    /// Every value satisfies what `try_new` checks.
    #[verifier::type_invariant]
    pub open spec fn valid(self) -> bool {
        tax_calculation_error(self.spec_taxable_amount(), self.spec_rate(), self.spec_rounding_mode(), self.spec_tax(), self.spec_total()) is None
    }

    pub open(crate) spec fn spec_taxable_amount(&self) -> Money {
        self.taxable_amount
    }

    pub open(crate) spec fn spec_rate(&self) -> TaxRate {
        self.rate
    }

    pub open(crate) spec fn spec_rounding_mode(&self) -> RoundingMode {
        self.rounding_mode
    }

    pub open(crate) spec fn spec_tax(&self) -> Money {
        self.tax
    }

    pub open(crate) spec fn spec_total(&self) -> Money {
        self.total
    }

    pub open(crate) spec fn spec_new(taxable_amount: Money, rate: TaxRate, rounding_mode: RoundingMode, tax: Money, total: Money) -> Self {
        TaxCalculation { taxable_amount, rate, rounding_mode, tax, total }
    }
}

/// The accessors of a `TaxCalculation` built by `spec_new` give back its parts.
pub broadcast proof fn lemma_tax_calculation_fields(taxable_amount: Money, rate: TaxRate, rounding_mode: RoundingMode, tax: Money, total: Money)
    ensures
        #[trigger] TaxCalculation::spec_new(taxable_amount, rate, rounding_mode, tax, total).spec_taxable_amount() == taxable_amount
            && TaxCalculation::spec_new(taxable_amount, rate, rounding_mode, tax, total).spec_rate() == rate
            && TaxCalculation::spec_new(taxable_amount, rate, rounding_mode, tax, total).spec_rounding_mode() == rounding_mode
            && TaxCalculation::spec_new(taxable_amount, rate, rounding_mode, tax, total).spec_tax() == tax
            && TaxCalculation::spec_new(taxable_amount, rate, rounding_mode, tax, total).spec_total() == total,
{
}

impl Clone for TaxCalculation {
    fn clone(&self) -> (r: Self)
        ensures
            r == *self,
    {
        proof {
            use_type_invariant(self);
        }
        TaxCalculation { taxable_amount: self.taxable_amount, rate: self.rate.clone(), rounding_mode: self.rounding_mode, tax: self.tax, total: self.total }
    }
}

#[derive(Debug, PartialEq, Eq)]
pub struct CarrierQuote {
    pub(crate) service: CarrierService,
    pub(crate) package: Package,
    pub(crate) price: Money,
}

impl CarrierQuote {
    /// Every value satisfies what `try_new` checks.
    #[verifier::type_invariant]
    pub open spec fn valid(self) -> bool {
        self.spec_package().spec_weight() <= self.spec_service().spec_max_weight() && self.spec_price() >= self.spec_service().spec_base_cost()
    }

    pub open(crate) spec fn spec_service(&self) -> CarrierService {
        self.service
    }

    pub open(crate) spec fn spec_package(&self) -> Package {
        self.package
    }

    pub open(crate) spec fn spec_price(&self) -> Money {
        self.price
    }

    pub open(crate) spec fn spec_new(service: CarrierService, package: Package, price: Money) -> Self {
        CarrierQuote { service, package, price }
    }
}

/// The accessors of a `CarrierQuote` built by `spec_new` give back its parts.
pub broadcast proof fn lemma_carrier_quote_fields(service: CarrierService, package: Package, price: Money)
    ensures
        #[trigger] CarrierQuote::spec_new(service, package, price).spec_service() == service
            && CarrierQuote::spec_new(service, package, price).spec_package() == package
            && CarrierQuote::spec_new(service, package, price).spec_price() == price,
{
}

impl Clone for CarrierQuote {
    fn clone(&self) -> (r: Self)
        ensures
            r == *self,
    {
        proof {
            use_type_invariant(self);
        }
        CarrierQuote { service: self.service.clone(), package: self.package.clone(), price: self.price }
    }
}

#[derive(Debug, PartialEq, Eq, Structural)]
pub struct ReconciliationWithinTolerance {
    pub(crate) expected: Money,
    pub(crate) actual: Money,
    pub(crate) tolerance: Money,
}

impl ReconciliationWithinTolerance {
    /// Every value satisfies what `try_new` checks.
    #[verifier::type_invariant]
    pub open spec fn valid(self) -> bool {
        abs_diff_spec(self.spec_expected() as int, self.spec_actual() as int) <= self.spec_tolerance()
    }

    pub open(crate) spec fn spec_expected(&self) -> Money {
        self.expected
    }

    pub open(crate) spec fn spec_actual(&self) -> Money {
        self.actual
    }

    pub open(crate) spec fn spec_tolerance(&self) -> Money {
        self.tolerance
    }

    pub open(crate) spec fn spec_new(expected: Money, actual: Money, tolerance: Money) -> Self {
        ReconciliationWithinTolerance { expected, actual, tolerance }
    }
}

/// The accessors of a `ReconciliationWithinTolerance` built by `spec_new` give back its parts.
pub broadcast proof fn lemma_reconciliation_within_tolerance_fields(expected: Money, actual: Money, tolerance: Money)
    ensures
        #[trigger] ReconciliationWithinTolerance::spec_new(expected, actual, tolerance).spec_expected() == expected
            && ReconciliationWithinTolerance::spec_new(expected, actual, tolerance).spec_actual() == actual
            && ReconciliationWithinTolerance::spec_new(expected, actual, tolerance).spec_tolerance() == tolerance,
{
}

impl Clone for ReconciliationWithinTolerance {
    fn clone(&self) -> (r: Self)
        ensures
            r == *self,
    {
        proof {
            use_type_invariant(self);
        }
        ReconciliationWithinTolerance { expected: self.expected, actual: self.actual, tolerance: self.tolerance }
    }
}

impl ExchangeRate {
    pub fn source(&self) -> (r: Currency)
        ensures
            r == self.spec_source(),
    {
        self.source
    }

    pub fn target(&self) -> (r: Currency)
        ensures
            r == self.spec_target(),
    {
        self.target
    }

    pub fn numerator(&self) -> (r: Nat)
        ensures
            r == self.spec_numerator(),
    {
        self.numerator
    }

    pub fn denominator(&self) -> (r: Nat)
        ensures
            r == self.spec_denominator(),
    {
        self.denominator
    }

    pub fn observed_at(&self) -> (r: Timestamp)
        ensures
            r == self.spec_observed_at(),
    {
        self.observed_at
    }
}

impl TaxCalculation {
    pub fn taxable_amount(&self) -> (r: Money)
        ensures
            r == self.spec_taxable_amount(),
    {
        self.taxable_amount
    }

    pub fn rate(&self) -> (r: &TaxRate)
        ensures
            *r == self.spec_rate(),
    {
        &self.rate
    }

    pub fn rounding_mode(&self) -> (r: RoundingMode)
        ensures
            r == self.spec_rounding_mode(),
    {
        self.rounding_mode
    }

    pub fn tax(&self) -> (r: Money)
        ensures
            r == self.spec_tax(),
    {
        self.tax
    }

    pub fn total(&self) -> (r: Money)
        ensures
            r == self.spec_total(),
    {
        self.total
    }
}

impl CarrierQuote {
    pub fn service(&self) -> (r: &CarrierService)
        ensures
            *r == self.spec_service(),
    {
        &self.service
    }

    pub fn package(&self) -> (r: &Package)
        ensures
            *r == self.spec_package(),
    {
        &self.package
    }

    pub fn price(&self) -> (r: Money)
        ensures
            r == self.spec_price(),
    {
        self.price
    }
}

impl ReconciliationWithinTolerance {
    pub fn expected(&self) -> (r: Money)
        ensures
            r == self.spec_expected(),
    {
        self.expected
    }

    pub fn actual(&self) -> (r: Money)
        ensures
            r == self.spec_actual(),
    {
        self.actual
    }

    pub fn tolerance(&self) -> (r: Money)
        ensures
            r == self.spec_tolerance(),
    {
        self.tolerance
    }
}

impl ExchangeRate {
    pub fn try_new(source: Currency, target: Currency, numerator: Nat, denominator: Nat, observed_at: Timestamp) -> (r: DomainResult<Self>)
        ensures
            denominator == 0 ==> r == Err::<Self, ValidationError>(ValidationError::Invariant("exchange-rate denominator must be positive")),
            denominator != 0 ==> r == Ok::<Self, ValidationError>(ExchangeRate::spec_new(source, target, numerator, denominator, observed_at)),
    {
        if denominator == 0 {
            return Err(ValidationError::Invariant("exchange-rate denominator must be positive"));
        }
        Ok(Self { source, target, numerator, denominator, observed_at })
    }
}

pub open spec fn fx_quote_fresh_spec(now: Timestamp, max_age: Duration, rate: ExchangeRate) -> bool {
    rate.spec_observed_at().spec_seconds() <= now.spec_seconds() && now.spec_seconds() - rate.spec_observed_at().spec_seconds() <= max_age.spec_seconds()
}

pub fn fx_quote_fresh(now: Timestamp, max_age: Duration, rate: &ExchangeRate) -> (r: bool)
    ensures
        r == fx_quote_fresh_spec(now, max_age, *rate),
{
    rate.observed_at.seconds <= now.seconds && timestamp_age(now, rate.observed_at).seconds <= max_age.seconds
}

/// `amount * numerator / denominator`, rounded by `mode`.
pub open spec fn convert_money_spec(mode: RoundingMode, amount: u128, rate: ExchangeRate) -> DomainResult<u128> {
    match mul_result(amount as int, rate.spec_numerator() as int, "convert_money_floor multiply") {
        Err(e) => Err(e),
        Ok(p) => round_div_spec(mode, p as int, rate.spec_denominator() as int),
    }
}

pub fn convert_money_rounded(mode: RoundingMode, amount: Money, rate: &ExchangeRate) -> (r: DomainResult<Money>)
    ensures
        r == convert_money_spec(mode, amount, *rate),
{
    match checked_mul(amount, rate.numerator, "convert_money_floor multiply") {
        Err(e) => Err(e),
        Ok(p) => round_money(mode, p, rate.denominator),
    }
}

pub fn convert_money_floor(amount: Money, rate: &ExchangeRate) -> (r: DomainResult<Money>)
    ensures
        r == convert_money_spec(RoundingMode::Floor, amount, *rate),
{
    convert_money_rounded(RoundingMode::Floor, amount, rate)
}

pub open spec fn tax_amount_spec(mode: RoundingMode, rate: TaxRate, taxable_amount: u128) -> DomainResult<u128> {
    round_bps_spec(mode, taxable_amount, rate.spec_bps())
}

pub fn tax_amount_rounded(mode: RoundingMode, rate: &TaxRate, taxable_amount: Money) -> (r: DomainResult<Money>)
    ensures
        r == tax_amount_spec(mode, *rate, taxable_amount),
{
    round_bps_amount(mode, taxable_amount, rate.bps)
}

/// The first check a tax calculation fails, if any.
pub open spec fn tax_calculation_error(taxable_amount: u128, rate: TaxRate, rounding_mode: RoundingMode, tax: u128, total: u128) -> Option<ValidationError> {
    match tax_amount_spec(rounding_mode, rate, taxable_amount) {
        Err(e) => Some(e),
        Ok(expected) => if tax != expected {
            Some(ValidationError::Invariant("tax amount is incorrect"))
        } else if taxable_amount + tax > u128::MAX {
            Some(ValidationError::Overflow("tax calculation total"))
        } else if total != taxable_amount + tax {
            Some(ValidationError::Invariant("tax total is incorrect"))
        } else {
            None
        },
    }
}

impl TaxCalculation {
    pub fn try_new(taxable_amount: Money, rate: TaxRate, rounding_mode: RoundingMode, tax: Money, total: Money) -> (r: DomainResult<Self>)
        ensures
            r == (match tax_calculation_error(taxable_amount, rate, rounding_mode, tax, total) {
                Some(e) => Err(e),
                None => Ok(TaxCalculation::spec_new(taxable_amount, rate, rounding_mode, tax, total)),
            }),
    {
        match tax_amount_rounded(rounding_mode, &rate, taxable_amount) {
            Err(e) => return Err(e),
            Ok(expected) => if tax != expected {
                return Err(ValidationError::Invariant("tax amount is incorrect"));
            },
        }
        match checked_add(taxable_amount, tax, "tax calculation total") {
            Err(e) => return Err(e),
            Ok(sum) => if total != sum {
                return Err(ValidationError::Invariant("tax total is incorrect"));
            },
        }
        Ok(Self { taxable_amount, rate, rounding_mode, tax, total })
    }
}

impl CarrierQuote {
    pub fn try_new(service: CarrierService, package: Package, price: Money) -> (r: DomainResult<Self>)
        ensures
            package.spec_weight() > service.spec_max_weight() ==> r == Err::<Self, ValidationError>(ValidationError::Invariant("package exceeds service max weight")),
            package.spec_weight() <= service.spec_max_weight() && price < service.spec_base_cost() ==> r == Err::<Self, ValidationError>(ValidationError::Invariant("quote price below base cost")),
            package.spec_weight() <= service.spec_max_weight() && price >= service.spec_base_cost() ==> r == Ok::<Self, ValidationError>(CarrierQuote::spec_new(service, package, price)),
    {
        if package.weight > service.max_weight {
            return Err(ValidationError::Invariant("package exceeds service max weight"));
        }
        if price < service.base_cost {
            return Err(ValidationError::Invariant("quote price below base cost"));
        }
        Ok(Self { service, package, price })
    }
}

pub open spec fn abs_diff_spec(a: int, b: int) -> int {
    if a >= b {
        a - b
    } else {
        b - a
    }
}

pub fn abs_diff_nat(a: Nat, b: Nat) -> (r: Nat)
    ensures
        r == abs_diff_spec(a as int, b as int),
{
    if a >= b {
        a - b
    } else {
        b - a
    }
}

impl ReconciliationWithinTolerance {
    pub fn try_new(expected: Money, actual: Money, tolerance: Money) -> (r: DomainResult<Self>)
        ensures
            abs_diff_spec(expected as int, actual as int) > tolerance ==> r == Err::<Self, ValidationError>(ValidationError::Invariant("reconciliation diff exceeds tolerance")),
            abs_diff_spec(expected as int, actual as int) <= tolerance ==> r == Ok::<Self, ValidationError>(ReconciliationWithinTolerance::spec_new(expected, actual, tolerance)),
    {
        if abs_diff_nat(expected, actual) > tolerance {
            return Err(ValidationError::Invariant("reconciliation diff exceeds tolerance"));
        }
        Ok(Self { expected, actual, tolerance })
    }
}

/// The gap between two amounts does not depend on their order.
pub proof fn lemma_abs_diff_nat_symmetric(a: Nat, b: Nat)
    ensures
        abs_diff_spec(a as int, b as int) == abs_diff_spec(b as int, a as int),
{
}

/// The accessor lemmas for the records of this module.
pub broadcast group group_fulfillment_finance_record_fields {
    lemma_tax_rate_fields,
    lemma_shipping_zone_fields,
    lemma_carrier_service_fields,
    lemma_package_fields,
    lemma_exchange_rate_fields,
    lemma_tax_calculation_fields,
    lemma_carrier_quote_fields,
    lemma_reconciliation_within_tolerance_fields,
}


/// An exchange rate is fresh exactly when it was observed no later than now
/// and at most `max_age` before.
pub proof fn lemma_fx_quote_freshness(now: Timestamp, max_age: Duration, rate: ExchangeRate)
    ensures
        fx_quote_fresh_spec(now, max_age, rate) ==> rate.spec_observed_at().spec_seconds() <= now.spec_seconds(),
        fx_quote_fresh_spec(now, max_age, rate) ==> now.spec_seconds() - rate.spec_observed_at().spec_seconds() <= max_age.spec_seconds(),
        rate.spec_observed_at().spec_seconds() <= now.spec_seconds() && now.spec_seconds() - rate.spec_observed_at().spec_seconds() <= max_age.spec_seconds()
            ==> fx_quote_fresh_spec(now, max_age, rate),
{
}


/// Converting money multiplies by the rate's numerator and divides by its
/// denominator, rounding as `mode` says.
pub proof fn lemma_convert_money_rounds(mode: RoundingMode, amount: u128, rate: ExchangeRate)
    ensures
        convert_money_spec(mode, amount, rate) matches Ok(r) ==> {
            let n = amount * rate.spec_numerator();
            let d = rate.spec_denominator();
            match mode {
                RoundingMode::Floor => r * d <= n < (r + 1) * d,
                RoundingMode::Ceiling => (r - 1) * d < n <= r * d,
                RoundingMode::HalfUp => (2 * r - 1) * d <= 2 * n < (2 * r + 1) * d,
            }
        },
{
    if amount * rate.spec_numerator() <= u128::MAX {
        lemma_round_div_rounds(mode, (amount * rate.spec_numerator()) as u128, rate.spec_denominator());
    }
}

} // verus!
