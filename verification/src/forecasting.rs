//! Demand forecasts and supplier quality approval.

use vstd::prelude::*;
use crate::dropshipping::{DropshipSupplier};
use crate::foundation::{Days, DomainResult, Nat, Quantity, Sku, ValidationError};

verus! {

#[derive(Debug, PartialEq, Eq, Structural)]
pub struct DemandForecast {
    pub(crate) sku: Sku,
    pub(crate) expected_units: Quantity,
    pub(crate) confidence: Confidence,
    pub(crate) horizon_days: Days,
}

impl DemandForecast {
    pub open(crate) spec fn spec_sku(&self) -> Sku {
        self.sku
    }

    pub open(crate) spec fn spec_expected_units(&self) -> Quantity {
        self.expected_units
    }

    pub open(crate) spec fn spec_confidence(&self) -> Confidence {
        self.confidence
    }

    pub open(crate) spec fn spec_horizon_days(&self) -> Days {
        self.horizon_days
    }

    pub open(crate) spec fn spec_new(sku: Sku, expected_units: Quantity, confidence: Confidence, horizon_days: Days) -> Self {
        DemandForecast { sku, expected_units, confidence, horizon_days }
    }
}

/// The accessors of a `DemandForecast` built by `spec_new` give back its parts.
pub broadcast proof fn lemma_demand_forecast_fields(sku: Sku, expected_units: Quantity, confidence: Confidence, horizon_days: Days)
    ensures
        #[trigger] DemandForecast::spec_new(sku, expected_units, confidence, horizon_days).spec_sku() == sku
            && DemandForecast::spec_new(sku, expected_units, confidence, horizon_days).spec_expected_units() == expected_units
            && DemandForecast::spec_new(sku, expected_units, confidence, horizon_days).spec_confidence() == confidence
            && DemandForecast::spec_new(sku, expected_units, confidence, horizon_days).spec_horizon_days() == horizon_days,
{
}

impl Clone for DemandForecast {
    fn clone(&self) -> (r: Self)
        ensures
            r == *self,
    {
        DemandForecast { sku: self.sku, expected_units: self.expected_units, confidence: self.confidence, horizon_days: self.horizon_days }
    }
}

impl DemandForecast {
    pub fn new(sku: Sku, expected_units: Quantity, confidence: Confidence, horizon_days: Days) -> (r: Self)
        ensures
            r == (DemandForecast::spec_new(sku, expected_units, confidence, horizon_days)),
    {
        DemandForecast { sku, expected_units, confidence, horizon_days }
    }

    pub fn try_new(sku: Sku, expected_units: Quantity, confidence: Confidence, horizon_days: Days) -> (r: DomainResult<Self>)
        ensures
            r == Ok::<Self, ValidationError>(DemandForecast::spec_new(sku, expected_units, confidence, horizon_days)),
    {
        Ok(Self::new(sku, expected_units, confidence, horizon_days))
    }

    pub fn sku(&self) -> (r: Sku)
        ensures
            r == self.spec_sku(),
    {
        self.sku
    }

    pub fn expected_units(&self) -> (r: Quantity)
        ensures
            r == self.spec_expected_units(),
    {
        self.expected_units
    }

    pub fn confidence(&self) -> (r: Confidence)
        ensures
            r == self.spec_confidence(),
    {
        self.confidence
    }

    pub fn horizon_days(&self) -> (r: Days)
        ensures
            r == self.spec_horizon_days(),
    {
        self.horizon_days
    }
}

#[derive(Debug, PartialEq, Eq, Structural)]
pub struct SupplierQualityMetrics {
    pub(crate) defect_rate_bps: Nat,
    pub(crate) late_shipment_rate_bps: Nat,
    pub(crate) cancellation_rate_bps: Nat,
}

impl SupplierQualityMetrics {
    pub open(crate) spec fn spec_defect_rate_bps(&self) -> Nat {
        self.defect_rate_bps
    }

    pub open(crate) spec fn spec_late_shipment_rate_bps(&self) -> Nat {
        self.late_shipment_rate_bps
    }

    pub open(crate) spec fn spec_cancellation_rate_bps(&self) -> Nat {
        self.cancellation_rate_bps
    }

    pub open(crate) spec fn spec_new(defect_rate_bps: Nat, late_shipment_rate_bps: Nat, cancellation_rate_bps: Nat) -> Self {
        SupplierQualityMetrics { defect_rate_bps, late_shipment_rate_bps, cancellation_rate_bps }
    }
}

/// The accessors of a `SupplierQualityMetrics` built by `spec_new` give back its parts.
pub broadcast proof fn lemma_supplier_quality_metrics_fields(defect_rate_bps: Nat, late_shipment_rate_bps: Nat, cancellation_rate_bps: Nat)
    ensures
        #[trigger] SupplierQualityMetrics::spec_new(defect_rate_bps, late_shipment_rate_bps, cancellation_rate_bps).spec_defect_rate_bps() == defect_rate_bps
            && SupplierQualityMetrics::spec_new(defect_rate_bps, late_shipment_rate_bps, cancellation_rate_bps).spec_late_shipment_rate_bps() == late_shipment_rate_bps
            && SupplierQualityMetrics::spec_new(defect_rate_bps, late_shipment_rate_bps, cancellation_rate_bps).spec_cancellation_rate_bps() == cancellation_rate_bps,
{
}

impl Clone for SupplierQualityMetrics {
    fn clone(&self) -> (r: Self)
        ensures
            r == *self,
    {
        SupplierQualityMetrics { defect_rate_bps: self.defect_rate_bps, late_shipment_rate_bps: self.late_shipment_rate_bps, cancellation_rate_bps: self.cancellation_rate_bps }
    }
}

impl SupplierQualityMetrics {
    pub fn new(defect_rate_bps: Nat, late_shipment_rate_bps: Nat, cancellation_rate_bps: Nat) -> (r: Self)
        ensures
            r == (SupplierQualityMetrics::spec_new(defect_rate_bps, late_shipment_rate_bps, cancellation_rate_bps)),
    {
        SupplierQualityMetrics { defect_rate_bps, late_shipment_rate_bps, cancellation_rate_bps }
    }

    pub fn try_new(defect_rate_bps: Nat, late_shipment_rate_bps: Nat, cancellation_rate_bps: Nat) -> (r: DomainResult<Self>)
        ensures
            r == Ok::<Self, ValidationError>(SupplierQualityMetrics::spec_new(defect_rate_bps, late_shipment_rate_bps, cancellation_rate_bps)),
    {
        Ok(Self::new(defect_rate_bps, late_shipment_rate_bps, cancellation_rate_bps))
    }

    pub fn defect_rate_bps(&self) -> (r: Nat)
        ensures
            r == self.spec_defect_rate_bps(),
    {
        self.defect_rate_bps
    }

    pub fn late_shipment_rate_bps(&self) -> (r: Nat)
        ensures
            r == self.spec_late_shipment_rate_bps(),
    {
        self.late_shipment_rate_bps
    }

    pub fn cancellation_rate_bps(&self) -> (r: Nat)
        ensures
            r == self.spec_cancellation_rate_bps(),
    {
        self.cancellation_rate_bps
    }
}

#[derive(Debug, PartialEq, Eq, Structural)]
pub struct SupplierRiskPolicy {
    pub(crate) max_defect_rate_bps: Nat,
    pub(crate) max_late_shipment_rate_bps: Nat,
    pub(crate) max_cancellation_rate_bps: Nat,
}

impl SupplierRiskPolicy {
    pub open(crate) spec fn spec_max_defect_rate_bps(&self) -> Nat {
        self.max_defect_rate_bps
    }

    pub open(crate) spec fn spec_max_late_shipment_rate_bps(&self) -> Nat {
        self.max_late_shipment_rate_bps
    }

    pub open(crate) spec fn spec_max_cancellation_rate_bps(&self) -> Nat {
        self.max_cancellation_rate_bps
    }

    pub open(crate) spec fn spec_new(max_defect_rate_bps: Nat, max_late_shipment_rate_bps: Nat, max_cancellation_rate_bps: Nat) -> Self {
        SupplierRiskPolicy { max_defect_rate_bps, max_late_shipment_rate_bps, max_cancellation_rate_bps }
    }
}

/// The accessors of a `SupplierRiskPolicy` built by `spec_new` give back its parts.
pub broadcast proof fn lemma_supplier_risk_policy_fields(max_defect_rate_bps: Nat, max_late_shipment_rate_bps: Nat, max_cancellation_rate_bps: Nat)
    ensures
        #[trigger] SupplierRiskPolicy::spec_new(max_defect_rate_bps, max_late_shipment_rate_bps, max_cancellation_rate_bps).spec_max_defect_rate_bps() == max_defect_rate_bps
            && SupplierRiskPolicy::spec_new(max_defect_rate_bps, max_late_shipment_rate_bps, max_cancellation_rate_bps).spec_max_late_shipment_rate_bps() == max_late_shipment_rate_bps
            && SupplierRiskPolicy::spec_new(max_defect_rate_bps, max_late_shipment_rate_bps, max_cancellation_rate_bps).spec_max_cancellation_rate_bps() == max_cancellation_rate_bps,
{
}

impl Clone for SupplierRiskPolicy {
    fn clone(&self) -> (r: Self)
        ensures
            r == *self,
    {
        SupplierRiskPolicy { max_defect_rate_bps: self.max_defect_rate_bps, max_late_shipment_rate_bps: self.max_late_shipment_rate_bps, max_cancellation_rate_bps: self.max_cancellation_rate_bps }
    }
}

impl SupplierRiskPolicy {
    pub fn new(max_defect_rate_bps: Nat, max_late_shipment_rate_bps: Nat, max_cancellation_rate_bps: Nat) -> (r: Self)
        ensures
            r == (SupplierRiskPolicy::spec_new(max_defect_rate_bps, max_late_shipment_rate_bps, max_cancellation_rate_bps)),
    {
        SupplierRiskPolicy { max_defect_rate_bps, max_late_shipment_rate_bps, max_cancellation_rate_bps }
    }

    pub fn try_new(max_defect_rate_bps: Nat, max_late_shipment_rate_bps: Nat, max_cancellation_rate_bps: Nat) -> (r: DomainResult<Self>)
        ensures
            r == Ok::<Self, ValidationError>(SupplierRiskPolicy::spec_new(max_defect_rate_bps, max_late_shipment_rate_bps, max_cancellation_rate_bps)),
    {
        Ok(Self::new(max_defect_rate_bps, max_late_shipment_rate_bps, max_cancellation_rate_bps))
    }

    pub fn max_defect_rate_bps(&self) -> (r: Nat)
        ensures
            r == self.spec_max_defect_rate_bps(),
    {
        self.max_defect_rate_bps
    }

    pub fn max_late_shipment_rate_bps(&self) -> (r: Nat)
        ensures
            r == self.spec_max_late_shipment_rate_bps(),
    {
        self.max_late_shipment_rate_bps
    }

    pub fn max_cancellation_rate_bps(&self) -> (r: Nat)
        ensures
            r == self.spec_max_cancellation_rate_bps(),
    {
        self.max_cancellation_rate_bps
    }
}

#[derive(Clone, Copy, Debug, PartialEq, Eq, Structural)]
pub enum Confidence {
    Low,
    Medium,
    High,
}

#[derive(Debug, PartialEq, Eq)]
pub struct ApprovedSupplierQuality {
    pub(crate) supplier: DropshipSupplier,
    pub(crate) metrics: SupplierQualityMetrics,
    pub(crate) policy: SupplierRiskPolicy,
}

impl ApprovedSupplierQuality {
    /// Every value satisfies what `try_new` checks.
    #[verifier::type_invariant]
    pub open spec fn valid(self) -> bool {
        quality_within_policy(self.spec_metrics(), self.spec_policy())
    }

    pub open(crate) spec fn spec_supplier(&self) -> DropshipSupplier {
        self.supplier
    }

    pub open(crate) spec fn spec_metrics(&self) -> SupplierQualityMetrics {
        self.metrics
    }

    pub open(crate) spec fn spec_policy(&self) -> SupplierRiskPolicy {
        self.policy
    }

    pub open(crate) spec fn spec_new(supplier: DropshipSupplier, metrics: SupplierQualityMetrics, policy: SupplierRiskPolicy) -> Self {
        ApprovedSupplierQuality { supplier, metrics, policy }
    }
}

/// The accessors of a `ApprovedSupplierQuality` built by `spec_new` give back its parts.
pub broadcast proof fn lemma_approved_supplier_quality_fields(supplier: DropshipSupplier, metrics: SupplierQualityMetrics, policy: SupplierRiskPolicy)
    ensures
        #[trigger] ApprovedSupplierQuality::spec_new(supplier, metrics, policy).spec_supplier() == supplier
            && ApprovedSupplierQuality::spec_new(supplier, metrics, policy).spec_metrics() == metrics
            && ApprovedSupplierQuality::spec_new(supplier, metrics, policy).spec_policy() == policy,
{
}

impl Clone for ApprovedSupplierQuality {
    fn clone(&self) -> (r: Self)
        ensures
            r == *self,
    {
        proof {
            use_type_invariant(self);
        }
        ApprovedSupplierQuality { supplier: self.supplier.clone(), metrics: self.metrics.clone(), policy: self.policy.clone() }
    }
}

impl ApprovedSupplierQuality {
    pub fn supplier(&self) -> (r: &DropshipSupplier)
        ensures
            *r == self.spec_supplier(),
    {
        &self.supplier
    }

    pub fn metrics(&self) -> (r: &SupplierQualityMetrics)
        ensures
            *r == self.spec_metrics(),
    {
        &self.metrics
    }

    pub fn policy(&self) -> (r: &SupplierRiskPolicy)
        ensures
            *r == self.spec_policy(),
    {
        &self.policy
    }
}

pub open spec fn confidence_allows_spec(confidence: Confidence) -> bool {
    confidence == Confidence::Medium || confidence == Confidence::High
}

pub fn confidence_allows_auto_replenish(confidence: Confidence) -> (r: bool)
    ensures
        r == confidence_allows_spec(confidence),
{
    match confidence {
        Confidence::Medium | Confidence::High => true,
        Confidence::Low => false,
    }
}

/// Every quality metric is within the policy's maximum.
pub open spec fn quality_within_policy(metrics: SupplierQualityMetrics, policy: SupplierRiskPolicy) -> bool {
    &&& metrics.spec_defect_rate_bps() <= policy.spec_max_defect_rate_bps()
    &&& metrics.spec_late_shipment_rate_bps() <= policy.spec_max_late_shipment_rate_bps()
    &&& metrics.spec_cancellation_rate_bps() <= policy.spec_max_cancellation_rate_bps()
}

impl ApprovedSupplierQuality {
    pub fn try_new(supplier: DropshipSupplier, metrics: SupplierQualityMetrics, policy: SupplierRiskPolicy) -> (r: DomainResult<Self>)
        ensures
            !quality_within_policy(metrics, policy) ==> r == Err::<Self, ValidationError>(ValidationError::Invariant("supplier quality metrics exceed policy")),
            quality_within_policy(metrics, policy) ==> r == Ok::<Self, ValidationError>(ApprovedSupplierQuality::spec_new(supplier, metrics, policy)),
    {
        if metrics.defect_rate_bps > policy.max_defect_rate_bps || metrics.late_shipment_rate_bps
            > policy.max_late_shipment_rate_bps || metrics.cancellation_rate_bps > policy.max_cancellation_rate_bps {
            return Err(ValidationError::Invariant("supplier quality metrics exceed policy"));
        }
        Ok(Self { supplier, metrics, policy })
    }
}

/// The accessor lemmas for the records of this module.
pub broadcast group group_forecasting_record_fields {
    lemma_demand_forecast_fields,
    lemma_supplier_quality_metrics_fields,
    lemma_supplier_risk_policy_fields,
    lemma_approved_supplier_quality_fields,
}

} // verus!
