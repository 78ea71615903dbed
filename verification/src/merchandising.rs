//! Brand pricing (MAP/MSRP), bundles, promotion stacking and search results.

use vstd::prelude::*;
use crate::foundation::clone_vec_exact;
use crate::foundation::{DomainResult, Money, Nat, Quantity, Sku, ValidationError, checked_mul, mul_result};

verus! {

#[derive(Debug, PartialEq, Eq, Structural)]
pub struct SearchResultItem {
    pub(crate) sku: Sku,
    pub(crate) archived: bool,
    pub(crate) in_stock: bool,
    pub(crate) margin_safe: bool,
}

impl SearchResultItem {
    pub open(crate) spec fn spec_sku(&self) -> Sku {
        self.sku
    }

    pub open(crate) spec fn spec_archived(&self) -> bool {
        self.archived
    }

    pub open(crate) spec fn spec_in_stock(&self) -> bool {
        self.in_stock
    }

    pub open(crate) spec fn spec_margin_safe(&self) -> bool {
        self.margin_safe
    }

    pub open(crate) spec fn spec_new(sku: Sku, archived: bool, in_stock: bool, margin_safe: bool) -> Self {
        SearchResultItem { sku, archived, in_stock, margin_safe }
    }
}

/// The accessors of a `SearchResultItem` built by `spec_new` give back its parts.
pub broadcast proof fn lemma_search_result_item_fields(sku: Sku, archived: bool, in_stock: bool, margin_safe: bool)
    ensures
        #[trigger] SearchResultItem::spec_new(sku, archived, in_stock, margin_safe).spec_sku() == sku
            && SearchResultItem::spec_new(sku, archived, in_stock, margin_safe).spec_archived() == archived
            && SearchResultItem::spec_new(sku, archived, in_stock, margin_safe).spec_in_stock() == in_stock
            && SearchResultItem::spec_new(sku, archived, in_stock, margin_safe).spec_margin_safe() == margin_safe,
{
}

impl Clone for SearchResultItem {
    fn clone(&self) -> (r: Self)
        ensures
            r == *self,
    {
        SearchResultItem { sku: self.sku, archived: self.archived, in_stock: self.in_stock, margin_safe: self.margin_safe }
    }
}

impl SearchResultItem {
    pub fn new(sku: Sku, archived: bool, in_stock: bool, margin_safe: bool) -> (r: Self)
        ensures
            r == (SearchResultItem::spec_new(sku, archived, in_stock, margin_safe)),
    {
        SearchResultItem { sku, archived, in_stock, margin_safe }
    }

    pub fn try_new(sku: Sku, archived: bool, in_stock: bool, margin_safe: bool) -> (r: DomainResult<Self>)
        ensures
            r == Ok::<Self, ValidationError>(SearchResultItem::spec_new(sku, archived, in_stock, margin_safe)),
    {
        Ok(Self::new(sku, archived, in_stock, margin_safe))
    }

    pub fn sku(&self) -> (r: Sku)
        ensures
            r == self.spec_sku(),
    {
        self.sku
    }

    pub fn archived(&self) -> (r: bool)
        ensures
            r == self.spec_archived(),
    {
        self.archived
    }

    pub fn in_stock(&self) -> (r: bool)
        ensures
            r == self.spec_in_stock(),
    {
        self.in_stock
    }

    pub fn margin_safe(&self) -> (r: bool)
        ensures
            r == self.spec_margin_safe(),
    {
        self.margin_safe
    }
}

#[derive(Debug, PartialEq, Eq, Structural)]
pub struct BrandPricingPolicy {
    pub(crate) map_price: Money,
    pub(crate) msrp: Money,
}

impl BrandPricingPolicy {
    /// Every value satisfies what `try_new` checks.
    #[verifier::type_invariant]
    pub open spec fn valid(self) -> bool {
        self.spec_map_price() <= self.spec_msrp()
    }

    pub open(crate) spec fn spec_map_price(&self) -> Money {
        self.map_price
    }

    pub open(crate) spec fn spec_msrp(&self) -> Money {
        self.msrp
    }

    pub open(crate) spec fn spec_new(map_price: Money, msrp: Money) -> Self {
        BrandPricingPolicy { map_price, msrp }
    }
}

/// The accessors of a `BrandPricingPolicy` built by `spec_new` give back its parts.
pub broadcast proof fn lemma_brand_pricing_policy_fields(map_price: Money, msrp: Money)
    ensures
        #[trigger] BrandPricingPolicy::spec_new(map_price, msrp).spec_map_price() == map_price
            && BrandPricingPolicy::spec_new(map_price, msrp).spec_msrp() == msrp,
{
}

impl Clone for BrandPricingPolicy {
    fn clone(&self) -> (r: Self)
        ensures
            r == *self,
    {
        proof {
            use_type_invariant(self);
        }
        BrandPricingPolicy { map_price: self.map_price, msrp: self.msrp }
    }
}

#[derive(Debug, PartialEq, Eq, Structural)]
pub struct BundleComponent {
    pub(crate) sku: Sku,
    pub(crate) units_per_bundle: Quantity,
    pub(crate) stock_available: Quantity,
}

impl BundleComponent {
    /// Every value satisfies what `try_new` checks.
    #[verifier::type_invariant]
    pub open spec fn valid(self) -> bool {
        self.spec_units_per_bundle() != 0
    }

    pub open(crate) spec fn spec_sku(&self) -> Sku {
        self.sku
    }

    pub open(crate) spec fn spec_units_per_bundle(&self) -> Quantity {
        self.units_per_bundle
    }

    pub open(crate) spec fn spec_stock_available(&self) -> Quantity {
        self.stock_available
    }

    pub open(crate) spec fn spec_new(sku: Sku, units_per_bundle: Quantity, stock_available: Quantity) -> Self {
        BundleComponent { sku, units_per_bundle, stock_available }
    }
}

/// The accessors of a `BundleComponent` built by `spec_new` give back its parts.
pub broadcast proof fn lemma_bundle_component_fields(sku: Sku, units_per_bundle: Quantity, stock_available: Quantity)
    ensures
        #[trigger] BundleComponent::spec_new(sku, units_per_bundle, stock_available).spec_sku() == sku
            && BundleComponent::spec_new(sku, units_per_bundle, stock_available).spec_units_per_bundle() == units_per_bundle
            && BundleComponent::spec_new(sku, units_per_bundle, stock_available).spec_stock_available() == stock_available,
{
}

impl Clone for BundleComponent {
    fn clone(&self) -> (r: Self)
        ensures
            r == *self,
    {
        proof {
            use_type_invariant(self);
        }
        BundleComponent { sku: self.sku, units_per_bundle: self.units_per_bundle, stock_available: self.stock_available }
    }
}

#[derive(Debug, PartialEq, Eq)]
pub struct BundleReservation {
    pub(crate) bundle_qty: Quantity,
    pub(crate) components: Vec<BundleComponent>,
}

impl BundleReservation {
    /// Equal fields, and equal contents for the vectors it holds.
    pub open spec fn same_content(self, other: Self) -> bool {
        self.spec_bundle_qty() == other.spec_bundle_qty()
            && self.spec_components()@ == other.spec_components()@
    }

    /// Every value satisfies what `try_new` checks.
    #[verifier::type_invariant]
    pub open spec fn valid(self) -> bool {
        bundle_components_error(self.spec_bundle_qty(), self.spec_components()@) is None
    }

    pub open(crate) spec fn spec_bundle_qty(&self) -> Quantity {
        self.bundle_qty
    }

    pub open(crate) spec fn spec_components(&self) -> Vec<BundleComponent> {
        self.components
    }

    pub open(crate) spec fn spec_new(bundle_qty: Quantity, components: Vec<BundleComponent>) -> Self {
        BundleReservation { bundle_qty, components }
    }
}

/// The accessors of a `BundleReservation` built by `spec_new` give back its parts.
pub broadcast proof fn lemma_bundle_reservation_fields(bundle_qty: Quantity, components: Vec<BundleComponent>)
    ensures
        #[trigger] BundleReservation::spec_new(bundle_qty, components).spec_bundle_qty() == bundle_qty
            && BundleReservation::spec_new(bundle_qty, components).spec_components() == components,
{
}

impl Clone for BundleReservation {
    fn clone(&self) -> (r: Self)
        ensures
            r.same_content(*self),
    {
        proof {
            use_type_invariant(self);
        }
        BundleReservation { bundle_qty: self.bundle_qty.clone(), components: clone_vec_exact(&self.components) }
    }
}

#[derive(Clone, Copy, Debug, PartialEq, Eq, Structural)]
pub enum PromotionStackingPolicy {
    Exclusive,
    Stackable,
    StackableWithCap,
}

#[derive(Debug, PartialEq, Eq, Structural)]
pub struct AcceptedPromotionSet {
    pub(crate) resulting_price: Money,
    pub(crate) total_discount: Money,
    pub(crate) discount_cap: Money,
    pub(crate) profit_floor: Money,
}

impl AcceptedPromotionSet {
    /// Every value satisfies what `try_new` checks.
    #[verifier::type_invariant]
    pub open spec fn valid(self) -> bool {
        self.spec_total_discount() <= self.spec_discount_cap() && self.spec_profit_floor() <= self.spec_resulting_price()
    }

    pub open(crate) spec fn spec_resulting_price(&self) -> Money {
        self.resulting_price
    }

    pub open(crate) spec fn spec_total_discount(&self) -> Money {
        self.total_discount
    }

    pub open(crate) spec fn spec_discount_cap(&self) -> Money {
        self.discount_cap
    }

    pub open(crate) spec fn spec_profit_floor(&self) -> Money {
        self.profit_floor
    }

    pub open(crate) spec fn spec_new(resulting_price: Money, total_discount: Money, discount_cap: Money, profit_floor: Money) -> Self {
        AcceptedPromotionSet { resulting_price, total_discount, discount_cap, profit_floor }
    }
}

/// The accessors of a `AcceptedPromotionSet` built by `spec_new` give back its parts.
pub broadcast proof fn lemma_accepted_promotion_set_fields(resulting_price: Money, total_discount: Money, discount_cap: Money, profit_floor: Money)
    ensures
        #[trigger] AcceptedPromotionSet::spec_new(resulting_price, total_discount, discount_cap, profit_floor).spec_resulting_price() == resulting_price
            && AcceptedPromotionSet::spec_new(resulting_price, total_discount, discount_cap, profit_floor).spec_total_discount() == total_discount
            && AcceptedPromotionSet::spec_new(resulting_price, total_discount, discount_cap, profit_floor).spec_discount_cap() == discount_cap
            && AcceptedPromotionSet::spec_new(resulting_price, total_discount, discount_cap, profit_floor).spec_profit_floor() == profit_floor,
{
}

impl Clone for AcceptedPromotionSet {
    fn clone(&self) -> (r: Self)
        ensures
            r == *self,
    {
        proof {
            use_type_invariant(self);
        }
        AcceptedPromotionSet { resulting_price: self.resulting_price, total_discount: self.total_discount, discount_cap: self.discount_cap, profit_floor: self.profit_floor }
    }
}

#[derive(Debug, PartialEq, Eq, Structural)]
pub struct ValidSearchResultItem {
    pub(crate) item: SearchResultItem,
}

impl ValidSearchResultItem {
    /// Every value satisfies what `try_new` checks.
    #[verifier::type_invariant]
    pub open spec fn valid(self) -> bool {
        !(self.spec_item().spec_archived() || !self.spec_item().spec_in_stock() || !self.spec_item().spec_margin_safe())
    }

    pub open(crate) spec fn spec_item(&self) -> SearchResultItem {
        self.item
    }

    pub open(crate) spec fn spec_new(item: SearchResultItem) -> Self {
        ValidSearchResultItem { item }
    }
}

/// The accessors of a `ValidSearchResultItem` built by `spec_new` give back its parts.
pub broadcast proof fn lemma_valid_search_result_item_fields(item: SearchResultItem)
    ensures
        #[trigger] ValidSearchResultItem::spec_new(item).spec_item() == item,
{
}

impl Clone for ValidSearchResultItem {
    fn clone(&self) -> (r: Self)
        ensures
            r == *self,
    {
        proof {
            use_type_invariant(self);
        }
        ValidSearchResultItem { item: self.item.clone() }
    }
}

impl BrandPricingPolicy {
    pub fn map_price(&self) -> (r: Money)
        ensures
            r == self.spec_map_price(),
    {
        self.map_price
    }

    pub fn msrp(&self) -> (r: Money)
        ensures
            r == self.spec_msrp(),
    {
        self.msrp
    }
}

impl BundleComponent {
    pub fn sku(&self) -> (r: Sku)
        ensures
            r == self.spec_sku(),
    {
        self.sku
    }

    pub fn units_per_bundle(&self) -> (r: Quantity)
        ensures
            r == self.spec_units_per_bundle(),
    {
        self.units_per_bundle
    }

    pub fn stock_available(&self) -> (r: Quantity)
        ensures
            r == self.spec_stock_available(),
    {
        self.stock_available
    }
}

impl BundleReservation {
    pub fn bundle_qty(&self) -> (r: Quantity)
        ensures
            r == self.spec_bundle_qty(),
    {
        self.bundle_qty
    }

    pub fn components(&self) -> (r: &[BundleComponent])
        ensures
            r@ == self.spec_components()@,
    {
        self.components.as_slice()
    }
}

impl AcceptedPromotionSet {
    pub fn resulting_price(&self) -> (r: Money)
        ensures
            r == self.spec_resulting_price(),
    {
        self.resulting_price
    }

    pub fn total_discount(&self) -> (r: Money)
        ensures
            r == self.spec_total_discount(),
    {
        self.total_discount
    }

    pub fn discount_cap(&self) -> (r: Money)
        ensures
            r == self.spec_discount_cap(),
    {
        self.discount_cap
    }

    pub fn profit_floor(&self) -> (r: Money)
        ensures
            r == self.spec_profit_floor(),
    {
        self.profit_floor
    }
}

impl ValidSearchResultItem {
    pub fn item(&self) -> (r: &SearchResultItem)
        ensures
            *r == self.spec_item(),
    {
        &self.item
    }
}

impl BrandPricingPolicy {
    pub fn try_new(map_price: Money, msrp: Money) -> (r: DomainResult<Self>)
        ensures
            map_price > msrp ==> r == Err::<Self, ValidationError>(ValidationError::Invariant("MAP exceeds MSRP")),
            map_price <= msrp ==> r == Ok::<Self, ValidationError>(BrandPricingPolicy::spec_new(map_price, msrp)),
    {
        if map_price > msrp {
            return Err(ValidationError::Invariant("MAP exceeds MSRP"));
        }
        Ok(Self { map_price, msrp })
    }
}

pub fn advertised_price_allowed(policy: &BrandPricingPolicy, advertised_price: Money) -> (r: bool)
    ensures
        r == (policy.spec_map_price() <= advertised_price),
{
    policy.map_price <= advertised_price
}

impl BundleComponent {
    pub fn try_new(sku: Sku, units_per_bundle: Quantity, stock_available: Quantity) -> (r: DomainResult<Self>)
        ensures
            units_per_bundle == 0 ==> r == Err::<Self, ValidationError>(ValidationError::Invariant("bundle units per component must be positive")),
            units_per_bundle != 0 ==> r == Ok::<Self, ValidationError>(BundleComponent::spec_new(sku, units_per_bundle, stock_available)),
    {
        if units_per_bundle == 0 {
            return Err(ValidationError::Invariant("bundle units per component must be positive"));
        }
        Ok(Self { sku, units_per_bundle, stock_available })
    }
}

pub fn component_required_for_bundles(bundle_qty: Quantity, component: &BundleComponent) -> (r: DomainResult<Quantity>)
    ensures
        r == mul_result(bundle_qty as int, component.spec_units_per_bundle() as int, "component_required_for_bundles"),
{
    checked_mul(bundle_qty, component.units_per_bundle, "component_required_for_bundles")
}

/// Whether the component's stock covers `bundle_qty` bundles.
pub open spec fn component_can_fulfill_spec(bundle_qty: u128, component: BundleComponent) -> DomainResult<bool> {
    match mul_result(bundle_qty as int, component.spec_units_per_bundle() as int, "component_required_for_bundles") {
        Err(e) => Err(e),
        Ok(required) => Ok(required <= component.spec_stock_available()),
    }
}

pub fn component_can_fulfill_bundles(bundle_qty: Quantity, component: &BundleComponent) -> (r: DomainResult<bool>)
    ensures
        r == component_can_fulfill_spec(bundle_qty, *component),
{
    match component_required_for_bundles(bundle_qty, component) {
        Err(e) => Err(e),
        Ok(required) => Ok(required <= component.stock_available),
    }
}

/// Components are checked in order: the first error, then the first one that
/// cannot cover the bundles.
pub open spec fn bundle_components_error(bundle_qty: u128, components: Seq<BundleComponent>) -> Option<ValidationError>
    decreases components.len(),
{
    if components.len() == 0 {
        None
    } else {
        match bundle_components_error(bundle_qty, components.drop_last()) {
            Some(e) => Some(e),
            None => match component_can_fulfill_spec(bundle_qty, components.last()) {
                Err(e) => Some(e),
                Ok(ok) => if ok {
                    None
                } else {
                    Some(ValidationError::Invariant("bundle component cannot fulfill reservation"))
                },
            },
        }
    }
}

/// Extending the components by one checks that component after the earlier ones.
pub proof fn lemma_bundle_error_step(bundle_qty: u128, components: Seq<BundleComponent>, i: int)
    requires
        0 <= i < components.len(),
    ensures
        bundle_components_error(bundle_qty, components.take(i + 1)) == (match bundle_components_error(bundle_qty, components.take(i)) {
            Some(e) => Some(e),
            None => match component_can_fulfill_spec(bundle_qty, components[i]) {
                Err(e) => Some(e),
                Ok(ok) => if ok {
                    None
                } else {
                    Some(ValidationError::Invariant("bundle component cannot fulfill reservation"))
                },
            },
        }),
{
    assert(components.take(i + 1).drop_last() =~= components.take(i));
}

/// Once a prefix of the components fails, the whole list fails with the same error.
pub proof fn lemma_bundle_error_sticks(bundle_qty: u128, components: Seq<BundleComponent>, i: int)
    requires
        0 <= i <= components.len(),
        bundle_components_error(bundle_qty, components.take(i)) is Some,
    ensures
        bundle_components_error(bundle_qty, components) == bundle_components_error(bundle_qty, components.take(i)),
    decreases components.len() - i,
{
    if i == components.len() {
        assert(components.take(i) =~= components);
    } else {
        lemma_bundle_error_step(bundle_qty, components, i);
        lemma_bundle_error_sticks(bundle_qty, components, i + 1);
    }
}

impl BundleReservation {
    pub fn try_new(bundle_qty: Quantity, components: Vec<BundleComponent>) -> (r: DomainResult<Self>)
        ensures
            r == (match bundle_components_error(bundle_qty, components@) {
                Some(e) => Err(e),
                None => Ok(BundleReservation::spec_new(bundle_qty, components)),
            }),
    {
        let mut i: usize = 0;
        while i < components.len()
            invariant
                i <= components.len(),
                bundle_components_error(bundle_qty, components@.take(i as int)) is None,
            decreases components.len() - i,
        {
            proof {
                lemma_bundle_error_step(bundle_qty, components@, i as int);
            }
            match component_can_fulfill_bundles(bundle_qty, &components[i]) {
                Err(e) => {
                    proof {
                        lemma_bundle_error_sticks(bundle_qty, components@, i + 1);
                    }
                    return Err(e);
                },
                Ok(ok) => if !ok {
                    proof {
                        lemma_bundle_error_sticks(bundle_qty, components@, i + 1);
                    }
                    return Err(ValidationError::Invariant("bundle component cannot fulfill reservation"));
                },
            }
            i += 1;
        }
        proof {
            assert(components@.take(components.len() as int) =~= components@);
        }
        Ok(Self { bundle_qty, components })
    }
}

impl AcceptedPromotionSet {
    pub fn try_new(resulting_price: Money, total_discount: Money, discount_cap: Money, profit_floor: Money) -> (r: DomainResult<Self>)
        ensures
            total_discount > discount_cap ==> r == Err::<Self, ValidationError>(ValidationError::Invariant("promotion discount exceeds cap")),
            total_discount <= discount_cap && profit_floor > resulting_price ==> r == Err::<Self, ValidationError>(ValidationError::Invariant("promotion price below profit floor")),
            total_discount <= discount_cap && profit_floor <= resulting_price ==> r == Ok::<Self, ValidationError>(
                AcceptedPromotionSet::spec_new(resulting_price, total_discount, discount_cap, profit_floor),
            ),
    {
        if total_discount > discount_cap {
            return Err(ValidationError::Invariant("promotion discount exceeds cap"));
        }
        if profit_floor > resulting_price {
            return Err(ValidationError::Invariant("promotion price below profit floor"));
        }
        Ok(Self { resulting_price, total_discount, discount_cap, profit_floor })
    }
}

pub fn promotion_set_allowed_by_policy(policy: PromotionStackingPolicy, promotion_count: Nat, set: &AcceptedPromotionSet) -> (r: bool)
    ensures
        r == (match policy {
            PromotionStackingPolicy::Exclusive => promotion_count <= 1,
            PromotionStackingPolicy::Stackable => true,
            PromotionStackingPolicy::StackableWithCap => set.spec_total_discount() <= set.spec_discount_cap(),
        }),
{
    match policy {
        PromotionStackingPolicy::Exclusive => promotion_count <= 1,
        PromotionStackingPolicy::Stackable => true,
        PromotionStackingPolicy::StackableWithCap => set.total_discount <= set.discount_cap,
    }
}

impl ValidSearchResultItem {
    pub fn try_new(item: SearchResultItem) -> (r: DomainResult<Self>)
        ensures
            (item.spec_archived() || !item.spec_in_stock() || !item.spec_margin_safe()) ==> r == Err::<Self, ValidationError>(ValidationError::Invariant("search result is not safe")),
            !(item.spec_archived() || !item.spec_in_stock() || !item.spec_margin_safe()) ==> r == Ok::<Self, ValidationError>(ValidSearchResultItem::spec_new(item)),
    {
        if item.archived || !item.in_stock || !item.margin_safe {
            return Err(ValidationError::Invariant("search result is not safe"));
        }
        Ok(Self { item })
    }
}

/// The accessor lemmas for the records of this module.
pub broadcast group group_merchandising_record_fields {
    lemma_search_result_item_fields,
    lemma_brand_pricing_policy_fields,
    lemma_bundle_component_fields,
    lemma_bundle_reservation_fields,
    lemma_accepted_promotion_set_fields,
    lemma_valid_search_result_item_fields,
}

} // verus!
