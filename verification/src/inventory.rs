//! Stock levels, reservations, warehouse tasks, allocations and fulfillment plans.

use vstd::prelude::*;
use crate::foundation::clone_vec_exact;
use crate::foundation::{DomainResult, Id, Nat, Quantity, Sku, Timestamp, ValidationError, add_result, checked_add, lemma_sum_nat_monotone, lemma_sum_nat_prefix_le, lemma_sum_nat_take_all, lemma_sum_nat_take_step, nat_sub, nat_sub_spec, sum_nat, total_result};

verus! {

#[derive(Debug, PartialEq, Eq)]
pub struct Warehouse {
    pub(crate) id: Id,
    pub(crate) name: String,
}

impl Warehouse {
    pub open(crate) spec fn spec_id(&self) -> Id {
        self.id
    }

    pub open(crate) spec fn spec_name(&self) -> String {
        self.name
    }

    pub open(crate) spec fn spec_new(id: Id, name: String) -> Self {
        Warehouse { id, name }
    }
}

/// The accessors of a `Warehouse` built by `spec_new` give back its parts.
pub broadcast proof fn lemma_warehouse_fields(id: Id, name: String)
    ensures
        #[trigger] Warehouse::spec_new(id, name).spec_id() == id
            && Warehouse::spec_new(id, name).spec_name() == name,
{
}

impl Clone for Warehouse {
    fn clone(&self) -> (r: Self)
        ensures
            r == *self,
    {
        Warehouse { id: self.id, name: self.name.clone() }
    }
}

impl Warehouse {
    pub fn new(id: Id, name: String) -> (r: Self)
        ensures
            r == (Warehouse::spec_new(id, name)),
    {
        Warehouse { id, name }
    }

    pub fn try_new(id: Id, name: String) -> (r: DomainResult<Self>)
        ensures
            r == Ok::<Self, ValidationError>(Warehouse::spec_new(id, name)),
    {
        Ok(Self::new(id, name))
    }

    pub fn id(&self) -> (r: Id)
        ensures
            r == self.spec_id(),
    {
        self.id
    }

    pub fn name(&self) -> (r: &str)
        ensures
            r@ == self.spec_name()@,
    {
        self.name.as_str()
    }
}

#[derive(Debug, PartialEq, Eq)]
pub struct BinLocation {
    pub(crate) warehouse: Warehouse,
    pub(crate) bin_id: Id,
}

impl BinLocation {
    pub open(crate) spec fn spec_warehouse(&self) -> Warehouse {
        self.warehouse
    }

    pub open(crate) spec fn spec_bin_id(&self) -> Id {
        self.bin_id
    }

    pub open(crate) spec fn spec_new(warehouse: Warehouse, bin_id: Id) -> Self {
        BinLocation { warehouse, bin_id }
    }
}

/// The accessors of a `BinLocation` built by `spec_new` give back its parts.
pub broadcast proof fn lemma_bin_location_fields(warehouse: Warehouse, bin_id: Id)
    ensures
        #[trigger] BinLocation::spec_new(warehouse, bin_id).spec_warehouse() == warehouse
            && BinLocation::spec_new(warehouse, bin_id).spec_bin_id() == bin_id,
{
}

impl Clone for BinLocation {
    fn clone(&self) -> (r: Self)
        ensures
            r == *self,
    {
        BinLocation { warehouse: self.warehouse.clone(), bin_id: self.bin_id }
    }
}

impl BinLocation {
    pub fn new(warehouse: Warehouse, bin_id: Id) -> (r: Self)
        ensures
            r == (BinLocation::spec_new(warehouse, bin_id)),
    {
        BinLocation { warehouse, bin_id }
    }

    pub fn try_new(warehouse: Warehouse, bin_id: Id) -> (r: DomainResult<Self>)
        ensures
            r == Ok::<Self, ValidationError>(BinLocation::spec_new(warehouse, bin_id)),
    {
        Ok(Self::new(warehouse, bin_id))
    }

    pub fn warehouse(&self) -> (r: &Warehouse)
        ensures
            *r == self.spec_warehouse(),
    {
        &self.warehouse
    }

    pub fn bin_id(&self) -> (r: Id)
        ensures
            r == self.spec_bin_id(),
    {
        self.bin_id
    }
}

#[derive(Debug, PartialEq, Eq)]
pub struct BinStock {
    pub(crate) sku: Sku,
    pub(crate) location: BinLocation,
    pub(crate) quantity: Quantity,
}

impl BinStock {
    pub open(crate) spec fn spec_sku(&self) -> Sku {
        self.sku
    }

    pub open(crate) spec fn spec_location(&self) -> BinLocation {
        self.location
    }

    pub open(crate) spec fn spec_quantity(&self) -> Quantity {
        self.quantity
    }

    pub open(crate) spec fn spec_new(sku: Sku, location: BinLocation, quantity: Quantity) -> Self {
        BinStock { sku, location, quantity }
    }
}

/// The accessors of a `BinStock` built by `spec_new` give back its parts.
pub broadcast proof fn lemma_bin_stock_fields(sku: Sku, location: BinLocation, quantity: Quantity)
    ensures
        #[trigger] BinStock::spec_new(sku, location, quantity).spec_sku() == sku
            && BinStock::spec_new(sku, location, quantity).spec_location() == location
            && BinStock::spec_new(sku, location, quantity).spec_quantity() == quantity,
{
}

impl Clone for BinStock {
    fn clone(&self) -> (r: Self)
        ensures
            r == *self,
    {
        BinStock { sku: self.sku, location: self.location.clone(), quantity: self.quantity }
    }
}

impl BinStock {
    pub fn new(sku: Sku, location: BinLocation, quantity: Quantity) -> (r: Self)
        ensures
            r == (BinStock::spec_new(sku, location, quantity)),
    {
        BinStock { sku, location, quantity }
    }

    pub fn try_new(sku: Sku, location: BinLocation, quantity: Quantity) -> (r: DomainResult<Self>)
        ensures
            r == Ok::<Self, ValidationError>(BinStock::spec_new(sku, location, quantity)),
    {
        Ok(Self::new(sku, location, quantity))
    }

    pub fn sku(&self) -> (r: Sku)
        ensures
            r == self.spec_sku(),
    {
        self.sku
    }

    pub fn location(&self) -> (r: &BinLocation)
        ensures
            *r == self.spec_location(),
    {
        &self.location
    }

    pub fn quantity(&self) -> (r: Quantity)
        ensures
            r == self.spec_quantity(),
    {
        self.quantity
    }
}

#[derive(Debug, PartialEq, Eq)]
pub struct InventoryNode {
    pub(crate) warehouse: Warehouse,
    pub(crate) stock: StockState,
}

impl InventoryNode {
    pub open(crate) spec fn spec_warehouse(&self) -> Warehouse {
        self.warehouse
    }

    pub open(crate) spec fn spec_stock(&self) -> StockState {
        self.stock
    }

    pub open(crate) spec fn spec_new(warehouse: Warehouse, stock: StockState) -> Self {
        InventoryNode { warehouse, stock }
    }
}

/// The accessors of a `InventoryNode` built by `spec_new` give back its parts.
pub broadcast proof fn lemma_inventory_node_fields(warehouse: Warehouse, stock: StockState)
    ensures
        #[trigger] InventoryNode::spec_new(warehouse, stock).spec_warehouse() == warehouse
            && InventoryNode::spec_new(warehouse, stock).spec_stock() == stock,
{
}

impl Clone for InventoryNode {
    fn clone(&self) -> (r: Self)
        ensures
            r == *self,
    {
        InventoryNode { warehouse: self.warehouse.clone(), stock: self.stock }
    }
}

impl InventoryNode {
    pub fn new(warehouse: Warehouse, stock: StockState) -> (r: Self)
        ensures
            r == (InventoryNode::spec_new(warehouse, stock)),
    {
        InventoryNode { warehouse, stock }
    }

    pub fn try_new(warehouse: Warehouse, stock: StockState) -> (r: DomainResult<Self>)
        ensures
            r == Ok::<Self, ValidationError>(InventoryNode::spec_new(warehouse, stock)),
    {
        Ok(Self::new(warehouse, stock))
    }

    pub fn warehouse(&self) -> (r: &Warehouse)
        ensures
            *r == self.spec_warehouse(),
    {
        &self.warehouse
    }

    pub fn stock(&self) -> (r: StockState)
        ensures
            r == self.spec_stock(),
    {
        self.stock
    }
}

#[derive(Debug, PartialEq, Eq)]
pub struct SerializedInventoryUnit {
    pub(crate) sku: Sku,
    pub(crate) serial: SerialNumber,
    pub(crate) warehouse: Warehouse,
    pub(crate) reserved: bool,
}

impl SerializedInventoryUnit {
    pub open(crate) spec fn spec_sku(&self) -> Sku {
        self.sku
    }

    pub open(crate) spec fn spec_serial(&self) -> SerialNumber {
        self.serial
    }

    pub open(crate) spec fn spec_warehouse(&self) -> Warehouse {
        self.warehouse
    }

    pub open(crate) spec fn spec_reserved(&self) -> bool {
        self.reserved
    }

    pub open(crate) spec fn spec_new(sku: Sku, serial: SerialNumber, warehouse: Warehouse, reserved: bool) -> Self {
        SerializedInventoryUnit { sku, serial, warehouse, reserved }
    }
}

/// The accessors of a `SerializedInventoryUnit` built by `spec_new` give back its parts.
pub broadcast proof fn lemma_serialized_inventory_unit_fields(sku: Sku, serial: SerialNumber, warehouse: Warehouse, reserved: bool)
    ensures
        #[trigger] SerializedInventoryUnit::spec_new(sku, serial, warehouse, reserved).spec_sku() == sku
            && SerializedInventoryUnit::spec_new(sku, serial, warehouse, reserved).spec_serial() == serial
            && SerializedInventoryUnit::spec_new(sku, serial, warehouse, reserved).spec_warehouse() == warehouse
            && SerializedInventoryUnit::spec_new(sku, serial, warehouse, reserved).spec_reserved() == reserved,
{
}

impl Clone for SerializedInventoryUnit {
    fn clone(&self) -> (r: Self)
        ensures
            r == *self,
    {
        SerializedInventoryUnit { sku: self.sku, serial: self.serial, warehouse: self.warehouse.clone(), reserved: self.reserved }
    }
}

impl SerializedInventoryUnit {
    pub fn new(sku: Sku, serial: SerialNumber, warehouse: Warehouse, reserved: bool) -> (r: Self)
        ensures
            r == (SerializedInventoryUnit::spec_new(sku, serial, warehouse, reserved)),
    {
        SerializedInventoryUnit { sku, serial, warehouse, reserved }
    }

    pub fn try_new(sku: Sku, serial: SerialNumber, warehouse: Warehouse, reserved: bool) -> (r: DomainResult<Self>)
        ensures
            r == Ok::<Self, ValidationError>(SerializedInventoryUnit::spec_new(sku, serial, warehouse, reserved)),
    {
        Ok(Self::new(sku, serial, warehouse, reserved))
    }

    pub fn sku(&self) -> (r: Sku)
        ensures
            r == self.spec_sku(),
    {
        self.sku
    }

    pub fn serial(&self) -> (r: SerialNumber)
        ensures
            r == self.spec_serial(),
    {
        self.serial
    }

    pub fn warehouse(&self) -> (r: &Warehouse)
        ensures
            *r == self.spec_warehouse(),
    {
        &self.warehouse
    }

    pub fn reserved(&self) -> (r: bool)
        ensures
            r == self.spec_reserved(),
    {
        self.reserved
    }
}

#[derive(Debug, PartialEq, Eq)]
pub struct InventoryLot {
    pub(crate) sku: Sku,
    pub(crate) lot_id: Id,
    pub(crate) warehouse: Warehouse,
    pub(crate) expires_at: Timestamp,
    pub(crate) quantity: Quantity,
}

impl InventoryLot {
    pub open(crate) spec fn spec_sku(&self) -> Sku {
        self.sku
    }

    pub open(crate) spec fn spec_lot_id(&self) -> Id {
        self.lot_id
    }

    pub open(crate) spec fn spec_warehouse(&self) -> Warehouse {
        self.warehouse
    }

    pub open(crate) spec fn spec_expires_at(&self) -> Timestamp {
        self.expires_at
    }

    pub open(crate) spec fn spec_quantity(&self) -> Quantity {
        self.quantity
    }

    pub open(crate) spec fn spec_new(sku: Sku, lot_id: Id, warehouse: Warehouse, expires_at: Timestamp, quantity: Quantity) -> Self {
        InventoryLot { sku, lot_id, warehouse, expires_at, quantity }
    }
}

/// The accessors of a `InventoryLot` built by `spec_new` give back its parts.
pub broadcast proof fn lemma_inventory_lot_fields(sku: Sku, lot_id: Id, warehouse: Warehouse, expires_at: Timestamp, quantity: Quantity)
    ensures
        #[trigger] InventoryLot::spec_new(sku, lot_id, warehouse, expires_at, quantity).spec_sku() == sku
            && InventoryLot::spec_new(sku, lot_id, warehouse, expires_at, quantity).spec_lot_id() == lot_id
            && InventoryLot::spec_new(sku, lot_id, warehouse, expires_at, quantity).spec_warehouse() == warehouse
            && InventoryLot::spec_new(sku, lot_id, warehouse, expires_at, quantity).spec_expires_at() == expires_at
            && InventoryLot::spec_new(sku, lot_id, warehouse, expires_at, quantity).spec_quantity() == quantity,
{
}

impl Clone for InventoryLot {
    fn clone(&self) -> (r: Self)
        ensures
            r == *self,
    {
        InventoryLot { sku: self.sku, lot_id: self.lot_id, warehouse: self.warehouse.clone(), expires_at: self.expires_at, quantity: self.quantity }
    }
}

impl InventoryLot {
    pub fn new(sku: Sku, lot_id: Id, warehouse: Warehouse, expires_at: Timestamp, quantity: Quantity) -> (r: Self)
        ensures
            r == (InventoryLot::spec_new(sku, lot_id, warehouse, expires_at, quantity)),
    {
        InventoryLot { sku, lot_id, warehouse, expires_at, quantity }
    }

    pub fn try_new(sku: Sku, lot_id: Id, warehouse: Warehouse, expires_at: Timestamp, quantity: Quantity) -> (r: DomainResult<Self>)
        ensures
            r == Ok::<Self, ValidationError>(InventoryLot::spec_new(sku, lot_id, warehouse, expires_at, quantity)),
    {
        Ok(Self::new(sku, lot_id, warehouse, expires_at, quantity))
    }

    pub fn sku(&self) -> (r: Sku)
        ensures
            r == self.spec_sku(),
    {
        self.sku
    }

    pub fn lot_id(&self) -> (r: Id)
        ensures
            r == self.spec_lot_id(),
    {
        self.lot_id
    }

    pub fn warehouse(&self) -> (r: &Warehouse)
        ensures
            *r == self.spec_warehouse(),
    {
        &self.warehouse
    }

    pub fn expires_at(&self) -> (r: Timestamp)
        ensures
            r == self.spec_expires_at(),
    {
        self.expires_at
    }

    pub fn quantity(&self) -> (r: Quantity)
        ensures
            r == self.spec_quantity(),
    {
        self.quantity
    }
}

#[derive(Clone, Copy, Debug, PartialEq, Eq, Structural)]
pub struct StockState {
    pub(crate) sku: Sku,
    pub(crate) total: Quantity,
    pub(crate) reserved: Quantity,
}

impl StockState {
    pub open(crate) spec fn spec_sku(&self) -> Sku {
        self.sku
    }

    pub open(crate) spec fn spec_total(&self) -> Quantity {
        self.total
    }

    pub open(crate) spec fn spec_reserved(&self) -> Quantity {
        self.reserved
    }

    pub open(crate) spec fn spec_new(sku: Sku, total: Quantity, reserved: Quantity) -> Self {
        StockState { sku, total, reserved }
    }
}

/// The accessors of a `StockState` built by `spec_new` give back its parts.
pub broadcast proof fn lemma_stock_state_fields(sku: Sku, total: Quantity, reserved: Quantity)
    ensures
        #[trigger] StockState::spec_new(sku, total, reserved).spec_sku() == sku
            && StockState::spec_new(sku, total, reserved).spec_total() == total
            && StockState::spec_new(sku, total, reserved).spec_reserved() == reserved,
{
}

#[derive(Clone, Copy, Debug, PartialEq, Eq, Structural)]
pub struct VersionedStock {
    pub(crate) stock: StockState,
    pub(crate) version: Nat,
}

impl VersionedStock {
    pub open(crate) spec fn spec_stock(&self) -> StockState {
        self.stock
    }

    pub open(crate) spec fn spec_version(&self) -> Nat {
        self.version
    }

    pub open(crate) spec fn spec_new(stock: StockState, version: Nat) -> Self {
        VersionedStock { stock, version }
    }
}

/// The accessors of a `VersionedStock` built by `spec_new` give back its parts.
pub broadcast proof fn lemma_versioned_stock_fields(stock: StockState, version: Nat)
    ensures
        #[trigger] VersionedStock::spec_new(stock, version).spec_stock() == stock
            && VersionedStock::spec_new(stock, version).spec_version() == version,
{
}

#[derive(Debug, PartialEq, Eq)]
pub struct PickTask {
    pub(crate) sku: Sku,
    pub(crate) requested: Quantity,
    pub(crate) bin: BinStock,
}

impl PickTask {
    /// Every value satisfies what `try_new` checks.
    #[verifier::type_invariant]
    pub open spec fn valid(self) -> bool {
        self.spec_requested() <= self.spec_bin().spec_quantity()
    }

    pub open(crate) spec fn spec_sku(&self) -> Sku {
        self.sku
    }

    pub open(crate) spec fn spec_requested(&self) -> Quantity {
        self.requested
    }

    pub open(crate) spec fn spec_bin(&self) -> BinStock {
        self.bin
    }

    pub open(crate) spec fn spec_new(sku: Sku, requested: Quantity, bin: BinStock) -> Self {
        PickTask { sku, requested, bin }
    }
}

/// The accessors of a `PickTask` built by `spec_new` give back its parts.
pub broadcast proof fn lemma_pick_task_fields(sku: Sku, requested: Quantity, bin: BinStock)
    ensures
        #[trigger] PickTask::spec_new(sku, requested, bin).spec_sku() == sku
            && PickTask::spec_new(sku, requested, bin).spec_requested() == requested
            && PickTask::spec_new(sku, requested, bin).spec_bin() == bin,
{
}

impl Clone for PickTask {
    fn clone(&self) -> (r: Self)
        ensures
            r == *self,
    {
        proof {
            use_type_invariant(self);
        }
        PickTask { sku: self.sku, requested: self.requested, bin: self.bin.clone() }
    }
}

#[derive(Clone, Copy, Debug, PartialEq, Eq, Structural)]
pub struct PackTask {
    pub(crate) picked: Quantity,
    pub(crate) packed: Quantity,
}

impl PackTask {
    /// Every value satisfies what `try_new` checks.
    #[verifier::type_invariant]
    pub open spec fn valid(self) -> bool {
        self.spec_packed() <= self.spec_picked()
    }

    pub open(crate) spec fn spec_picked(&self) -> Quantity {
        self.picked
    }

    pub open(crate) spec fn spec_packed(&self) -> Quantity {
        self.packed
    }

    pub open(crate) spec fn spec_new(picked: Quantity, packed: Quantity) -> Self {
        PackTask { picked, packed }
    }
}

/// The accessors of a `PackTask` built by `spec_new` give back its parts.
pub broadcast proof fn lemma_pack_task_fields(picked: Quantity, packed: Quantity)
    ensures
        #[trigger] PackTask::spec_new(picked, packed).spec_picked() == picked
            && PackTask::spec_new(picked, packed).spec_packed() == packed,
{
}

#[derive(Debug, PartialEq, Eq, Structural)]
pub struct WarehouseShipment {
    pub(crate) packed: Quantity,
    pub(crate) shipped: Quantity,
}

impl WarehouseShipment {
    /// Every value satisfies what `try_new` checks.
    #[verifier::type_invariant]
    pub open spec fn valid(self) -> bool {
        self.spec_shipped() <= self.spec_packed()
    }

    pub open(crate) spec fn spec_packed(&self) -> Quantity {
        self.packed
    }

    pub open(crate) spec fn spec_shipped(&self) -> Quantity {
        self.shipped
    }

    pub open(crate) spec fn spec_new(packed: Quantity, shipped: Quantity) -> Self {
        WarehouseShipment { packed, shipped }
    }
}

/// The accessors of a `WarehouseShipment` built by `spec_new` give back its parts.
pub broadcast proof fn lemma_warehouse_shipment_fields(packed: Quantity, shipped: Quantity)
    ensures
        #[trigger] WarehouseShipment::spec_new(packed, shipped).spec_packed() == packed
            && WarehouseShipment::spec_new(packed, shipped).spec_shipped() == shipped,
{
}

impl Clone for WarehouseShipment {
    fn clone(&self) -> (r: Self)
        ensures
            r == *self,
    {
        proof {
            use_type_invariant(self);
        }
        WarehouseShipment { packed: self.packed, shipped: self.shipped }
    }
}

#[derive(Debug, PartialEq, Eq)]
pub struct Allocation {
    pub(crate) node: InventoryNode,
    pub(crate) quantity: Quantity,
}

impl Allocation {
    /// Every value satisfies what `try_new` checks.
    #[verifier::type_invariant]
    pub open spec fn valid(self) -> bool {
        self.spec_quantity() <= available_stock_spec(self.spec_node().spec_stock())
    }

    pub open(crate) spec fn spec_node(&self) -> InventoryNode {
        self.node
    }

    pub open(crate) spec fn spec_quantity(&self) -> Quantity {
        self.quantity
    }

    pub open(crate) spec fn spec_new(node: InventoryNode, quantity: Quantity) -> Self {
        Allocation { node, quantity }
    }
}

/// The accessors of a `Allocation` built by `spec_new` give back its parts.
pub broadcast proof fn lemma_allocation_fields(node: InventoryNode, quantity: Quantity)
    ensures
        #[trigger] Allocation::spec_new(node, quantity).spec_node() == node
            && Allocation::spec_new(node, quantity).spec_quantity() == quantity,
{
}

impl Clone for Allocation {
    fn clone(&self) -> (r: Self)
        ensures
            r == *self,
    {
        proof {
            use_type_invariant(self);
        }
        Allocation { node: self.node.clone(), quantity: self.quantity }
    }
}

#[derive(Debug, PartialEq, Eq)]
pub struct FulfillmentPlan {
    pub(crate) requested: Quantity,
    pub(crate) allocations: Vec<Allocation>,
}

impl FulfillmentPlan {
    /// Equal fields, and equal contents for the vectors it holds.
    pub open spec fn same_content(self, other: Self) -> bool {
        self.spec_requested() == other.spec_requested()
            && self.spec_allocations()@ == other.spec_allocations()@
    }

    /// Every value satisfies what `try_new` checks.
    #[verifier::type_invariant]
    pub open spec fn valid(self) -> bool {
        total_result(sum_nat(self.spec_allocations()@, allocations_total_value()) as int, "allocations_total") == Ok::<u128, ValidationError>(self.spec_requested())
    }

    pub open(crate) spec fn spec_requested(&self) -> Quantity {
        self.requested
    }

    pub open(crate) spec fn spec_allocations(&self) -> Vec<Allocation> {
        self.allocations
    }

    pub open(crate) spec fn spec_new(requested: Quantity, allocations: Vec<Allocation>) -> Self {
        FulfillmentPlan { requested, allocations }
    }
}

/// The accessors of a `FulfillmentPlan` built by `spec_new` give back its parts.
pub broadcast proof fn lemma_fulfillment_plan_fields(requested: Quantity, allocations: Vec<Allocation>)
    ensures
        #[trigger] FulfillmentPlan::spec_new(requested, allocations).spec_requested() == requested
            && FulfillmentPlan::spec_new(requested, allocations).spec_allocations() == allocations,
{
}

impl Clone for FulfillmentPlan {
    fn clone(&self) -> (r: Self)
        ensures
            r.same_content(*self),
    {
        proof {
            use_type_invariant(self);
        }
        FulfillmentPlan { requested: self.requested.clone(), allocations: clone_vec_exact(&self.allocations) }
    }
}

#[derive(Debug, PartialEq, Eq)]
pub struct DistinctFulfillmentPlan {
    pub(crate) requested: Quantity,
    pub(crate) allocations: Vec<Allocation>,
}

impl DistinctFulfillmentPlan {
    /// Equal fields, and equal contents for the vectors it holds.
    pub open spec fn same_content(self, other: Self) -> bool {
        self.spec_requested() == other.spec_requested()
            && self.spec_allocations()@ == other.spec_allocations()@
    }

    /// Every value satisfies what `try_new` checks.
    #[verifier::type_invariant]
    pub open spec fn valid(self) -> bool {
        total_result(sum_nat(self.spec_allocations()@, allocations_total_value()) as int, "allocations_total") == Ok::<u128, ValidationError>(self.spec_requested())
            && allocation_keys_distinct_spec(self.spec_allocations()@)
    }

    pub open(crate) spec fn spec_requested(&self) -> Quantity {
        self.requested
    }

    pub open(crate) spec fn spec_allocations(&self) -> Vec<Allocation> {
        self.allocations
    }

    pub open(crate) spec fn spec_new(requested: Quantity, allocations: Vec<Allocation>) -> Self {
        DistinctFulfillmentPlan { requested, allocations }
    }
}

/// The accessors of a `DistinctFulfillmentPlan` built by `spec_new` give back its parts.
pub broadcast proof fn lemma_distinct_fulfillment_plan_fields(requested: Quantity, allocations: Vec<Allocation>)
    ensures
        #[trigger] DistinctFulfillmentPlan::spec_new(requested, allocations).spec_requested() == requested
            && DistinctFulfillmentPlan::spec_new(requested, allocations).spec_allocations() == allocations,
{
}

impl Clone for DistinctFulfillmentPlan {
    fn clone(&self) -> (r: Self)
        ensures
            r.same_content(*self),
    {
        proof {
            use_type_invariant(self);
        }
        DistinctFulfillmentPlan { requested: self.requested.clone(), allocations: clone_vec_exact(&self.allocations) }
    }
}

#[derive(Debug, PartialEq, Eq, Structural)]
pub struct ReservationAttempt {
    pub(crate) stock: VersionedStock,
    pub(crate) quantity: Quantity,
    pub(crate) expected_version: Nat,
}

impl ReservationAttempt {
    pub open(crate) spec fn spec_stock(&self) -> VersionedStock {
        self.stock
    }

    pub open(crate) spec fn spec_quantity(&self) -> Quantity {
        self.quantity
    }

    pub open(crate) spec fn spec_expected_version(&self) -> Nat {
        self.expected_version
    }

    pub open(crate) spec fn spec_new(stock: VersionedStock, quantity: Quantity, expected_version: Nat) -> Self {
        ReservationAttempt { stock, quantity, expected_version }
    }
}

/// The accessors of a `ReservationAttempt` built by `spec_new` give back its parts.
pub broadcast proof fn lemma_reservation_attempt_fields(stock: VersionedStock, quantity: Quantity, expected_version: Nat)
    ensures
        #[trigger] ReservationAttempt::spec_new(stock, quantity, expected_version).spec_stock() == stock
            && ReservationAttempt::spec_new(stock, quantity, expected_version).spec_quantity() == quantity
            && ReservationAttempt::spec_new(stock, quantity, expected_version).spec_expected_version() == expected_version,
{
}

impl Clone for ReservationAttempt {
    fn clone(&self) -> (r: Self)
        ensures
            r == *self,
    {
        ReservationAttempt { stock: self.stock, quantity: self.quantity, expected_version: self.expected_version }
    }
}

#[derive(Debug, PartialEq, Eq, Structural)]
pub struct ConcurrentReservationConflict {
    pub(crate) first: ReservationAttempt,
    pub(crate) second: ReservationAttempt,
}

impl ConcurrentReservationConflict {
    /// Every value satisfies what `try_new` checks.
    #[verifier::type_invariant]
    pub open spec fn valid(self) -> bool {
        (self.spec_first().spec_stock().spec_stock().spec_sku() == self.spec_second().spec_stock().spec_stock().spec_sku() && self.spec_first().spec_expected_version() == self.spec_second().spec_expected_version())
    }

    pub open(crate) spec fn spec_first(&self) -> ReservationAttempt {
        self.first
    }

    pub open(crate) spec fn spec_second(&self) -> ReservationAttempt {
        self.second
    }

    pub open(crate) spec fn spec_new(first: ReservationAttempt, second: ReservationAttempt) -> Self {
        ConcurrentReservationConflict { first, second }
    }
}

/// The accessors of a `ConcurrentReservationConflict` built by `spec_new` give back its parts.
pub broadcast proof fn lemma_concurrent_reservation_conflict_fields(first: ReservationAttempt, second: ReservationAttempt)
    ensures
        #[trigger] ConcurrentReservationConflict::spec_new(first, second).spec_first() == first
            && ConcurrentReservationConflict::spec_new(first, second).spec_second() == second,
{
}

impl Clone for ConcurrentReservationConflict {
    fn clone(&self) -> (r: Self)
        ensures
            r == *self,
    {
        proof {
            use_type_invariant(self);
        }
        ConcurrentReservationConflict { first: self.first.clone(), second: self.second.clone() }
    }
}

#[derive(Clone, Copy, Debug, PartialEq, Eq, Structural)]
pub enum ReservationStatus {
    Active,
    Expired,
    Confirmed,
    Released,
}

#[derive(Clone, Copy, Debug, PartialEq, Eq, Structural)]
pub struct TimedReservation {
    pub(crate) stock: StockState,
    pub(crate) quantity: Quantity,
    pub(crate) reserved_at: Timestamp,
    pub(crate) expires_at: Timestamp,
    pub(crate) status: ReservationStatus,
}

impl TimedReservation {
    /// Every value satisfies what `try_new` checks.
    #[verifier::type_invariant]
    pub open spec fn valid(self) -> bool {
        !(self.spec_expires_at().spec_seconds() < self.spec_reserved_at().spec_seconds() || self.spec_quantity() > self.spec_stock().spec_reserved())
    }

    pub open(crate) spec fn spec_stock(&self) -> StockState {
        self.stock
    }

    pub open(crate) spec fn spec_quantity(&self) -> Quantity {
        self.quantity
    }

    pub open(crate) spec fn spec_reserved_at(&self) -> Timestamp {
        self.reserved_at
    }

    pub open(crate) spec fn spec_expires_at(&self) -> Timestamp {
        self.expires_at
    }

    pub open(crate) spec fn spec_status(&self) -> ReservationStatus {
        self.status
    }

    pub open(crate) spec fn spec_new(stock: StockState, quantity: Quantity, reserved_at: Timestamp, expires_at: Timestamp, status: ReservationStatus) -> Self {
        TimedReservation { stock, quantity, reserved_at, expires_at, status }
    }
}

/// The accessors of a `TimedReservation` built by `spec_new` give back its parts.
pub broadcast proof fn lemma_timed_reservation_fields(stock: StockState, quantity: Quantity, reserved_at: Timestamp, expires_at: Timestamp, status: ReservationStatus)
    ensures
        #[trigger] TimedReservation::spec_new(stock, quantity, reserved_at, expires_at, status).spec_stock() == stock
            && TimedReservation::spec_new(stock, quantity, reserved_at, expires_at, status).spec_quantity() == quantity
            && TimedReservation::spec_new(stock, quantity, reserved_at, expires_at, status).spec_reserved_at() == reserved_at
            && TimedReservation::spec_new(stock, quantity, reserved_at, expires_at, status).spec_expires_at() == expires_at
            && TimedReservation::spec_new(stock, quantity, reserved_at, expires_at, status).spec_status() == status,
{
}

#[derive(Debug, PartialEq, Eq, Structural)]
pub struct BackorderRequest {
    pub(crate) sku: Sku,
    pub(crate) requested: Quantity,
    pub(crate) available_now: Quantity,
    pub(crate) backordered: Quantity,
}

impl BackorderRequest {
    /// Every value satisfies what `try_new` checks.
    #[verifier::type_invariant]
    pub open spec fn valid(self) -> bool {
        self.spec_requested() == self.spec_available_now() + self.spec_backordered()
    }

    pub open(crate) spec fn spec_sku(&self) -> Sku {
        self.sku
    }

    pub open(crate) spec fn spec_requested(&self) -> Quantity {
        self.requested
    }

    pub open(crate) spec fn spec_available_now(&self) -> Quantity {
        self.available_now
    }

    pub open(crate) spec fn spec_backordered(&self) -> Quantity {
        self.backordered
    }

    pub open(crate) spec fn spec_new(sku: Sku, requested: Quantity, available_now: Quantity, backordered: Quantity) -> Self {
        BackorderRequest { sku, requested, available_now, backordered }
    }
}

/// The accessors of a `BackorderRequest` built by `spec_new` give back its parts.
pub broadcast proof fn lemma_backorder_request_fields(sku: Sku, requested: Quantity, available_now: Quantity, backordered: Quantity)
    ensures
        #[trigger] BackorderRequest::spec_new(sku, requested, available_now, backordered).spec_sku() == sku
            && BackorderRequest::spec_new(sku, requested, available_now, backordered).spec_requested() == requested
            && BackorderRequest::spec_new(sku, requested, available_now, backordered).spec_available_now() == available_now
            && BackorderRequest::spec_new(sku, requested, available_now, backordered).spec_backordered() == backordered,
{
}

impl Clone for BackorderRequest {
    fn clone(&self) -> (r: Self)
        ensures
            r == *self,
    {
        proof {
            use_type_invariant(self);
        }
        BackorderRequest { sku: self.sku, requested: self.requested, available_now: self.available_now, backordered: self.backordered }
    }
}

#[derive(Debug, PartialEq, Eq, Structural)]
pub struct PreorderWindow {
    pub(crate) sku: Sku,
    pub(crate) opens_at: Timestamp,
    pub(crate) closes_at: Timestamp,
    pub(crate) capacity: Quantity,
}

impl PreorderWindow {
    /// Every value satisfies what `try_new` checks.
    #[verifier::type_invariant]
    pub open spec fn valid(self) -> bool {
        self.spec_closes_at().spec_seconds() >= self.spec_opens_at().spec_seconds()
    }

    pub open(crate) spec fn spec_sku(&self) -> Sku {
        self.sku
    }

    pub open(crate) spec fn spec_opens_at(&self) -> Timestamp {
        self.opens_at
    }

    pub open(crate) spec fn spec_closes_at(&self) -> Timestamp {
        self.closes_at
    }

    pub open(crate) spec fn spec_capacity(&self) -> Quantity {
        self.capacity
    }

    pub open(crate) spec fn spec_new(sku: Sku, opens_at: Timestamp, closes_at: Timestamp, capacity: Quantity) -> Self {
        PreorderWindow { sku, opens_at, closes_at, capacity }
    }
}

/// The accessors of a `PreorderWindow` built by `spec_new` give back its parts.
pub broadcast proof fn lemma_preorder_window_fields(sku: Sku, opens_at: Timestamp, closes_at: Timestamp, capacity: Quantity)
    ensures
        #[trigger] PreorderWindow::spec_new(sku, opens_at, closes_at, capacity).spec_sku() == sku
            && PreorderWindow::spec_new(sku, opens_at, closes_at, capacity).spec_opens_at() == opens_at
            && PreorderWindow::spec_new(sku, opens_at, closes_at, capacity).spec_closes_at() == closes_at
            && PreorderWindow::spec_new(sku, opens_at, closes_at, capacity).spec_capacity() == capacity,
{
}

impl Clone for PreorderWindow {
    fn clone(&self) -> (r: Self)
        ensures
            r == *self,
    {
        proof {
            use_type_invariant(self);
        }
        PreorderWindow { sku: self.sku, opens_at: self.opens_at, closes_at: self.closes_at, capacity: self.capacity }
    }
}

#[derive(Debug, PartialEq, Eq, Structural)]
pub struct PreorderReservation {
    pub(crate) window: PreorderWindow,
    pub(crate) quantity: Quantity,
    pub(crate) reserved_at: Timestamp,
}

impl PreorderReservation {
    /// Every value satisfies what `try_new` checks.
    #[verifier::type_invariant]
    pub open spec fn valid(self) -> bool {
        !(self.spec_quantity() > self.spec_window().spec_capacity() || self.spec_reserved_at().spec_seconds() < self.spec_window().spec_opens_at().spec_seconds() || self.spec_reserved_at().spec_seconds() > self.spec_window().spec_closes_at().spec_seconds())
    }

    pub open(crate) spec fn spec_window(&self) -> PreorderWindow {
        self.window
    }

    pub open(crate) spec fn spec_quantity(&self) -> Quantity {
        self.quantity
    }

    pub open(crate) spec fn spec_reserved_at(&self) -> Timestamp {
        self.reserved_at
    }

    pub open(crate) spec fn spec_new(window: PreorderWindow, quantity: Quantity, reserved_at: Timestamp) -> Self {
        PreorderReservation { window, quantity, reserved_at }
    }
}

/// The accessors of a `PreorderReservation` built by `spec_new` give back its parts.
pub broadcast proof fn lemma_preorder_reservation_fields(window: PreorderWindow, quantity: Quantity, reserved_at: Timestamp)
    ensures
        #[trigger] PreorderReservation::spec_new(window, quantity, reserved_at).spec_window() == window
            && PreorderReservation::spec_new(window, quantity, reserved_at).spec_quantity() == quantity
            && PreorderReservation::spec_new(window, quantity, reserved_at).spec_reserved_at() == reserved_at,
{
}

impl Clone for PreorderReservation {
    fn clone(&self) -> (r: Self)
        ensures
            r == *self,
    {
        proof {
            use_type_invariant(self);
        }
        PreorderReservation { window: self.window.clone(), quantity: self.quantity, reserved_at: self.reserved_at }
    }
}

#[derive(Clone, Copy, Debug, PartialEq, Eq, Structural, Hash)]
pub struct SerialNumber {
    pub(crate) value: Nat,
}

impl SerialNumber {
    pub open(crate) spec fn spec_value(&self) -> Nat {
        self.value
    }
}

#[derive(Debug, PartialEq, Eq)]
pub struct SerializedInventorySet {
    pub(crate) units: Vec<SerializedInventoryUnit>,
}

impl SerializedInventorySet {
    /// Equal fields, and equal contents for the vectors it holds.
    pub open spec fn same_content(self, other: Self) -> bool {
        self.spec_units()@ == other.spec_units()@
    }

    /// Every value satisfies what `try_new` checks.
    #[verifier::type_invariant]
    pub open spec fn valid(self) -> bool {
        serial_numbers_distinct_spec(self.spec_units()@)
    }

    pub open(crate) spec fn spec_units(&self) -> Vec<SerializedInventoryUnit> {
        self.units
    }

    pub open(crate) spec fn spec_new(units: Vec<SerializedInventoryUnit>) -> Self {
        SerializedInventorySet { units }
    }
}

/// The accessors of a `SerializedInventorySet` built by `spec_new` give back its parts.
pub broadcast proof fn lemma_serialized_inventory_set_fields(units: Vec<SerializedInventoryUnit>)
    ensures
        #[trigger] SerializedInventorySet::spec_new(units).spec_units() == units,
{
}

impl Clone for SerializedInventorySet {
    fn clone(&self) -> (r: Self)
        ensures
            r.same_content(*self),
    {
        proof {
            use_type_invariant(self);
        }
        SerializedInventorySet { units: clone_vec_exact(&self.units) }
    }
}

#[derive(Debug, PartialEq, Eq, Structural)]
pub struct SkuSubstitution {
    pub(crate) requested_sku: Sku,
    pub(crate) substitute_sku: Sku,
    pub(crate) substitute_stock: StockState,
    pub(crate) max_substitute_qty: Quantity,
}

impl SkuSubstitution {
    /// Every value satisfies what `try_new` checks.
    #[verifier::type_invariant]
    pub open spec fn valid(self) -> bool {
        !(self.spec_substitute_stock().spec_sku() != self.spec_substitute_sku() || self.spec_max_substitute_qty() > available_stock_spec(self.spec_substitute_stock()))
    }

    pub open(crate) spec fn spec_requested_sku(&self) -> Sku {
        self.requested_sku
    }

    pub open(crate) spec fn spec_substitute_sku(&self) -> Sku {
        self.substitute_sku
    }

    pub open(crate) spec fn spec_substitute_stock(&self) -> StockState {
        self.substitute_stock
    }

    pub open(crate) spec fn spec_max_substitute_qty(&self) -> Quantity {
        self.max_substitute_qty
    }

    pub open(crate) spec fn spec_new(requested_sku: Sku, substitute_sku: Sku, substitute_stock: StockState, max_substitute_qty: Quantity) -> Self {
        SkuSubstitution { requested_sku, substitute_sku, substitute_stock, max_substitute_qty }
    }
}

/// The accessors of a `SkuSubstitution` built by `spec_new` give back its parts.
pub broadcast proof fn lemma_sku_substitution_fields(requested_sku: Sku, substitute_sku: Sku, substitute_stock: StockState, max_substitute_qty: Quantity)
    ensures
        #[trigger] SkuSubstitution::spec_new(requested_sku, substitute_sku, substitute_stock, max_substitute_qty).spec_requested_sku() == requested_sku
            && SkuSubstitution::spec_new(requested_sku, substitute_sku, substitute_stock, max_substitute_qty).spec_substitute_sku() == substitute_sku
            && SkuSubstitution::spec_new(requested_sku, substitute_sku, substitute_stock, max_substitute_qty).spec_substitute_stock() == substitute_stock
            && SkuSubstitution::spec_new(requested_sku, substitute_sku, substitute_stock, max_substitute_qty).spec_max_substitute_qty() == max_substitute_qty,
{
}

impl Clone for SkuSubstitution {
    fn clone(&self) -> (r: Self)
        ensures
            r == *self,
    {
        proof {
            use_type_invariant(self);
        }
        SkuSubstitution { requested_sku: self.requested_sku, substitute_sku: self.substitute_sku, substitute_stock: self.substitute_stock, max_substitute_qty: self.max_substitute_qty }
    }
}

#[derive(Debug, PartialEq, Eq)]
pub struct SplitFulfillmentPlan {
    pub(crate) plan: DistinctFulfillmentPlan,
    pub(crate) first_warehouse: Warehouse,
    pub(crate) second_warehouse: Warehouse,
}

impl SplitFulfillmentPlan {
    /// Equal fields, and equal contents for the vectors it holds.
    pub open spec fn same_content(self, other: Self) -> bool {
        self.spec_plan().same_content(other.spec_plan())
            && self.spec_first_warehouse() == other.spec_first_warehouse()
            && self.spec_second_warehouse() == other.spec_second_warehouse()
    }

    /// Every value satisfies what `try_new` checks.
    #[verifier::type_invariant]
    pub open spec fn valid(self) -> bool {
        allocations_use_warehouse_id(self.spec_plan().spec_allocations()@, self.spec_first_warehouse().spec_id())
            && allocations_use_warehouse_id(self.spec_plan().spec_allocations()@, self.spec_second_warehouse().spec_id())
            && self.spec_first_warehouse().spec_id() != self.spec_second_warehouse().spec_id()
    }

    pub open(crate) spec fn spec_plan(&self) -> DistinctFulfillmentPlan {
        self.plan
    }

    pub open(crate) spec fn spec_first_warehouse(&self) -> Warehouse {
        self.first_warehouse
    }

    pub open(crate) spec fn spec_second_warehouse(&self) -> Warehouse {
        self.second_warehouse
    }

    pub open(crate) spec fn spec_new(plan: DistinctFulfillmentPlan, first_warehouse: Warehouse, second_warehouse: Warehouse) -> Self {
        SplitFulfillmentPlan { plan, first_warehouse, second_warehouse }
    }
}

/// The accessors of a `SplitFulfillmentPlan` built by `spec_new` give back its parts.
pub broadcast proof fn lemma_split_fulfillment_plan_fields(plan: DistinctFulfillmentPlan, first_warehouse: Warehouse, second_warehouse: Warehouse)
    ensures
        #[trigger] SplitFulfillmentPlan::spec_new(plan, first_warehouse, second_warehouse).spec_plan() == plan
            && SplitFulfillmentPlan::spec_new(plan, first_warehouse, second_warehouse).spec_first_warehouse() == first_warehouse
            && SplitFulfillmentPlan::spec_new(plan, first_warehouse, second_warehouse).spec_second_warehouse() == second_warehouse,
{
}

impl Clone for SplitFulfillmentPlan {
    fn clone(&self) -> (r: Self)
        ensures
            r.same_content(*self),
    {
        proof {
            use_type_invariant(self);
        }
        SplitFulfillmentPlan { plan: self.plan.clone(), first_warehouse: self.first_warehouse.clone(), second_warehouse: self.second_warehouse.clone() }
    }
}

impl PickTask {
    pub fn sku(&self) -> (r: Sku)
        ensures
            r == self.spec_sku(),
    {
        self.sku
    }

    pub fn requested(&self) -> (r: Quantity)
        ensures
            r == self.spec_requested(),
    {
        self.requested
    }

    pub fn bin(&self) -> (r: &BinStock)
        ensures
            *r == self.spec_bin(),
    {
        &self.bin
    }
}

impl PackTask {
    pub fn picked(&self) -> (r: Quantity)
        ensures
            r == self.spec_picked(),
    {
        self.picked
    }

    pub fn packed(&self) -> (r: Quantity)
        ensures
            r == self.spec_packed(),
    {
        self.packed
    }
}

impl WarehouseShipment {
    pub fn packed(&self) -> (r: Quantity)
        ensures
            r == self.spec_packed(),
    {
        self.packed
    }

    pub fn shipped(&self) -> (r: Quantity)
        ensures
            r == self.spec_shipped(),
    {
        self.shipped
    }
}

impl DistinctFulfillmentPlan {
    pub fn requested(&self) -> (r: Quantity)
        ensures
            r == self.spec_requested(),
    {
        self.requested
    }

    pub fn allocations(&self) -> (r: &[Allocation])
        ensures
            r@ == self.spec_allocations()@,
    {
        self.allocations.as_slice()
    }
}

impl ReservationAttempt {
    pub fn stock(&self) -> (r: VersionedStock)
        ensures
            r == self.spec_stock(),
    {
        self.stock
    }

    pub fn quantity(&self) -> (r: Quantity)
        ensures
            r == self.spec_quantity(),
    {
        self.quantity
    }

    pub fn expected_version(&self) -> (r: Nat)
        ensures
            r == self.spec_expected_version(),
    {
        self.expected_version
    }
}

impl ConcurrentReservationConflict {
    pub fn first(&self) -> (r: &ReservationAttempt)
        ensures
            *r == self.spec_first(),
    {
        &self.first
    }

    pub fn second(&self) -> (r: &ReservationAttempt)
        ensures
            *r == self.spec_second(),
    {
        &self.second
    }
}

impl TimedReservation {
    pub fn stock(&self) -> (r: StockState)
        ensures
            r == self.spec_stock(),
    {
        self.stock
    }

    pub fn quantity(&self) -> (r: Quantity)
        ensures
            r == self.spec_quantity(),
    {
        self.quantity
    }

    pub fn reserved_at(&self) -> (r: Timestamp)
        ensures
            r == self.spec_reserved_at(),
    {
        self.reserved_at
    }

    pub fn expires_at(&self) -> (r: Timestamp)
        ensures
            r == self.spec_expires_at(),
    {
        self.expires_at
    }

    pub fn status(&self) -> (r: ReservationStatus)
        ensures
            r == self.spec_status(),
    {
        self.status
    }
}

impl BackorderRequest {
    pub fn sku(&self) -> (r: Sku)
        ensures
            r == self.spec_sku(),
    {
        self.sku
    }

    pub fn requested(&self) -> (r: Quantity)
        ensures
            r == self.spec_requested(),
    {
        self.requested
    }

    pub fn available_now(&self) -> (r: Quantity)
        ensures
            r == self.spec_available_now(),
    {
        self.available_now
    }

    pub fn backordered(&self) -> (r: Quantity)
        ensures
            r == self.spec_backordered(),
    {
        self.backordered
    }
}

impl PreorderWindow {
    pub fn sku(&self) -> (r: Sku)
        ensures
            r == self.spec_sku(),
    {
        self.sku
    }

    pub fn opens_at(&self) -> (r: Timestamp)
        ensures
            r == self.spec_opens_at(),
    {
        self.opens_at
    }

    pub fn closes_at(&self) -> (r: Timestamp)
        ensures
            r == self.spec_closes_at(),
    {
        self.closes_at
    }

    pub fn capacity(&self) -> (r: Quantity)
        ensures
            r == self.spec_capacity(),
    {
        self.capacity
    }
}

impl PreorderReservation {
    pub fn window(&self) -> (r: &PreorderWindow)
        ensures
            *r == self.spec_window(),
    {
        &self.window
    }

    pub fn quantity(&self) -> (r: Quantity)
        ensures
            r == self.spec_quantity(),
    {
        self.quantity
    }

    pub fn reserved_at(&self) -> (r: Timestamp)
        ensures
            r == self.spec_reserved_at(),
    {
        self.reserved_at
    }
}

impl SerializedInventorySet {
    pub fn units(&self) -> (r: &[SerializedInventoryUnit])
        ensures
            r@ == self.spec_units()@,
    {
        self.units.as_slice()
    }
}

impl SkuSubstitution {
    pub fn requested_sku(&self) -> (r: Sku)
        ensures
            r == self.spec_requested_sku(),
    {
        self.requested_sku
    }

    pub fn substitute_sku(&self) -> (r: Sku)
        ensures
            r == self.spec_substitute_sku(),
    {
        self.substitute_sku
    }

    pub fn substitute_stock(&self) -> (r: StockState)
        ensures
            r == self.spec_substitute_stock(),
    {
        self.substitute_stock
    }

    pub fn max_substitute_qty(&self) -> (r: Quantity)
        ensures
            r == self.spec_max_substitute_qty(),
    {
        self.max_substitute_qty
    }
}

impl SplitFulfillmentPlan {
    pub fn plan(&self) -> (r: &DistinctFulfillmentPlan)
        ensures
            *r == self.spec_plan(),
    {
        &self.plan
    }

    pub fn first_warehouse(&self) -> (r: &Warehouse)
        ensures
            *r == self.spec_first_warehouse(),
    {
        &self.first_warehouse
    }

    pub fn second_warehouse(&self) -> (r: &Warehouse)
        ensures
            *r == self.spec_second_warehouse(),
    {
        &self.second_warehouse
    }
}

impl StockState {
    #[verifier::type_invariant]
    pub open spec fn valid(self) -> bool {
        self.spec_reserved() <= self.spec_total()
    }

    pub fn try_new(sku: Sku, total: Quantity, reserved: Quantity) -> (r: DomainResult<Self>)
        ensures
            reserved > total ==> r == Err::<Self, ValidationError>(ValidationError::Invariant("reserved stock exceeds total")),
            reserved <= total ==> r == Ok::<Self, ValidationError>(StockState::spec_new(sku, total, reserved)),
    {
        if reserved > total {
            return Err(ValidationError::Invariant("reserved stock exceeds total"));
        }
        Ok(Self { sku, total, reserved })
    }

    pub fn sku(&self) -> (r: Sku)
        ensures
            r == self.spec_sku(),
    {
        self.sku
    }

    pub fn total(&self) -> (r: Quantity)
        ensures
            r == self.spec_total(),
    {
        self.total
    }

    pub fn reserved(&self) -> (r: Quantity)
        ensures
            r == self.spec_reserved(),
    {
        self.reserved
    }
}

pub open spec fn available_stock_spec(s: StockState) -> int {
    nat_sub_spec(s.spec_total() as int, s.spec_reserved() as int)
}

pub fn available_stock(s: &StockState) -> (r: Quantity)
    ensures
        r == available_stock_spec(*s),
{
    nat_sub(s.total, s.reserved)
}

pub fn can_reserve(s: &StockState, q: Quantity) -> (r: bool)
    ensures
        r == (q <= available_stock_spec(*s)),
{
    q <= available_stock(s)
}

/// Reserving `q` more units: allowed up to the available stock.
pub open spec fn reserve_stock_spec(s: StockState, q: u128) -> DomainResult<StockState> {
    if q > available_stock_spec(s) {
        Err(ValidationError::Invariant("reservation exceeds available stock"))
    } else if s.spec_reserved() + q > s.spec_total() {
        Err(ValidationError::Invariant("reserved stock exceeds total"))
    } else {
        Ok(StockState::spec_new(s.spec_sku(), s.spec_total(), (s.spec_reserved() + q) as u128))
    }
}

pub fn reserve_stock(s: &StockState, q: Quantity) -> (r: DomainResult<StockState>)
    ensures
        r == reserve_stock_spec(*s, q),
        q > s.spec_total() - s.spec_reserved() ==> r == Err::<StockState, ValidationError>(ValidationError::Invariant("reservation exceeds available stock")),
        q <= s.spec_total() - s.spec_reserved() ==> r == Ok::<StockState, ValidationError>(
            StockState::spec_new(s.spec_sku(), s.spec_total(), (s.spec_reserved() + q) as u128),
        ),
{
    proof {
        use_type_invariant(s);
    }
    if !can_reserve(s, q) {
        return Err(ValidationError::Invariant("reservation exceeds available stock"));
    }
    match checked_add(s.reserved, q, "reserve_stock") {
        Ok(reserved) => StockState::try_new(s.sku, s.total, reserved),
        Err(e) => Err(e),
    }
}

impl VersionedStock {
    pub fn try_new(sku: Sku, total: Quantity, reserved: Quantity, version: Nat) -> (r: DomainResult<Self>)
        ensures
            reserved > total ==> r == Err::<Self, ValidationError>(ValidationError::Invariant("reserved stock exceeds total")),
            reserved <= total ==> r == Ok::<Self, ValidationError>(
                VersionedStock::spec_new(StockState::spec_new(sku, total, reserved), version),
            ),
    {
        match StockState::try_new(sku, total, reserved) {
            Ok(stock) => Ok(Self { stock, version }),
            Err(e) => Err(e),
        }
    }

    pub fn from_stock(stock: StockState, version: Nat) -> (r: Self)
        ensures
            r == (VersionedStock::spec_new(stock, version)),
    {
        Self { stock, version }
    }

    pub fn stock(&self) -> (r: StockState)
        ensures
            r == self.spec_stock(),
    {
        self.stock
    }

    pub fn version(&self) -> (r: Nat)
        ensures
            r == self.spec_version(),
    {
        self.version
    }
}

/// A versioned reservation succeeds only on the expected version and bumps it.
pub open spec fn reserve_versioned_spec(s: VersionedStock, q: u128, expected_version: u128) -> DomainResult<VersionedStock> {
    if expected_version != s.spec_version() {
        Err(ValidationError::Invariant("stock version mismatch"))
    } else {
        match reserve_stock_spec(s.spec_stock(), q) {
            Err(e) => Err(e),
            Ok(stock) => match add_result(s.spec_version() as int, 1, "reserve_versioned_stock") {
                Err(e) => Err(e),
                Ok(version) => Ok(VersionedStock::spec_new(stock, version)),
            },
        }
    }
}

pub fn reserve_versioned_stock(s: &VersionedStock, q: Quantity, expected_version: Nat) -> (r: DomainResult<VersionedStock>)
    ensures
        r == reserve_versioned_spec(*s, q, expected_version),
{
    if expected_version != s.version {
        return Err(ValidationError::Invariant("stock version mismatch"));
    }
    let stock = match reserve_stock(&s.stock, q) {
        Ok(stock) => stock,
        Err(e) => return Err(e),
    };
    match checked_add(s.version, 1, "reserve_versioned_stock") {
        Ok(version) => Ok(VersionedStock { stock, version }),
        Err(e) => Err(e),
    }
}

impl PickTask {
    pub fn try_new(sku: Sku, requested: Quantity, bin: BinStock) -> (r: DomainResult<Self>)
        ensures
            requested > bin.spec_quantity() ==> r == Err::<Self, ValidationError>(ValidationError::Invariant("pick exceeds bin quantity")),
            requested <= bin.spec_quantity() ==> r == Ok::<Self, ValidationError>(PickTask::spec_new(sku, requested, bin)),
    {
        if requested > bin.quantity {
            return Err(ValidationError::Invariant("pick exceeds bin quantity"));
        }
        Ok(Self { sku, requested, bin })
    }
}

impl PackTask {
    pub fn try_new(source_quantity: Quantity, packed_quantity: Quantity) -> (r: DomainResult<Self>)
        ensures
            packed_quantity > source_quantity ==> r == Err::<Self, ValidationError>(ValidationError::Invariant("packed exceeds picked")),
            packed_quantity <= source_quantity ==> r == Ok::<Self, ValidationError>(
                PackTask::spec_new(source_quantity, packed_quantity),
            ),
    {
        if packed_quantity > source_quantity {
            return Err(ValidationError::Invariant("packed exceeds picked"));
        }
        Ok(Self { picked: source_quantity, packed: packed_quantity })
    }
}

impl WarehouseShipment {
    pub fn try_new(packed: Quantity, shipped: Quantity) -> (r: DomainResult<Self>)
        ensures
            shipped > packed ==> r == Err::<Self, ValidationError>(ValidationError::Invariant("shipped exceeds packed")),
            shipped <= packed ==> r == Ok::<Self, ValidationError>(WarehouseShipment::spec_new(packed, shipped)),
    {
        if shipped > packed {
            return Err(ValidationError::Invariant("shipped exceeds packed"));
        }
        Ok(Self { packed, shipped })
    }
}

impl Allocation {
    pub fn try_new(node: InventoryNode, quantity: Quantity) -> (r: DomainResult<Self>)
        ensures
            quantity > available_stock_spec(node.spec_stock()) ==> r == Err::<Self, ValidationError>(
                ValidationError::Invariant("allocation exceeds available stock"),
            ),
            quantity <= available_stock_spec(node.spec_stock()) ==> r == Ok::<Self, ValidationError>(Allocation::spec_new(node, quantity)),
    {
        if quantity > available_stock(&node.stock) {
            return Err(ValidationError::Invariant("allocation exceeds available stock"));
        }
        Ok(Self { node, quantity })
    }

    pub fn node(&self) -> (r: &InventoryNode)
        ensures
            *r == self.spec_node(),
    {
        &self.node
    }

    pub fn quantity(&self) -> (r: Quantity)
        ensures
            r == self.spec_quantity(),
    {
        self.quantity
    }
}

pub open spec fn allocations_total_value() -> spec_fn(Allocation) -> nat {
    |x: Allocation| (x.spec_quantity()) as nat
}

/// Sum of allocated quantities.
pub fn allocations_total(allocations: &[Allocation]) -> (r: DomainResult<Nat>)
    ensures
        r == total_result(sum_nat(allocations@, allocations_total_value()) as int, "allocations_total"),
{
    let mut acc: Nat = 0;
    let mut i: usize = 0;
    while i < allocations.len()
        invariant
            i <= allocations.len(),
            acc == sum_nat(allocations@.take(i as int), allocations_total_value()),
        decreases allocations.len() - i,
    {
        proof {
            lemma_sum_nat_take_step(allocations@, allocations_total_value(), i as int);
        }
        let item: Nat = allocations[i].quantity;
        match acc.checked_add(item) {
            Some(v) => {
                acc = v;
            },
            None => {
                proof {
                    lemma_sum_nat_prefix_le(allocations@, allocations_total_value(), i + 1);
                }
                return Err(ValidationError::Overflow("allocations_total"));
            },
        }
        i += 1;
    }
    proof {
        lemma_sum_nat_take_all(allocations@, allocations_total_value());
    }
    Ok(acc)
}


pub open spec fn allocations_available_total_value() -> spec_fn(Allocation) -> nat {
    |x: Allocation| (available_stock_spec(x.spec_node().spec_stock())) as nat
}

/// Sum of the stock still available at each allocation's node.
pub fn allocations_available_total(allocations: &[Allocation]) -> (r: DomainResult<Nat>)
    ensures
        r == total_result(sum_nat(allocations@, allocations_available_total_value()) as int, "allocations_available_total"),
{
    let mut acc: Nat = 0;
    let mut i: usize = 0;
    while i < allocations.len()
        invariant
            i <= allocations.len(),
            acc == sum_nat(allocations@.take(i as int), allocations_available_total_value()),
        decreases allocations.len() - i,
    {
        proof {
            lemma_sum_nat_take_step(allocations@, allocations_available_total_value(), i as int);
        }
        let item: Nat = available_stock(&allocations[i].node.stock);
        match acc.checked_add(item) {
            Some(v) => {
                acc = v;
            },
            None => {
                proof {
                    lemma_sum_nat_prefix_le(allocations@, allocations_available_total_value(), i + 1);
                }
                return Err(ValidationError::Overflow("allocations_available_total"));
            },
        }
        i += 1;
    }
    proof {
        lemma_sum_nat_take_all(allocations@, allocations_available_total_value());
    }
    Ok(acc)
}


pub open spec fn allocation_key_spec(a: Allocation) -> (u128, u128) {
    (a.spec_node().spec_warehouse().spec_id(), a.spec_node().spec_stock().spec_sku().spec_value())
}

/// The (warehouse, SKU) pair an allocation draws from.
pub fn allocation_key(a: &Allocation) -> (r: (Nat, Nat))
    ensures
        r == allocation_key_spec(*a),
{
    (a.node.warehouse.id, a.node.stock.sku.value)
}

pub open spec fn allocation_keys_distinct_spec(allocations: Seq<Allocation>) -> bool {
    forall|i: int, j: int|
        0 <= i < j < allocations.len() ==> allocation_key_spec(allocations[i]) != allocation_key_spec(allocations[j])
}

/// No two allocations draw from the same (warehouse, SKU) pair.
pub fn allocation_keys_distinct(allocations: &[Allocation]) -> (r: bool)
    ensures
        r == allocation_keys_distinct_spec(allocations@),
{
    let mut i: usize = 0;
    while i < allocations.len()
        invariant
            i <= allocations.len(),
            forall|a: int, b: int| 0 <= a < b < allocations@.len() && a < i ==> allocation_key_spec(allocations@[a]) != allocation_key_spec(allocations@[b]),
        decreases allocations.len() - i,
    {
        let key = allocation_key(&allocations[i]);
        let mut j: usize = i + 1;
        while j < allocations.len()
            invariant
                i < allocations.len(),
                i + 1 <= j <= allocations.len(),
                key == allocation_key_spec(allocations@[i as int]),
                forall|a: int, b: int| 0 <= a < b < allocations@.len() && a < i ==> allocation_key_spec(allocations@[a]) != allocation_key_spec(allocations@[b]),
                forall|b: int| i < b < j ==> key != allocation_key_spec(allocations@[b]),
            decreases allocations.len() - j,
        {
            let other = allocation_key(&allocations[j]);
            if key.0 == other.0 && key.1 == other.1 {
                return false;
            }
            j += 1;
        }
        i += 1;
    }
    true
}

impl FulfillmentPlan {
    pub fn try_new(requested: Quantity, allocations: Vec<Allocation>) -> (r: DomainResult<Self>)
        ensures
            ({
                let total = total_result(sum_nat(allocations@, allocations_total_value()) as int, "allocations_total");
                &&& total is Err ==> r == Err::<Self, ValidationError>(total->Err_0)
                &&& total is Ok && total->Ok_0 != requested ==> r == Err::<Self, ValidationError>(
                    ValidationError::Invariant("allocations must exactly cover request"),
                )
                &&& total == Ok::<u128, ValidationError>(requested) ==> r == Ok::<Self, ValidationError>(FulfillmentPlan::spec_new(requested, allocations))
            }),
    {
        match allocations_total(allocations.as_slice()) {
            Err(e) => Err(e),
            Ok(total) => {
                if total != requested {
                    return Err(ValidationError::Invariant("allocations must exactly cover request"));
                }
                Ok(Self { requested, allocations })
            },
        }
    }

    pub fn requested(&self) -> (r: Quantity)
        ensures
            r == self.spec_requested(),
    {
        self.requested
    }

    pub fn allocations(&self) -> (r: &[Allocation])
        ensures
            r@ == self.spec_allocations()@,
    {
        self.allocations.as_slice()
    }
}

impl DistinctFulfillmentPlan {
    pub fn try_new(requested: Quantity, allocations: Vec<Allocation>) -> (r: DomainResult<Self>)
        ensures
            ({
                let total = total_result(sum_nat(allocations@, allocations_total_value()) as int, "allocations_total");
                &&& total is Err ==> r == Err::<Self, ValidationError>(total->Err_0)
                &&& total is Ok && total->Ok_0 != requested ==> r == Err::<Self, ValidationError>(
                    ValidationError::Invariant("allocations must exactly cover request"),
                )
                &&& total == Ok::<u128, ValidationError>(requested) && !allocation_keys_distinct_spec(allocations@) ==> r == Err::<Self, ValidationError>(
                    ValidationError::Invariant("allocation keys must be distinct"),
                )
                &&& total == Ok::<u128, ValidationError>(requested) && allocation_keys_distinct_spec(allocations@) ==> r == Ok::<Self, ValidationError>(
                    DistinctFulfillmentPlan::spec_new(requested, allocations),
                )
            }),
    {
        match allocations_total(allocations.as_slice()) {
            Err(e) => Err(e),
            Ok(total) => {
                if total != requested {
                    return Err(ValidationError::Invariant("allocations must exactly cover request"));
                }
                if !allocation_keys_distinct(allocations.as_slice()) {
                    return Err(ValidationError::Invariant("allocation keys must be distinct"));
                }
                Ok(Self { requested, allocations })
            },
        }
    }
}

/// Giving back `q` reserved units.
pub open spec fn release_reserved_spec(s: StockState, q: u128) -> DomainResult<StockState> {
    if q > s.spec_reserved() {
        Err(ValidationError::InventoryInvariantFailed)
    } else if s.spec_reserved() - q > s.spec_total() {
        Err(ValidationError::Invariant("reserved stock exceeds total"))
    } else {
        Ok(StockState::spec_new(s.spec_sku(), s.spec_total(), (s.spec_reserved() - q) as u128))
    }
}

pub fn release_reserved_stock(s: &StockState, q: Quantity) -> (r: DomainResult<StockState>)
    ensures
        r == release_reserved_spec(*s, q),
        q > s.spec_reserved() ==> r == Err::<StockState, ValidationError>(ValidationError::InventoryInvariantFailed),
        q <= s.spec_reserved() ==> r == Ok::<StockState, ValidationError>(
            StockState::spec_new(s.spec_sku(), s.spec_total(), (s.spec_reserved() - q) as u128),
        ),
{
    proof {
        use_type_invariant(s);
    }
    if q > s.reserved {
        return Err(ValidationError::InventoryInvariantFailed);
    }
    StockState::try_new(s.sku, s.total, nat_sub(s.reserved, q))
}

/// Shipping `q` reserved units: both the total and the reservation drop by `q`.
pub open spec fn confirm_reserved_spec(s: StockState, q: u128) -> DomainResult<StockState> {
    if q > s.spec_reserved() {
        Err(ValidationError::InventoryInvariantFailed)
    } else if s.spec_reserved() - q > nat_sub_spec(s.spec_total() as int, q as int) {
        Err(ValidationError::Invariant("reserved stock exceeds total"))
    } else {
        Ok(StockState::spec_new(s.spec_sku(), nat_sub_spec(s.spec_total() as int, q as int) as u128, (s.spec_reserved() - q) as u128))
    }
}

pub fn confirm_reserved_shipment(s: &StockState, q: Quantity) -> (r: DomainResult<StockState>)
    ensures
        r == confirm_reserved_spec(*s, q),
        q > s.spec_reserved() ==> r == Err::<StockState, ValidationError>(ValidationError::InventoryInvariantFailed),
        q <= s.spec_reserved() ==> r == Ok::<StockState, ValidationError>(
            StockState::spec_new(s.spec_sku(), (s.spec_total() - q) as u128, (s.spec_reserved() - q) as u128),
        ),
{
    proof {
        use_type_invariant(s);
    }
    if q > s.reserved {
        return Err(ValidationError::InventoryInvariantFailed);
    }
    StockState::try_new(s.sku, nat_sub(s.total, q), nat_sub(s.reserved, q))
}

pub fn compare_and_swap_reserve(s: &VersionedStock, q: Quantity, expected_version: Nat) -> (r: Option<VersionedStock>)
    ensures
        r == (match reserve_versioned_spec(*s, q, expected_version) {
            Ok(v) => Some(v),
            Err(_) => None,
        }),
{
    match reserve_versioned_stock(s, q, expected_version) {
        Ok(v) => Some(v),
        Err(_) => None,
    }
}

impl ReservationAttempt {
    pub fn new(stock: VersionedStock, quantity: Quantity, expected_version: Nat) -> (r: Self)
        ensures
            r == (ReservationAttempt::spec_new(stock, quantity, expected_version)),
    {
        Self { stock, quantity, expected_version }
    }
}

pub fn commit_reservation_attempt(attempt: &ReservationAttempt) -> (r: Option<VersionedStock>)
    ensures
        r == (match reserve_versioned_spec(attempt.spec_stock(), attempt.spec_quantity(), attempt.spec_expected_version()) {
            Ok(v) => Some(v),
            Err(_) => None,
        }),
{
    compare_and_swap_reserve(&attempt.stock, attempt.quantity, attempt.expected_version)
}

impl ConcurrentReservationConflict {
    pub fn try_new(first: ReservationAttempt, second: ReservationAttempt) -> (r: DomainResult<Self>)
        ensures
            (first.spec_stock().spec_stock().spec_sku() != second.spec_stock().spec_stock().spec_sku() || first.spec_expected_version() != second.spec_expected_version()) ==> r == Err::<Self, ValidationError>(ValidationError::InventoryInvariantFailed),
            (first.spec_stock().spec_stock().spec_sku() == second.spec_stock().spec_stock().spec_sku() && first.spec_expected_version() == second.spec_expected_version()) ==> r == Ok::<Self, ValidationError>(ConcurrentReservationConflict::spec_new(first, second)),
    {
        if first.stock.stock.sku != second.stock.stock.sku || first.expected_version != second.expected_version {
            return Err(ValidationError::InventoryInvariantFailed);
        }
        Ok(Self { first, second })
    }
}

impl TimedReservation {
    pub fn try_new(stock: StockState, quantity: Quantity, reserved_at: Timestamp, expires_at: Timestamp, status: ReservationStatus) -> (r: DomainResult<Self>)
        ensures
            (expires_at.spec_seconds() < reserved_at.spec_seconds() || quantity > stock.spec_reserved()) ==> r == Err::<Self, ValidationError>(ValidationError::InventoryInvariantFailed),
            !(expires_at.spec_seconds() < reserved_at.spec_seconds() || quantity > stock.spec_reserved()) ==> r == Ok::<Self, ValidationError>(
                TimedReservation::spec_new(stock, quantity, reserved_at, expires_at, status),
            ),
    {
        if expires_at.seconds < reserved_at.seconds || quantity > stock.reserved {
            return Err(ValidationError::InventoryInvariantFailed);
        }
        Ok(Self { stock, quantity, reserved_at, expires_at, status })
    }
}

pub fn reservation_expired_at(now: Timestamp, reservation: &TimedReservation) -> (r: bool)
    ensures
        r == (reservation.spec_expires_at().spec_seconds() < now.spec_seconds()),
{
    reservation.expires_at.seconds < now.seconds
}

pub fn reservation_active_at(now: Timestamp, reservation: &TimedReservation) -> (r: bool)
    ensures
        r == (reservation.spec_status() == ReservationStatus::Active && now.spec_seconds() <= reservation.spec_expires_at().spec_seconds()),
{
    reservation.status == ReservationStatus::Active && now.seconds <= reservation.expires_at.seconds
}

pub fn release_expired_reservation(reservation: &TimedReservation, now: Timestamp) -> (r: DomainResult<StockState>)
    ensures
        !(reservation.spec_expires_at().spec_seconds() < now.spec_seconds()) ==> r == Err::<StockState, ValidationError>(ValidationError::InventoryInvariantFailed),
        reservation.spec_expires_at().spec_seconds() < now.spec_seconds() ==> r == release_reserved_spec(reservation.spec_stock(), reservation.spec_quantity()),
{
    if !reservation_expired_at(now, reservation) {
        return Err(ValidationError::InventoryInvariantFailed);
    }
    release_reserved_stock(&reservation.stock, reservation.quantity)
}

impl BackorderRequest {
    pub fn try_new(sku: Sku, requested: Quantity, available_now: Quantity, backordered: Quantity) -> (r: DomainResult<Self>)
        ensures
            available_now + backordered > u128::MAX ==> r == Err::<Self, ValidationError>(ValidationError::Overflow("backorder quantity")),
            available_now + backordered <= u128::MAX && requested != available_now + backordered ==> r == Err::<Self, ValidationError>(ValidationError::InventoryInvariantFailed),
            requested == available_now + backordered ==> r == Ok::<Self, ValidationError>(BackorderRequest::spec_new(sku, requested, available_now, backordered)),
    {
        match checked_add(available_now, backordered, "backorder quantity") {
            Err(e) => Err(e),
            Ok(sum) => {
                if requested != sum {
                    return Err(ValidationError::InventoryInvariantFailed);
                }
                Ok(Self { sku, requested, available_now, backordered })
            },
        }
    }
}

impl PreorderWindow {
    pub fn try_new(sku: Sku, opens_at: Timestamp, closes_at: Timestamp, capacity: Quantity) -> (r: DomainResult<Self>)
        ensures
            closes_at.spec_seconds() < opens_at.spec_seconds() ==> r == Err::<Self, ValidationError>(ValidationError::InventoryInvariantFailed),
            closes_at.spec_seconds() >= opens_at.spec_seconds() ==> r == Ok::<Self, ValidationError>(PreorderWindow::spec_new(sku, opens_at, closes_at, capacity)),
    {
        if closes_at.seconds < opens_at.seconds {
            return Err(ValidationError::InventoryInvariantFailed);
        }
        Ok(Self { sku, opens_at, closes_at, capacity })
    }
}

impl PreorderReservation {
    pub fn try_new(window: PreorderWindow, quantity: Quantity, reserved_at: Timestamp) -> (r: DomainResult<Self>)
        ensures
            (quantity > window.spec_capacity() || reserved_at.spec_seconds() < window.spec_opens_at().spec_seconds() || reserved_at.spec_seconds() > window.spec_closes_at().spec_seconds()) ==> r == Err::<Self, ValidationError>(ValidationError::InventoryInvariantFailed),
            !(quantity > window.spec_capacity() || reserved_at.spec_seconds() < window.spec_opens_at().spec_seconds() || reserved_at.spec_seconds() > window.spec_closes_at().spec_seconds()) ==> r == Ok::<Self, ValidationError>(
                PreorderReservation::spec_new(window, quantity, reserved_at),
            ),
    {
        if quantity > window.capacity || reserved_at.seconds < window.opens_at.seconds || reserved_at.seconds > window.closes_at.seconds {
            return Err(ValidationError::InventoryInvariantFailed);
        }
        Ok(Self { window, quantity, reserved_at })
    }
}

impl SerialNumber {
    pub fn new(value: Nat) -> (r: Self)
        ensures
            r.spec_value() == value,
    {
        Self { value }
    }

    pub fn value(self) -> (r: Nat)
        ensures
            r == self.spec_value(),
    {
        self.value
    }
}

pub open spec fn serial_numbers_distinct_spec(units: Seq<SerializedInventoryUnit>) -> bool {
    forall|i: int, j: int| 0 <= i < j < units.len() ==> units[i].spec_serial().spec_value() != units[j].spec_serial().spec_value()
}

/// No serial number occurs twice.
pub fn serial_numbers_distinct(units: &[SerializedInventoryUnit]) -> (r: bool)
    ensures
        r == serial_numbers_distinct_spec(units@),
{
    let mut i: usize = 0;
    while i < units.len()
        invariant
            i <= units.len(),
            forall|a: int, b: int| 0 <= a < b < units@.len() && a < i ==> units@[a].serial.value != units@[b].serial.value,
        decreases units.len() - i,
    {
        let mut j: usize = i + 1;
        while j < units.len()
            invariant
                i < units.len(),
                i + 1 <= j <= units.len(),
                forall|a: int, b: int| 0 <= a < b < units@.len() && a < i ==> units@[a].serial.value != units@[b].serial.value,
                forall|b: int| i < b < j ==> units@[i as int].serial.value != units@[b].serial.value,
            decreases units.len() - j,
        {
            if units[i].serial.value == units[j].serial.value {
                return false;
            }
            j += 1;
        }
        i += 1;
    }
    true
}

impl SerializedInventorySet {
    pub fn try_new(units: Vec<SerializedInventoryUnit>) -> (r: DomainResult<Self>)
        ensures
            !serial_numbers_distinct_spec(units@) ==> r == Err::<Self, ValidationError>(ValidationError::InventoryInvariantFailed),
            serial_numbers_distinct_spec(units@) ==> r == Ok::<Self, ValidationError>(SerializedInventorySet::spec_new(units)),
    {
        if !serial_numbers_distinct(units.as_slice()) {
            return Err(ValidationError::InventoryInvariantFailed);
        }
        Ok(Self { units })
    }
}

pub fn lot_usable_at(now: Timestamp, lot: &InventoryLot) -> (r: bool)
    ensures
        r == (now.spec_seconds() <= lot.spec_expires_at().spec_seconds() && lot.spec_quantity() > 0),
{
    now.seconds <= lot.expires_at.seconds && lot.quantity > 0
}

impl SkuSubstitution {
    pub fn try_new(requested_sku: Sku, substitute_sku: Sku, substitute_stock: StockState, max_substitute_qty: Quantity) -> (r: DomainResult<Self>)
        ensures
            (substitute_stock.spec_sku() != substitute_sku || max_substitute_qty > available_stock_spec(substitute_stock)) ==> r == Err::<Self, ValidationError>(ValidationError::InventoryInvariantFailed),
            !(substitute_stock.spec_sku() != substitute_sku || max_substitute_qty > available_stock_spec(substitute_stock)) ==> r == Ok::<Self, ValidationError>(
                SkuSubstitution::spec_new(requested_sku, substitute_sku, substitute_stock, max_substitute_qty),
            ),
    {
        if substitute_stock.sku != substitute_sku || max_substitute_qty > available_stock(&substitute_stock) {
            return Err(ValidationError::InventoryInvariantFailed);
        }
        Ok(Self { requested_sku, substitute_sku, substitute_stock, max_substitute_qty })
    }
}

/// The warehouse id of each allocation, in order.
pub fn allocation_warehouse_ids(allocations: &[Allocation]) -> (r: Vec<Id>)
    ensures
        r@ == allocations@.map_values(|a: Allocation| a.spec_node().spec_warehouse().spec_id()),
{
    let mut ids: Vec<Id> = Vec::new();
    let mut i: usize = 0;
    while i < allocations.len()
        invariant
            i <= allocations.len(),
            ids@ == allocations@.take(i as int).map_values(|a: Allocation| a.node.warehouse.id),
        decreases allocations.len() - i,
    {
        ids.push(allocations[i].node.warehouse.id);
        proof {
            assert(allocations@.take(i + 1).map_values(|a: Allocation| a.node.warehouse.id) =~= allocations@.take(i as int).map_values(|a: Allocation| a.node.warehouse.id).push(allocations@[i as int].node.warehouse.id));
        }
        i += 1;
    }
    proof {
        assert(allocations@.take(allocations.len() as int) =~= allocations@);
    }
    ids
}

pub open spec fn allocations_use_warehouse_id(allocations: Seq<Allocation>, id: u128) -> bool {
    exists|i: int| 0 <= i < allocations.len() && allocations[i].spec_node().spec_warehouse().spec_id() == id
}

fn ids_contain(ids: &Vec<Id>, id: Id) -> (r: bool)
    ensures
        r == ids@.contains(id),
{
    let mut i: usize = 0;
    while i < ids.len()
        invariant
            i <= ids.len(),
            forall|j: int| 0 <= j < i ==> ids@[j] != id,
        decreases ids.len() - i,
    {
        if ids[i] == id {
            return true;
        }
        i += 1;
    }
    false
}

impl SplitFulfillmentPlan {
    pub fn try_new(plan: DistinctFulfillmentPlan, first_warehouse: Warehouse, second_warehouse: Warehouse) -> (r: DomainResult<Self>)
        ensures
            ({
                let ok = allocations_use_warehouse_id(plan.spec_allocations()@, first_warehouse.spec_id())
                    && allocations_use_warehouse_id(plan.spec_allocations()@, second_warehouse.spec_id())
                    && first_warehouse.spec_id() != second_warehouse.spec_id();
                &&& !ok ==> r == Err::<Self, ValidationError>(ValidationError::InventoryInvariantFailed)
                &&& ok ==> r == Ok::<Self, ValidationError>(SplitFulfillmentPlan::spec_new(plan, first_warehouse, second_warehouse))
            }),
    {
        let ids = allocation_warehouse_ids(plan.allocations.as_slice());
        let has_first = ids_contain(&ids, first_warehouse.id);
        let has_second = ids_contain(&ids, second_warehouse.id);
        proof {
            let f = |a: Allocation| a.node.warehouse.id;
            if has_first {
                let k = choose|k: int| 0 <= k < ids@.len() && ids@[k] == first_warehouse.id;
                assert(plan.allocations@[k].node.warehouse.id == first_warehouse.id);
            }
            if allocations_use_warehouse_id(plan.allocations@, first_warehouse.id) {
                let k = choose|k: int| 0 <= k < plan.allocations@.len() && plan.allocations@[k].node.warehouse.id == first_warehouse.id;
                assert(ids@[k] == first_warehouse.id);
            }
            if has_second {
                let k = choose|k: int| 0 <= k < ids@.len() && ids@[k] == second_warehouse.id;
                assert(plan.allocations@[k].node.warehouse.id == second_warehouse.id);
            }
            if allocations_use_warehouse_id(plan.allocations@, second_warehouse.id) {
                let k = choose|k: int| 0 <= k < plan.allocations@.len() && plan.allocations@[k].node.warehouse.id == second_warehouse.id;
                assert(ids@[k] == second_warehouse.id);
            }
        }
        if !has_first || !has_second || first_warehouse.id == second_warehouse.id {
            return Err(ValidationError::InventoryInvariantFailed);
        }
        Ok(Self { plan, first_warehouse, second_warehouse })
    }
}

/// Releasing what was just reserved restores the stock exactly.
pub proof fn lemma_release_undoes_reserve(s: StockState, q: u128)
    requires
        reserve_stock_spec(s, q) is Ok,
    ensures
        release_reserved_spec(reserve_stock_spec(s, q)->Ok_0, q) == Ok::<StockState, ValidationError>(s),
{
}

/// Reserving, releasing and confirming shipment keep a stock's reservation
/// within its total.
pub proof fn lemma_stock_operations_keep_valid(s: StockState, q: u128)
    requires
        s.valid(),
    ensures
        reserve_stock_spec(s, q) matches Ok(t) ==> t.valid() && t.spec_total() == s.spec_total(),
        release_reserved_spec(s, q) matches Ok(t) ==> t.valid() && t.spec_total() == s.spec_total(),
        confirm_reserved_spec(s, q) matches Ok(t) ==> t.valid(),
        q <= available_stock_spec(s) ==> reserve_stock_spec(s, q) is Ok,
        q <= s.spec_reserved() ==> release_reserved_spec(s, q) is Ok && confirm_reserved_spec(s, q) is Ok,
{
}

/// A fulfillment plan never asks for more than its nodes have available:
/// when each allocation fits its node's available stock and the allocations
/// sum to the request, the request fits the nodes' total availability.
pub proof fn lemma_fulfillment_within_available(requested: u128, allocations: Seq<Allocation>)
    requires
        forall|j: int| 0 <= j < allocations.len() ==> (#[trigger] allocations[j]).spec_quantity() <= available_stock_spec(allocations[j].spec_node().spec_stock()),
        total_result(sum_nat(allocations, allocations_total_value()) as int, "allocations_total") == Ok::<u128, ValidationError>(requested),
    ensures
        requested <= sum_nat(allocations, allocations_available_total_value()),
{
    assert forall|j: int| 0 <= j < allocations.len() implies allocations_total_value()(#[trigger] allocations[j]) <= allocations_available_total_value()(allocations[j]) by {
        assert(allocations[j].quantity <= available_stock_spec(allocations[j].node.stock));
    }
    lemma_sum_nat_monotone(allocations, allocations_total_value(), allocations_available_total_value());
}

/// The accessor lemmas for the records of this module.
pub broadcast group group_inventory_record_fields {
    lemma_warehouse_fields,
    lemma_bin_location_fields,
    lemma_bin_stock_fields,
    lemma_inventory_node_fields,
    lemma_serialized_inventory_unit_fields,
    lemma_inventory_lot_fields,
    lemma_stock_state_fields,
    lemma_versioned_stock_fields,
    lemma_pick_task_fields,
    lemma_pack_task_fields,
    lemma_warehouse_shipment_fields,
    lemma_allocation_fields,
    lemma_fulfillment_plan_fields,
    lemma_distinct_fulfillment_plan_fields,
    lemma_reservation_attempt_fields,
    lemma_concurrent_reservation_conflict_fields,
    lemma_timed_reservation_fields,
    lemma_backorder_request_fields,
    lemma_preorder_window_fields,
    lemma_preorder_reservation_fields,
    lemma_serialized_inventory_set_fields,
    lemma_sku_substitution_fields,
    lemma_split_fulfillment_plan_fields,
}

} // verus!
