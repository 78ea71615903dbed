//! Products, variants, catalog entries and marketplace listing content.

use vstd::prelude::*;
use crate::foundation::{DomainResult, Id, Nat, ProductId, Sku, ValidationError, VariantId};

verus! {

#[derive(Debug, PartialEq, Eq)]
pub struct Brand {
    pub(crate) id: Id,
    pub(crate) name: String,
}

impl Brand {
    pub open(crate) spec fn spec_id(&self) -> Id {
        self.id
    }

    pub open(crate) spec fn spec_name(&self) -> String {
        self.name
    }

    pub open(crate) spec fn spec_new(id: Id, name: String) -> Self {
        Brand { id, name }
    }
}

/// The accessors of a `Brand` built by `spec_new` give back its parts.
pub broadcast proof fn lemma_brand_fields(id: Id, name: String)
    ensures
        #[trigger] Brand::spec_new(id, name).spec_id() == id
            && Brand::spec_new(id, name).spec_name() == name,
{
}

impl Clone for Brand {
    fn clone(&self) -> (r: Self)
        ensures
            r == *self,
    {
        Brand { id: self.id, name: self.name.clone() }
    }
}

impl Brand {
    pub fn new(id: Id, name: String) -> (r: Self)
        ensures
            r == (Brand::spec_new(id, name)),
    {
        Brand { id, name }
    }

    pub fn try_new(id: Id, name: String) -> (r: DomainResult<Self>)
        ensures
            r == Ok::<Self, ValidationError>(Brand::spec_new(id, name)),
    {
        Ok(Self::new(id, name))
    }

    pub fn id(&self) -> (r: Id)
        ensures
            r == self.spec_id(),
    {
        self.id
    }

    pub fn name(&self) -> (r: &str)
        ensures
            r@ == self.spec_name()@,
    {
        self.name.as_str()
    }
}

#[derive(Debug, PartialEq, Eq)]
pub struct Category {
    pub(crate) id: Id,
    pub(crate) name: String,
}

impl Category {
    pub open(crate) spec fn spec_id(&self) -> Id {
        self.id
    }

    pub open(crate) spec fn spec_name(&self) -> String {
        self.name
    }

    pub open(crate) spec fn spec_new(id: Id, name: String) -> Self {
        Category { id, name }
    }
}

/// The accessors of a `Category` built by `spec_new` give back its parts.
pub broadcast proof fn lemma_category_fields(id: Id, name: String)
    ensures
        #[trigger] Category::spec_new(id, name).spec_id() == id
            && Category::spec_new(id, name).spec_name() == name,
{
}

impl Clone for Category {
    fn clone(&self) -> (r: Self)
        ensures
            r == *self,
    {
        Category { id: self.id, name: self.name.clone() }
    }
}

impl Category {
    pub fn new(id: Id, name: String) -> (r: Self)
        ensures
            r == (Category::spec_new(id, name)),
    {
        Category { id, name }
    }

    pub fn try_new(id: Id, name: String) -> (r: DomainResult<Self>)
        ensures
            r == Ok::<Self, ValidationError>(Category::spec_new(id, name)),
    {
        Ok(Self::new(id, name))
    }

    pub fn id(&self) -> (r: Id)
        ensures
            r == self.spec_id(),
    {
        self.id
    }

    pub fn name(&self) -> (r: &str)
        ensures
            r@ == self.spec_name()@,
    {
        self.name.as_str()
    }
}

#[derive(Debug, PartialEq, Eq)]
pub struct Product {
    pub(crate) id: ProductId,
    pub(crate) brand: Brand,
    pub(crate) category: Category,
    pub(crate) status: ProductStatus,
}

impl Product {
    pub open(crate) spec fn spec_id(&self) -> ProductId {
        self.id
    }

    pub open(crate) spec fn spec_brand(&self) -> Brand {
        self.brand
    }

    pub open(crate) spec fn spec_category(&self) -> Category {
        self.category
    }

    pub open(crate) spec fn spec_status(&self) -> ProductStatus {
        self.status
    }

    pub open(crate) spec fn spec_new(id: ProductId, brand: Brand, category: Category, status: ProductStatus) -> Self {
        Product { id, brand, category, status }
    }
}

/// The accessors of a `Product` built by `spec_new` give back its parts.
pub broadcast proof fn lemma_product_fields(id: ProductId, brand: Brand, category: Category, status: ProductStatus)
    ensures
        #[trigger] Product::spec_new(id, brand, category, status).spec_id() == id
            && Product::spec_new(id, brand, category, status).spec_brand() == brand
            && Product::spec_new(id, brand, category, status).spec_category() == category
            && Product::spec_new(id, brand, category, status).spec_status() == status,
{
}

impl Clone for Product {
    fn clone(&self) -> (r: Self)
        ensures
            r == *self,
    {
        Product { id: self.id, brand: self.brand.clone(), category: self.category.clone(), status: self.status }
    }
}

impl Product {
    pub fn new(id: ProductId, brand: Brand, category: Category, status: ProductStatus) -> (r: Self)
        ensures
            r == (Product::spec_new(id, brand, category, status)),
    {
        Product { id, brand, category, status }
    }

    pub fn try_new(id: ProductId, brand: Brand, category: Category, status: ProductStatus) -> (r: DomainResult<Self>)
        ensures
            r == Ok::<Self, ValidationError>(Product::spec_new(id, brand, category, status)),
    {
        Ok(Self::new(id, brand, category, status))
    }

    pub fn id(&self) -> (r: ProductId)
        ensures
            r == self.spec_id(),
    {
        self.id
    }

    pub fn brand(&self) -> (r: &Brand)
        ensures
            *r == self.spec_brand(),
    {
        &self.brand
    }

    pub fn category(&self) -> (r: &Category)
        ensures
            *r == self.spec_category(),
    {
        &self.category
    }

    pub fn status(&self) -> (r: ProductStatus)
        ensures
            r == self.spec_status(),
    {
        self.status
    }
}

#[derive(Debug, PartialEq, Eq, Structural)]
pub struct ProductVariant {
    pub(crate) id: VariantId,
    pub(crate) product_id: ProductId,
    pub(crate) sku: Sku,
    pub(crate) active: bool,
}

impl ProductVariant {
    pub open(crate) spec fn spec_id(&self) -> VariantId {
        self.id
    }

    pub open(crate) spec fn spec_product_id(&self) -> ProductId {
        self.product_id
    }

    pub open(crate) spec fn spec_sku(&self) -> Sku {
        self.sku
    }

    pub open(crate) spec fn spec_active(&self) -> bool {
        self.active
    }

    pub open(crate) spec fn spec_new(id: VariantId, product_id: ProductId, sku: Sku, active: bool) -> Self {
        ProductVariant { id, product_id, sku, active }
    }
}

/// The accessors of a `ProductVariant` built by `spec_new` give back its parts.
pub broadcast proof fn lemma_product_variant_fields(id: VariantId, product_id: ProductId, sku: Sku, active: bool)
    ensures
        #[trigger] ProductVariant::spec_new(id, product_id, sku, active).spec_id() == id
            && ProductVariant::spec_new(id, product_id, sku, active).spec_product_id() == product_id
            && ProductVariant::spec_new(id, product_id, sku, active).spec_sku() == sku
            && ProductVariant::spec_new(id, product_id, sku, active).spec_active() == active,
{
}

impl Clone for ProductVariant {
    fn clone(&self) -> (r: Self)
        ensures
            r == *self,
    {
        ProductVariant { id: self.id, product_id: self.product_id, sku: self.sku, active: self.active }
    }
}

impl ProductVariant {
    pub fn new(id: VariantId, product_id: ProductId, sku: Sku, active: bool) -> (r: Self)
        ensures
            r == (ProductVariant::spec_new(id, product_id, sku, active)),
    {
        ProductVariant { id, product_id, sku, active }
    }

    pub fn try_new(id: VariantId, product_id: ProductId, sku: Sku, active: bool) -> (r: DomainResult<Self>)
        ensures
            r == Ok::<Self, ValidationError>(ProductVariant::spec_new(id, product_id, sku, active)),
    {
        Ok(Self::new(id, product_id, sku, active))
    }

    pub fn id(&self) -> (r: VariantId)
        ensures
            r == self.spec_id(),
    {
        self.id
    }

    pub fn product_id(&self) -> (r: ProductId)
        ensures
            r == self.spec_product_id(),
    {
        self.product_id
    }

    pub fn sku(&self) -> (r: Sku)
        ensures
            r == self.spec_sku(),
    {
        self.sku
    }

    pub fn active(&self) -> (r: bool)
        ensures
            r == self.spec_active(),
    {
        self.active
    }
}

#[derive(Debug, PartialEq, Eq, Structural)]
pub struct ImageAsset {
    pub(crate) id: Id,
    pub(crate) width: Nat,
    pub(crate) height: Nat,
}

impl ImageAsset {
    pub open(crate) spec fn spec_id(&self) -> Id {
        self.id
    }

    pub open(crate) spec fn spec_width(&self) -> Nat {
        self.width
    }

    pub open(crate) spec fn spec_height(&self) -> Nat {
        self.height
    }

    pub open(crate) spec fn spec_new(id: Id, width: Nat, height: Nat) -> Self {
        ImageAsset { id, width, height }
    }
}

/// The accessors of a `ImageAsset` built by `spec_new` give back its parts.
pub broadcast proof fn lemma_image_asset_fields(id: Id, width: Nat, height: Nat)
    ensures
        #[trigger] ImageAsset::spec_new(id, width, height).spec_id() == id
            && ImageAsset::spec_new(id, width, height).spec_width() == width
            && ImageAsset::spec_new(id, width, height).spec_height() == height,
{
}

impl Clone for ImageAsset {
    fn clone(&self) -> (r: Self)
        ensures
            r == *self,
    {
        ImageAsset { id: self.id, width: self.width, height: self.height }
    }
}

impl ImageAsset {
    pub fn new(id: Id, width: Nat, height: Nat) -> (r: Self)
        ensures
            r == (ImageAsset::spec_new(id, width, height)),
    {
        ImageAsset { id, width, height }
    }

    pub fn try_new(id: Id, width: Nat, height: Nat) -> (r: DomainResult<Self>)
        ensures
            r == Ok::<Self, ValidationError>(ImageAsset::spec_new(id, width, height)),
    {
        Ok(Self::new(id, width, height))
    }

    pub fn id(&self) -> (r: Id)
        ensures
            r == self.spec_id(),
    {
        self.id
    }

    pub fn width(&self) -> (r: Nat)
        ensures
            r == self.spec_width(),
    {
        self.width
    }

    pub fn height(&self) -> (r: Nat)
        ensures
            r == self.spec_height(),
    {
        self.height
    }
}

#[derive(Debug, PartialEq, Eq, Structural)]
pub struct ListingContent {
    pub(crate) title_length: Nat,
    pub(crate) image_count: Nat,
    pub(crate) required_attributes_filled: bool,
}

impl ListingContent {
    pub open(crate) spec fn spec_title_length(&self) -> Nat {
        self.title_length
    }

    pub open(crate) spec fn spec_image_count(&self) -> Nat {
        self.image_count
    }

    pub open(crate) spec fn spec_required_attributes_filled(&self) -> bool {
        self.required_attributes_filled
    }

    pub open(crate) spec fn spec_new(title_length: Nat, image_count: Nat, required_attributes_filled: bool) -> Self {
        ListingContent { title_length, image_count, required_attributes_filled }
    }
}

/// The accessors of a `ListingContent` built by `spec_new` give back its parts.
pub broadcast proof fn lemma_listing_content_fields(title_length: Nat, image_count: Nat, required_attributes_filled: bool)
    ensures
        #[trigger] ListingContent::spec_new(title_length, image_count, required_attributes_filled).spec_title_length() == title_length
            && ListingContent::spec_new(title_length, image_count, required_attributes_filled).spec_image_count() == image_count
            && ListingContent::spec_new(title_length, image_count, required_attributes_filled).spec_required_attributes_filled() == required_attributes_filled,
{
}

impl Clone for ListingContent {
    fn clone(&self) -> (r: Self)
        ensures
            r == *self,
    {
        ListingContent { title_length: self.title_length, image_count: self.image_count, required_attributes_filled: self.required_attributes_filled }
    }
}

impl ListingContent {
    pub fn new(title_length: Nat, image_count: Nat, required_attributes_filled: bool) -> (r: Self)
        ensures
            r == (ListingContent::spec_new(title_length, image_count, required_attributes_filled)),
    {
        ListingContent { title_length, image_count, required_attributes_filled }
    }

    pub fn try_new(title_length: Nat, image_count: Nat, required_attributes_filled: bool) -> (r: DomainResult<Self>)
        ensures
            r == Ok::<Self, ValidationError>(ListingContent::spec_new(title_length, image_count, required_attributes_filled)),
    {
        Ok(Self::new(title_length, image_count, required_attributes_filled))
    }

    pub fn title_length(&self) -> (r: Nat)
        ensures
            r == self.spec_title_length(),
    {
        self.title_length
    }

    pub fn image_count(&self) -> (r: Nat)
        ensures
            r == self.spec_image_count(),
    {
        self.image_count
    }

    pub fn required_attributes_filled(&self) -> (r: bool)
        ensures
            r == self.spec_required_attributes_filled(),
    {
        self.required_attributes_filled
    }
}

#[derive(Debug, PartialEq, Eq, Structural)]
pub struct MarketplaceContentPolicy {
    pub(crate) max_title_length: Nat,
    pub(crate) min_image_count: Nat,
}

impl MarketplaceContentPolicy {
    pub open(crate) spec fn spec_max_title_length(&self) -> Nat {
        self.max_title_length
    }

    pub open(crate) spec fn spec_min_image_count(&self) -> Nat {
        self.min_image_count
    }

    pub open(crate) spec fn spec_new(max_title_length: Nat, min_image_count: Nat) -> Self {
        MarketplaceContentPolicy { max_title_length, min_image_count }
    }
}

/// The accessors of a `MarketplaceContentPolicy` built by `spec_new` give back its parts.
pub broadcast proof fn lemma_marketplace_content_policy_fields(max_title_length: Nat, min_image_count: Nat)
    ensures
        #[trigger] MarketplaceContentPolicy::spec_new(max_title_length, min_image_count).spec_max_title_length() == max_title_length
            && MarketplaceContentPolicy::spec_new(max_title_length, min_image_count).spec_min_image_count() == min_image_count,
{
}

impl Clone for MarketplaceContentPolicy {
    fn clone(&self) -> (r: Self)
        ensures
            r == *self,
    {
        MarketplaceContentPolicy { max_title_length: self.max_title_length, min_image_count: self.min_image_count }
    }
}

impl MarketplaceContentPolicy {
    pub fn new(max_title_length: Nat, min_image_count: Nat) -> (r: Self)
        ensures
            r == (MarketplaceContentPolicy::spec_new(max_title_length, min_image_count)),
    {
        MarketplaceContentPolicy { max_title_length, min_image_count }
    }

    pub fn try_new(max_title_length: Nat, min_image_count: Nat) -> (r: DomainResult<Self>)
        ensures
            r == Ok::<Self, ValidationError>(MarketplaceContentPolicy::spec_new(max_title_length, min_image_count)),
    {
        Ok(Self::new(max_title_length, min_image_count))
    }

    pub fn max_title_length(&self) -> (r: Nat)
        ensures
            r == self.spec_max_title_length(),
    {
        self.max_title_length
    }

    pub fn min_image_count(&self) -> (r: Nat)
        ensures
            r == self.spec_min_image_count(),
    {
        self.min_image_count
    }
}

#[derive(Clone, Copy, Debug, PartialEq, Eq, Structural)]
pub enum ProductStatus {
    Draft,
    Active,
    Archived,
    Discontinued,
}

#[derive(Debug, PartialEq, Eq)]
pub struct ProductCatalogEntry {
    pub(crate) product: Product,
    pub(crate) variant: ProductVariant,
}

impl ProductCatalogEntry {
    /// Every value satisfies what `try_new` checks.
    #[verifier::type_invariant]
    pub open spec fn valid(self) -> bool {
        self.spec_variant().spec_product_id() == self.spec_product().spec_id()
    }

    pub open(crate) spec fn spec_product(&self) -> Product {
        self.product
    }

    pub open(crate) spec fn spec_variant(&self) -> ProductVariant {
        self.variant
    }

    pub open(crate) spec fn spec_new(product: Product, variant: ProductVariant) -> Self {
        ProductCatalogEntry { product, variant }
    }
}

/// The accessors of a `ProductCatalogEntry` built by `spec_new` give back its parts.
pub broadcast proof fn lemma_product_catalog_entry_fields(product: Product, variant: ProductVariant)
    ensures
        #[trigger] ProductCatalogEntry::spec_new(product, variant).spec_product() == product
            && ProductCatalogEntry::spec_new(product, variant).spec_variant() == variant,
{
}

impl Clone for ProductCatalogEntry {
    fn clone(&self) -> (r: Self)
        ensures
            r == *self,
    {
        proof {
            use_type_invariant(self);
        }
        ProductCatalogEntry { product: self.product.clone(), variant: self.variant.clone() }
    }
}

#[derive(Debug, PartialEq, Eq, Structural)]
pub struct ValidListingContent {
    pub(crate) content: ListingContent,
    pub(crate) policy: MarketplaceContentPolicy,
}

impl ValidListingContent {
    /// Every value satisfies what `try_new` checks.
    #[verifier::type_invariant]
    pub open spec fn valid(self) -> bool {
        self.spec_content().spec_title_length() <= self.spec_policy().spec_max_title_length() && self.spec_content().spec_image_count() >= self.spec_policy().spec_min_image_count() && self.spec_content().spec_required_attributes_filled()
    }

    pub open(crate) spec fn spec_content(&self) -> ListingContent {
        self.content
    }

    pub open(crate) spec fn spec_policy(&self) -> MarketplaceContentPolicy {
        self.policy
    }

    pub open(crate) spec fn spec_new(content: ListingContent, policy: MarketplaceContentPolicy) -> Self {
        ValidListingContent { content, policy }
    }
}

/// The accessors of a `ValidListingContent` built by `spec_new` give back its parts.
pub broadcast proof fn lemma_valid_listing_content_fields(content: ListingContent, policy: MarketplaceContentPolicy)
    ensures
        #[trigger] ValidListingContent::spec_new(content, policy).spec_content() == content
            && ValidListingContent::spec_new(content, policy).spec_policy() == policy,
{
}

impl Clone for ValidListingContent {
    fn clone(&self) -> (r: Self)
        ensures
            r == *self,
    {
        proof {
            use_type_invariant(self);
        }
        ValidListingContent { content: self.content.clone(), policy: self.policy.clone() }
    }
}

impl ProductCatalogEntry {
    pub fn try_new(product: Product, variant: ProductVariant) -> (r: DomainResult<Self>)
        ensures
            variant.spec_product_id() != product.spec_id() ==> r == Err::<Self, ValidationError>(ValidationError::Invariant("variant must belong to product")),
            variant.spec_product_id() == product.spec_id() ==> r == Ok::<Self, ValidationError>(ProductCatalogEntry::spec_new(product, variant)),
    {
        if variant.product_id != product.id {
            return Err(ValidationError::Invariant("variant must belong to product"));
        }
        Ok(Self { product, variant })
    }

    pub fn product(&self) -> (r: &Product)
        ensures
            *r == self.spec_product(),
    {
        &self.product
    }

    pub fn variant(&self) -> (r: &ProductVariant)
        ensures
            *r == self.spec_variant(),
    {
        &self.variant
    }
}

impl ValidListingContent {
    pub fn try_new(content: ListingContent, policy: MarketplaceContentPolicy) -> (r: DomainResult<Self>)
        ensures
            content.spec_title_length() > policy.spec_max_title_length() ==> r == Err::<Self, ValidationError>(ValidationError::Invariant("listing title exceeds policy")),
            content.spec_title_length() <= policy.spec_max_title_length() && content.spec_image_count() < policy.spec_min_image_count() ==> r == Err::<Self, ValidationError>(ValidationError::Invariant("listing has too few images")),
            content.spec_title_length() <= policy.spec_max_title_length() && content.spec_image_count() >= policy.spec_min_image_count() && !content.spec_required_attributes_filled() ==> r == Err::<Self, ValidationError>(ValidationError::Invariant("listing attributes must be filled")),
            content.spec_title_length() <= policy.spec_max_title_length() && content.spec_image_count() >= policy.spec_min_image_count() && content.spec_required_attributes_filled() ==> r == Ok::<Self, ValidationError>(ValidListingContent::spec_new(content, policy)),
    {
        if content.title_length > policy.max_title_length {
            return Err(ValidationError::Invariant("listing title exceeds policy"));
        }
        if content.image_count < policy.min_image_count {
            return Err(ValidationError::Invariant("listing has too few images"));
        }
        if !content.required_attributes_filled {
            return Err(ValidationError::Invariant("listing attributes must be filled"));
        }
        Ok(Self { content, policy })
    }

    pub fn content(&self) -> (r: &ListingContent)
        ensures
            *r == self.spec_content(),
    {
        &self.content
    }

    pub fn policy(&self) -> (r: &MarketplaceContentPolicy)
        ensures
            *r == self.spec_policy(),
    {
        &self.policy
    }
}

/// The accessor lemmas for the records of this module.
pub broadcast group group_catalog_record_fields {
    lemma_brand_fields,
    lemma_category_fields,
    lemma_product_fields,
    lemma_product_variant_fields,
    lemma_image_asset_fields,
    lemma_listing_content_fields,
    lemma_marketplace_content_policy_fields,
    lemma_product_catalog_entry_fields,
    lemma_valid_listing_content_fields,
}

} // verus!
