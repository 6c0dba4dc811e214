//! The shop's assortment: products, pages of search results and the names
//! of assortments and product types.
//!
//! Quantities that the shop reports as single-precision floating-point
//! numbers are held here as their IEEE 754 bit patterns (`*_bits` fields).
use vstd::prelude::*;
use vstd::hash_map::StringHashMap;
use strum::ParseError;
use crate::error::variant_not_found;
use crate::text::{dashed, hyperlink, lowercase, owned, replace_spaces, terminal_link, text_eq, to_lowercase};

verus! {

/// One page of search results.
#[derive(Debug, Clone)]
pub struct Assortment {
    pub metadata: Metadata,
    pub products: Vec<Product>,
}

/// What the shop says about a page of search results.
#[derive(Debug, Clone)]
pub struct Metadata {
    /// Number of products that match the search, on all pages.
    pub doc_count: u16,
    pub full_assortment_doc_count: u16,
    /// `-1` on the last page.
    pub next_page: i16,
    /// `-1` on the first page.
    pub previous_page: i16,
    pub total_pages: u16,
    pub price_range: Range,
    pub volume_range: Range,
    pub alcohol_percentage_range: Range,
    pub sugar_content_range: Range,
    pub sugar_content_gram_per_100ml_range: Range,
    pub did_you_mean_query: Option<String>,
}

/// A closed interval, both ends as IEEE 754 single-precision bit patterns.
#[derive(Debug, Clone)]
pub struct Range {
    pub min_bits: u32,
    pub max_bits: u32,
}

/// One product of the assortment.
#[derive(Debug, Clone)]
pub struct Product {
    /// Percent of alcohol by volume (IEEE 754 single-precision bit pattern).
    pub alcohol_percentage_bits: u32,
    pub assortment: String,
    pub assortment_text: String,
    pub bottle_text: String,
    pub category: Option<String>,
    pub category_level1: String,
    pub category_level2: String,
    pub category_level3: Option<String>,
    pub category_level4: Option<String>,
    pub color: Option<String>,
    pub country: String,
    pub custom_category_title: String,
    pub dish_points: Option<String>,
    pub ethical_label: Option<String>,
    pub grapes: Vec<String>,
    pub image_modules: ImageModule,
    pub images: Vec<Image>,
    pub is_bs_assortment: bool,
    pub is_climate_smart_packaging: bool,
    pub is_completely_out_of_stock: bool,
    pub is_discontinued: bool,
    pub is_ethical: bool,
    pub is_fs_assortment: bool,
    pub is_fs_ts_assortment: bool,
    pub is_kosher: bool,
    pub is_manufacturing_country: bool,
    pub is_news: bool,
    pub is_organic: bool,
    pub is_pa_assortment: bool,
    pub is_recommended_by_taste_profile: bool,
    pub is_regional_restricted: bool,
    pub is_supplier_temporary_not_available: bool,
    pub is_sustainable_choice: bool,
    pub is_temporary_out_of_stock: bool,
    pub is_ts_assortment: bool,
    pub is_ts_ls_assortment: bool,
    pub is_tse_assortment: bool,
    pub is_tss_assortment: bool,
    pub is_tst_assortment: bool,
    pub is_tsv_assortment: bool,
    pub is_web_launch: bool,
    pub origin_level1: Option<String>,
    pub origin_level2: Option<String>,
    pub other_selections: Option<String>,
    pub packaging_level1: Option<String>,
    /// Price in crowns (IEEE 754 single-precision bit pattern).
    pub price_bits: u32,
    pub producer_name: Option<String>,
    pub product_id: String,
    pub product_launch_date: String,
    pub product_name_bold: String,
    pub product_name_thin: Option<String>,
    pub product_number: String,
    pub product_number_short: String,
    /// Recycling fee in crowns (IEEE 754 single-precision bit pattern).
    pub recycle_fee_bits: u32,
    pub restricted_parcel_quantity: u8,
    pub seal: Option<String>,
    pub sell_start_time: String,
    pub sugar_content: u16,
    /// Grams of sugar per 100 ml (IEEE 754 single-precision bit pattern).
    pub sugar_content_gram_per100ml_bits: u32,
    pub supplier_name: Option<String>,
    pub taste: Option<String>,
    pub taste_clock_bitter: u8,
    pub taste_clock_body: u8,
    pub taste_clock_casque: u8,
    pub taste_clock_fruitacid: u8,
    pub taste_clock_group_bitter: Option<u8>,
    pub taste_clock_group_smokiness: Option<u8>,
    pub taste_clock_roughness: u8,
    pub taste_clock_smokiness: u8,
    pub taste_clock_sweetness: u8,
    pub taste_clocks: Vec<TasteClock>,
    pub taste_symbols: Vec<String>,
    pub usage: Option<String>,
    pub vintage: Option<String>,
    /// Volume in millilitres (IEEE 754 single-precision bit pattern).
    pub volume_bits: u32,
    pub volume_text: String,
}

/// A picture of a product.
#[derive(Debug, Clone)]
pub struct Image {
    pub image_url: String,
    pub file_type: Option<String>,
    pub size: Option<u8>,
}

/// Where the pictures of a product are kept.
#[derive(Debug, Clone)]
pub struct ImageModule {
    pub product_id: Option<String>,
    pub thumbnail: Option<String>,
    pub sizes: Option<String>,
    pub extensions: Option<String>,
}

/// One dial of a product's taste clock.
#[derive(Debug, Clone)]
pub struct TasteClock {
    pub key: String,
    pub value: u8,
}

/// The assortment a product belongs to.
#[derive(Debug, Clone, Copy)]
pub enum ProductAssortment {
    Fixed,
    OrderWare,
    Season,
    Temporary,
    Local,
    Web,
}

/// The kind of drink.
#[derive(Debug)]
pub enum ProductType {
    Wine,
    Beer,
    Spirit,
    Cider,
    AlcoholFree,
}


impl ProductAssortment {
    /// The name the shop gives the assortment.
    pub open spec fn text(self) -> Seq<char> {
        match self {
            ProductAssortment::Fixed => "Fast sortiment"@,
            ProductAssortment::OrderWare => "Ordervaror"@,
            ProductAssortment::Season => "Säsong"@,
            ProductAssortment::Temporary => "Tillfälligt sortiment"@,
            ProductAssortment::Local => "Lokalt & Småskaligt"@,
            ProductAssortment::Web => "Webblanseringar"@,
        }
    }

    /// The assortment whose name is `s`, if any.
    pub open spec fn from_text_spec(s: Seq<char>) -> Option<ProductAssortment> {
        if s == "Fast sortiment"@ {
            Some(ProductAssortment::Fixed)
        } else if s == "Ordervaror"@ {
            Some(ProductAssortment::OrderWare)
        } else if s == "Säsong"@ {
            Some(ProductAssortment::Season)
        } else if s == "Tillfälligt sortiment"@ {
            Some(ProductAssortment::Temporary)
        } else if s == "Lokalt & Småskaligt"@ {
            Some(ProductAssortment::Local)
        } else if s == "Webblanseringar"@ {
            Some(ProductAssortment::Web)
        } else {
            None
        }
    }

    /// The name the shop gives the assortment.
    pub fn to_string(&self) -> (s: String)
        ensures
            s@ == self.text(),
    {
        match self {
            ProductAssortment::Fixed => owned("Fast sortiment"),
            ProductAssortment::OrderWare => owned("Ordervaror"),
            ProductAssortment::Season => owned("Säsong"),
            ProductAssortment::Temporary => owned("Tillfälligt sortiment"),
            ProductAssortment::Local => owned("Lokalt & Småskaligt"),
            ProductAssortment::Web => owned("Webblanseringar"),
        }
    }

    /// The assortment whose name is exactly `s`, or `None`.
    pub fn from_text(s: &str) -> (r: Option<ProductAssortment>)
        ensures
            r == ProductAssortment::from_text_spec(s@),
    {
        if text_eq(s, "Fast sortiment") {
            Some(ProductAssortment::Fixed)
        } else if text_eq(s, "Ordervaror") {
            Some(ProductAssortment::OrderWare)
        } else if text_eq(s, "Säsong") {
            Some(ProductAssortment::Season)
        } else if text_eq(s, "Tillfälligt sortiment") {
            Some(ProductAssortment::Temporary)
        } else if text_eq(s, "Lokalt & Småskaligt") {
            Some(ProductAssortment::Local)
        } else if text_eq(s, "Webblanseringar") {
            Some(ProductAssortment::Web)
        } else {
            None
        }
    }
}

impl core::str::FromStr for ProductAssortment {
    type Err = ParseError;

    fn from_str(s: &str) -> (r: core::result::Result<ProductAssortment, ParseError>)
        ensures
            r is Ok <==> ProductAssortment::from_text_spec(s@) is Some,
            r matches Ok(a) ==> ProductAssortment::from_text_spec(s@) == Some(a),
    {
        match ProductAssortment::from_text(s) {
            Some(a) => Ok(a),
            None => Err(variant_not_found()),
        }
    }
}

impl ProductType {
    /// The name the shop gives the kind of drink.
    pub open spec fn text(self) -> Seq<char> {
        match self {
            ProductType::Wine => "Vin"@,
            ProductType::Beer => "Öl"@,
            ProductType::Spirit => "Sprit"@,
            ProductType::Cider => "Cider & blanddrycker"@,
            ProductType::AlcoholFree => "Alkoholfritt"@,
        }
    }

    /// The kind of drink whose name is `s`, if any.
    pub open spec fn from_text_spec(s: Seq<char>) -> Option<ProductType> {
        if s == "Vin"@ {
            Some(ProductType::Wine)
        } else if s == "Öl"@ {
            Some(ProductType::Beer)
        } else if s == "Sprit"@ {
            Some(ProductType::Spirit)
        } else if s == "Cider & blanddrycker"@ {
            Some(ProductType::Cider)
        } else if s == "Alkoholfritt"@ {
            Some(ProductType::AlcoholFree)
        } else {
            None
        }
    }

    /// The name the shop gives the kind of drink.
    pub fn to_string(&self) -> (s: String)
        ensures
            s@ == self.text(),
    {
        match self {
            ProductType::Wine => owned("Vin"),
            ProductType::Beer => owned("Öl"),
            ProductType::Spirit => owned("Sprit"),
            ProductType::Cider => owned("Cider & blanddrycker"),
            ProductType::AlcoholFree => owned("Alkoholfritt"),
        }
    }

    /// The kind of drink whose name is exactly `s`, or `None`.
    pub fn from_text(s: &str) -> (r: Option<ProductType>)
        ensures
            r == ProductType::from_text_spec(s@),
    {
        if text_eq(s, "Vin") {
            Some(ProductType::Wine)
        } else if text_eq(s, "Öl") {
            Some(ProductType::Beer)
        } else if text_eq(s, "Sprit") {
            Some(ProductType::Spirit)
        } else if text_eq(s, "Cider & blanddrycker") {
            Some(ProductType::Cider)
        } else if text_eq(s, "Alkoholfritt") {
            Some(ProductType::AlcoholFree)
        } else {
            None
        }
    }
}

impl core::str::FromStr for ProductType {
    type Err = ParseError;

    fn from_str(s: &str) -> (r: core::result::Result<ProductType, ParseError>)
        ensures
            r is Ok <==> ProductType::from_text_spec(s@) is Some,
            r matches Ok(t) ==> ProductType::from_text_spec(s@) == Some(t),
    {
        match ProductType::from_text(s) {
            Some(t) => Ok(t),
            None => Err(variant_not_found()),
        }
    }
}

/// The address of a product's page in the shop: the first category level and
/// the bold name in lower case, the spaces of the name turned into dashes,
/// then the product number.
pub open spec fn product_url(category_level1: Seq<char>, name_bold: Seq<char>, number: Seq<char>) -> Seq<char> {
    "https://systembolaget.se/produkt/"@ + lowercase(category_level1) + "/"@ + dashed(lowercase(name_bold))
        + "-"@ + number
}

/// The text of an optional field, empty when it is absent.
pub open spec fn text_or_empty(s: Option<String>) -> Seq<char> {
    match s {
        Some(t) => t@,
        None => Seq::empty(),
    }
}

impl Product {
    /// The address of this product's page in the shop.
    pub open spec fn spec_url(&self) -> Seq<char> {
        product_url(self.category_level1@, self.product_name_bold@, self.product_number@)
    }

    /// The address of this product's page in the shop.
    pub fn url(&self) -> (r: String)
        ensures
            r@ == self.spec_url(),
            r@ == "https://systembolaget.se/produkt/"@ + lowercase(self.category_level1@) + "/"@ + dashed(
                lowercase(self.product_name_bold@),
            ) + "-"@ + self.product_number@,
    {
        let mut r = owned("https://systembolaget.se/produkt/");
        let category = to_lowercase(self.category_level1.as_str());
        r.append(category.as_str());
        r.append("/");
        let name = to_lowercase(self.product_name_bold.as_str());
        let slug = replace_spaces(name.as_str());
        r.append(slug.as_str());
        r.append("-");
        r.append(self.product_number.as_str());
        r
    }

    /// The bold name, linked to the product's page.
    pub fn link_display_name(&self) -> (r: String)
        ensures
            r@ == terminal_link(self.product_name_bold@, self.spec_url()),
            r@ == terminal_link(self.product_name_bold@, ("https://systembolaget.se/produkt/"@ + lowercase(self.category_level1@) + "/"@ + dashed(lowercase(self.product_name_bold@)) + "-"@ + self.product_number@)),
    {
        let url = self.url();
        hyperlink(self.product_name_bold.as_str(), url.as_str())
    }

    /// `name: price:-`, linked to the product's page; `price` is the price in
    /// crowns as the caller writes it.
    pub fn link_display_price(&self, price: &str) -> (r: String)
        ensures
            r@ == terminal_link(self.product_name_bold@ + ": "@ + price@ + ":-"@, self.spec_url()),
            r@ == terminal_link(self.product_name_bold@ + ": "@ + price@ + ":-"@, ("https://systembolaget.se/produkt/"@ + lowercase(self.category_level1@) + "/"@ + dashed(lowercase(self.product_name_bold@)) + "-"@ + self.product_number@)),
    {
        let url = self.url();
        let mut text = owned(self.product_name_bold.as_str());
        text.append(": ");
        text.append(price);
        text.append(":-");
        hyperlink(text.as_str(), url.as_str())
    }

    /// `name: volume ml`, linked to the product's page; `volume` is the volume
    /// in millilitres as the caller writes it.
    pub fn link_display_volume(&self, volume: &str) -> (r: String)
        ensures
            r@ == terminal_link(self.product_name_bold@ + ": "@ + volume@ + " ml"@, self.spec_url()),
            r@ == terminal_link(self.product_name_bold@ + ": "@ + volume@ + " ml"@, ("https://systembolaget.se/produkt/"@ + lowercase(self.category_level1@) + "/"@ + dashed(lowercase(self.product_name_bold@)) + "-"@ + self.product_number@)),
    {
        let url = self.url();
        let mut text = owned(self.product_name_bold.as_str());
        text.append(": ");
        text.append(volume);
        text.append(" ml");
        hyperlink(text.as_str(), url.as_str())
    }

    /// `name, vintage` (the vintage empty when unknown), linked to the
    /// product's page.
    pub fn link_display_vintage(&self) -> (r: String)
        ensures
            r@ == terminal_link(self.product_name_bold@ + ", "@ + text_or_empty(self.vintage), self.spec_url()),
            r@ == terminal_link(self.product_name_bold@ + ", "@ + text_or_empty(self.vintage), ("https://systembolaget.se/produkt/"@ + lowercase(self.category_level1@) + "/"@ + dashed(lowercase(self.product_name_bold@)) + "-"@ + self.product_number@)),
    {
        let url = self.url();
        let mut text = owned(self.product_name_bold.as_str());
        text.append(", ");
        match &self.vintage {
            Some(v) => text.append(v.as_str()),
            None => {},
        }
        assert(text@ =~= self.product_name_bold@ + ", "@ + text_or_empty(self.vintage));
        hyperlink(text.as_str(), url.as_str())
    }

    /// `name, launch date`, linked to the product's page.
    pub fn link_display_product_launch_date(&self) -> (r: String)
        ensures
            r@ == terminal_link(self.product_name_bold@ + ", "@ + self.product_launch_date@, self.spec_url()),
            r@ == terminal_link(self.product_name_bold@ + ", "@ + self.product_launch_date@, ("https://systembolaget.se/produkt/"@ + lowercase(self.category_level1@) + "/"@ + dashed(lowercase(self.product_name_bold@)) + "-"@ + self.product_number@)),
    {
        let url = self.url();
        let mut text = owned(self.product_name_bold.as_str());
        text.append(", ");
        text.append(self.product_launch_date.as_str());
        hyperlink(text.as_str(), url.as_str())
    }

    /// `bold thin: ratio ml/kr` (the thin name empty when absent), linked to
    /// the product's page; `ml_per_crown` is the millilitres of alcohol per
    /// crown as the caller writes it.
    pub fn link_display_ml_per_crown(&self, ml_per_crown: &str) -> (r: String)
        ensures
            r@ == terminal_link(
                self.product_name_bold@ + " "@ + text_or_empty(self.product_name_thin) + ": "@ + ml_per_crown@
                    + " ml/kr"@,
                self.spec_url(),
            ),
            r@ == terminal_link(
                self.product_name_bold@ + " "@ + text_or_empty(self.product_name_thin) + ": "@ + ml_per_crown@
                    + " ml/kr"@,
                ("https://systembolaget.se/produkt/"@ + lowercase(self.category_level1@) + "/"@ + dashed(lowercase(self.product_name_bold@)) + "-"@ + self.product_number@),
            ),
    {
        let url = self.url();
        let mut text = owned(self.product_name_bold.as_str());
        text.append(" ");
        match &self.product_name_thin {
            Some(t) => text.append(t.as_str()),
            None => {},
        }
        text.append(": ");
        text.append(ml_per_crown);
        text.append(" ml/kr");
        assert(text@ =~= self.product_name_bold@ + " "@ + text_or_empty(self.product_name_thin) + ": "@
            + ml_per_crown@ + " ml/kr"@);
        hyperlink(text.as_str(), url.as_str())
    }

    /// `name: ratio kr/ml`, linked to the product's page; `crowns_per_ml` is
    /// the crowns per millilitre of alcohol as the caller writes it.
    pub fn link_display_crowns_per_ml(&self, crowns_per_ml: &str) -> (r: String)
        ensures
            r@ == terminal_link(self.product_name_bold@ + ": "@ + crowns_per_ml@ + " kr/ml"@, self.spec_url()),
            r@ == terminal_link(self.product_name_bold@ + ": "@ + crowns_per_ml@ + " kr/ml"@, ("https://systembolaget.se/produkt/"@ + lowercase(self.category_level1@) + "/"@ + dashed(lowercase(self.product_name_bold@)) + "-"@ + self.product_number@)),
    {
        let url = self.url();
        let mut text = owned(self.product_name_bold.as_str());
        text.append(": ");
        text.append(crowns_per_ml);
        text.append(" kr/ml");
        hyperlink(text.as_str(), url.as_str())
    }
}

/// A product's page address ends with a dash and the full product number,
/// and addresses that differ only in the product number differ.
pub proof fn lemma_product_url_ends_with_number(
    category_level1: Seq<char>,
    name_bold: Seq<char>,
    a: Seq<char>,
    b: Seq<char>,
)
    ensures
        ("-"@ + a).is_suffix_of(product_url(category_level1, name_bold, a)),
        product_url(category_level1, name_bold, a) == product_url(category_level1, name_bold, b) ==> a == b,
{
    let x = "https://systembolaget.se/produkt/"@ + lowercase(category_level1) + "/"@ + dashed(lowercase(name_bold));
    let ua = product_url(category_level1, name_bold, a);
    let ub = product_url(category_level1, name_bold, b);
    assert(ua =~= x + ("-"@ + a));
    assert(ub =~= x + ("-"@ + b));
    assert(("-"@ + a) =~= ua.subrange(x.len() as int, ua.len() as int));
    if ua == ub {
        assert(("-"@ + b) =~= ub.subrange(x.len() as int, ub.len() as int));
        assert(a =~= ("-"@ + a).skip(("-"@).len() as int));
        assert(b =~= ("-"@ + b).skip(("-"@).len() as int));
    }
}

/// Two products of one category and bold name link to one page exactly when
/// their product numbers are equal: the page is chosen by the full product
/// number, whatever the short number says.
pub proof fn lemma_url_follows_product_number(p: Product, q: Product)
    requires
        p.category_level1@ == q.category_level1@,
        p.product_name_bold@ == q.product_name_bold@,
    ensures
        p.spec_url() == q.spec_url() <==> p.product_number@ == q.product_number@,
{
    lemma_product_url_ends_with_number(p.category_level1@, p.product_name_bold@, p.product_number@, q.product_number@);
}

/// The bold name of a product, the key under which a page is merged into the
/// collected products.
pub open spec fn name_key(p: Product) -> Seq<char> {
    p.product_name_bold@
}

/// The product number, the key of `Assortment::into_product_map`.
pub open spec fn number_key(p: Product) -> Seq<char> {
    p.product_number@
}

/// Whether `pairs` holds, in order, each of `products` under its key.
pub open spec fn keyed_pairs(
    pairs: Seq<(String, Product)>,
    products: Seq<Product>,
    key: spec_fn(Product) -> Seq<char>,
) -> bool {
    &&& pairs.len() == products.len()
    &&& forall|i: int| 0 <= i < pairs.len() ==> (#[trigger] pairs[i]).0@ == key(products[i]) && pairs[i].1 == products[i]
}

/// `m` after inserting each of `products` under its key, in order, so that a
/// later product replaces an earlier one of the same key.
pub open spec fn insert_all(
    m: Map<Seq<char>, Product>,
    products: Seq<Product>,
    key: spec_fn(Product) -> Seq<char>,
) -> Map<Seq<char>, Product>
    decreases products.len(),
{
    if products.len() == 0 {
        m
    } else {
        insert_all(m, products.drop_last(), key).insert(key(products.last()), products.last())
    }
}

impl Assortment {
    /// The products, each paired with its bold name, in page order.
    pub fn into_name_pairs(self) -> (r: Vec<(String, Product)>)
        ensures
            keyed_pairs(r@, self.products@, |p: Product| name_key(p)),
            r@.len() == self.products@.len(),
            forall|i: int| 0 <= i < r@.len() ==> (#[trigger] r@[i]).0@ == self.products@[i].product_name_bold@,
            forall|i: int| 0 <= i < r@.len() ==> (#[trigger] r@[i]).1 == self.products@[i],
    {
        pairs_by(self.products, true)
    }

    /// The products, each paired with its product number, in page order.
    pub fn into_number_pairs(self) -> (r: Vec<(String, Product)>)
        ensures
            keyed_pairs(r@, self.products@, |p: Product| number_key(p)),
            r@.len() == self.products@.len(),
            forall|i: int| 0 <= i < r@.len() ==> (#[trigger] r@[i]).0@ == self.products@[i].product_number@,
            forall|i: int| 0 <= i < r@.len() ==> (#[trigger] r@[i]).1 == self.products@[i],
    {
        pairs_by(self.products, false)
    }

    /// The products by product number; of several with one number the last stays.
    pub fn into_product_map(self) -> (r: StringHashMap<Product>)
        ensures
            r@ == insert_all(Map::empty(), self.products@, |p: Product| number_key(p)),
            forall|i: int| 0 <= i < self.products@.len() ==> r@.contains_key((#[trigger] self.products@[i]).product_number@),
            forall|k: Seq<char>| #[trigger] r@.contains_key(k) ==> exists|i: int|
                0 <= i < self.products@.len() && (#[trigger] self.products@[i]).product_number@ == k,
            forall|k: Seq<char>| #[trigger] r@.contains_key(k) ==> r@[k].product_number@ == k,
            forall|i: int|
                0 <= i < self.products@.len() && (forall|j: int|
                    i < j < self.products@.len() ==> (#[trigger] self.products@[j]).product_number@
                        != self.products@[i].product_number@) ==> r@[(#[trigger] self.products@[i]).product_number@]
                    == self.products@[i],
    {
        let ghost products = self.products@;
        let mut m = StringHashMap::new();
        insert_products(&mut m, self.products, false);
        proof {
            lemma_product_number_map(Map::empty(), products);
        }
        m
    }
}

/// `m` after inserting the products under their product numbers.
pub open spec fn by_number(m: Map<Seq<char>, Product>, products: Seq<Product>) -> Map<Seq<char>, Product> {
    insert_all(m, products, |p: Product| number_key(p))
}

/// `m` after inserting the products under their bold names.
pub open spec fn by_name(m: Map<Seq<char>, Product>, products: Seq<Product>) -> Map<Seq<char>, Product> {
    insert_all(m, products, |p: Product| name_key(p))
}

/// Keying products by product number: after inserting a page into a map, every
/// product's number is a key; every key was there before or is some product's
/// number; a new key holds a product with that number; and a product whose
/// number no later product repeats is what its number holds.
pub proof fn lemma_product_number_map(m: Map<Seq<char>, Product>, products: Seq<Product>)
    ensures
        forall|i: int| 0 <= i < products.len() ==> by_number(m, products).contains_key(
            (#[trigger] products[i]).product_number@,
        ),
        forall|k: Seq<char>| #[trigger] by_number(m, products).contains_key(k) ==> m.contains_key(k)
            || exists|i: int| 0 <= i < products.len() && (#[trigger] products[i]).product_number@ == k,
        forall|k: Seq<char>|
            #[trigger] by_number(m, products).contains_key(k) && !m.contains_key(k)
                ==> by_number(m, products)[k].product_number@ == k,
        forall|k: Seq<char>|
            #[trigger] by_number(m, products).contains_key(k) && (m.contains_key(k) ==> m[k].product_number@ == k) ==> by_number(m, products)[k].product_number@ == k,
        forall|i: int|
            0 <= i < products.len() && (forall|j: int|
                i < j < products.len() ==> (#[trigger] products[j]).product_number@ != products[i].product_number@)
                ==> by_number(m, products)[(#[trigger] products[i]).product_number@]
                == products[i],
{
    lemma_keyed_map(m, products, |p: Product| number_key(p));
    assert(by_number(m, products) == insert_all(m, products, |p: Product| number_key(p)));
}

/// Keying products by bold name: after inserting a page into a map, every
/// product's bold name is a key; every key was there before or is some
/// product's bold name; a product whose name no later product repeats is what
/// its name holds; and a key no product has keeps its entry.
pub proof fn lemma_product_name_map(m: Map<Seq<char>, Product>, products: Seq<Product>)
    ensures
        forall|i: int| 0 <= i < products.len() ==> by_name(m, products).contains_key(
            (#[trigger] products[i]).product_name_bold@,
        ),
        forall|k: Seq<char>| #[trigger] by_name(m, products).contains_key(k) ==> m.contains_key(k)
            || exists|i: int| 0 <= i < products.len() && (#[trigger] products[i]).product_name_bold@ == k,
        forall|i: int|
            0 <= i < products.len() && (forall|j: int|
                i < j < products.len() ==> (#[trigger] products[j]).product_name_bold@ != products[i].product_name_bold@)
                ==> by_name(m, products)[(#[trigger] products[i]).product_name_bold@]
                == products[i],
        forall|k: Seq<char>|
            #[trigger] m.contains_key(k) && (forall|i: int| 0 <= i < products.len() ==> (#[trigger] products[i]).product_name_bold@ != k)
                ==> by_name(m, products).contains_key(k)
                && by_name(m, products)[k] == m[k],
{
    lemma_keyed_map(m, products, |p: Product| name_key(p));
    assert(by_name(m, products) == insert_all(m, products, |p: Product| name_key(p)));
}

/// The keys of a map after inserting products under a key function.
proof fn lemma_keyed_map(m: Map<Seq<char>, Product>, products: Seq<Product>, key: spec_fn(Product) -> Seq<char>)
    ensures
        forall|i: int| 0 <= i < products.len() ==> insert_all(m, products, key).contains_key(key(#[trigger] products[i])),
        forall|k: Seq<char>| #[trigger] insert_all(m, products, key).contains_key(k) ==> m.contains_key(k)
            || exists|i: int| 0 <= i < products.len() && key(#[trigger] products[i]) == k,
        forall|k: Seq<char>|
            #[trigger] insert_all(m, products, key).contains_key(k) && !m.contains_key(k) ==> key(insert_all(m, products, key)[k])
                == k,
        forall|k: Seq<char>|
            #[trigger] insert_all(m, products, key).contains_key(k) && (m.contains_key(k) ==> key(m[k]) == k) ==> key(insert_all(m, products, key)[k]) == k,
        forall|i: int|
            0 <= i < products.len() && (forall|j: int| i < j < products.len() ==> key(#[trigger] products[j]) != key(products[i]))
                ==> insert_all(m, products, key)[key(#[trigger] products[i])] == products[i],
        forall|k: Seq<char>|
            #[trigger] m.contains_key(k) && (forall|i: int| 0 <= i < products.len() ==> key(#[trigger] products[i]) != k)
                ==> insert_all(m, products, key).contains_key(k) && insert_all(m, products, key)[k] == m[k],
{
    assert forall|i: int| 0 <= i < products.len() implies insert_all(m, products, key).contains_key(key(#[trigger] products[i])) by {
        lemma_insert_all_lookup(m, products, key, key(products[i]));
    }
    assert forall|k: Seq<char>| #[trigger] insert_all(m, products, key).contains_key(k) implies m.contains_key(k)
        || exists|i: int| 0 <= i < products.len() && key(#[trigger] products[i]) == k by {
        lemma_insert_all_lookup(m, products, key, k);
    }
    assert forall|k: Seq<char>|
        #[trigger] insert_all(m, products, key).contains_key(k) && (!m.contains_key(k) || key(m[k]) == k) implies key(insert_all(m, products, key)[k]) == k by {
        lemma_insert_all_lookup(m, products, key, k);
        if exists|i: int| 0 <= i < products.len() && key(#[trigger] products[i]) == k {
            lemma_last_with_key(products, key, k);
            let i = choose|i: int|
                0 <= i < products.len() && key(#[trigger] products[i]) == k && (forall|j: int|
                    i < j < products.len() ==> key(#[trigger] products[j]) != k);
            lemma_insert_all_last(m, products, key, k, i);
        } else {
            lemma_insert_all_untouched(m, products, key, k);
        }
    }
    assert forall|i: int|
        0 <= i < products.len() && (forall|j: int| i < j < products.len() ==> key(#[trigger] products[j]) != key(products[i]))
        implies insert_all(m, products, key)[key(#[trigger] products[i])] == products[i] by {
        lemma_insert_all_last(m, products, key, key(products[i]), i);
    }
    assert forall|k: Seq<char>|
        #[trigger] m.contains_key(k) && (forall|i: int| 0 <= i < products.len() ==> key(#[trigger] products[i]) != k)
        implies insert_all(m, products, key).contains_key(k) && insert_all(m, products, key)[k] == m[k] by {
        lemma_insert_all_untouched(m, products, key, k);
    }
}

/// The key of a product: its bold name or its product number.
fn key_of(p: &Product, by_name: bool) -> (k: String)
    ensures
        k@ == if by_name { name_key(*p) } else { number_key(*p) },
{
    if by_name {
        p.product_name_bold.clone()
    } else {
        p.product_number.clone()
    }
}

/// Inserts the products of a page, each under its bold name, in order.
pub fn extend_by_name(m: &mut StringHashMap<Product>, assortment: Assortment)
    ensures
        final(m)@ == insert_all(old(m)@, assortment.products@, |p: Product| name_key(p)),
{
    insert_products(m, assortment.products, true);
}

/// Pairs each product with its key, in order.
fn pairs_by(products: Vec<Product>, by_name: bool) -> (r: Vec<(String, Product)>)
    ensures
        keyed_pairs(r@, products@, if by_name { |p: Product| name_key(p) } else { |p: Product| number_key(p) }),
{
    let ghost key = if by_name { |p: Product| name_key(p) } else { |p: Product| number_key(p) };
    let ghost all = products@;
    let n = products.len();
    let mut rest = products;
    let mut reversed: Vec<Product> = Vec::new();
    while rest.len() > 0
        invariant
            n == all.len(),
            rest.len() + reversed.len() == n,
            rest@ == all.take(rest.len() as int),
            forall|j: int| 0 <= j < reversed.len() ==> #[trigger] reversed@[j] == all[n - 1 - j],
        decreases rest.len(),
    {
        let p = rest.pop().unwrap();
        reversed.push(p);
    }
    let mut r: Vec<(String, Product)> = Vec::new();
    while reversed.len() > 0
        invariant
            n == all.len(),
            r.len() + reversed.len() == n,
            forall|j: int| 0 <= j < reversed.len() ==> #[trigger] reversed@[j] == all[n - 1 - j],
            forall|x: Product| #[trigger] key(x) == if by_name { name_key(x) } else { number_key(x) },
            forall|i: int| 0 <= i < r.len() ==> (#[trigger] r@[i]).0@ == key(all[i]) && r@[i].1 == all[i],
        decreases reversed.len(),
    {
        let ghost m = r.len();
        let p = reversed.pop().unwrap();
        assert(p == all[m as int]);
        let k = key_of(&p, by_name);
        r.push((k, p));
    }
    r
}

/// Inserts each product under its key, in order.
fn insert_products(m: &mut StringHashMap<Product>, products: Vec<Product>, by_name: bool)
    ensures
        final(m)@ == insert_all(old(m)@, products@, if by_name { |p: Product| name_key(p) } else { |p: Product| number_key(p) }),
{
    let ghost key = if by_name { |p: Product| name_key(p) } else { |p: Product| number_key(p) };
    let ghost start = old(m)@;
    let ghost all = products@;
    let pairs = pairs_by(products, by_name);
    let ghost pv = pairs@;
    let n = pairs.len();
    let mut rest = pairs;
    let mut reversed: Vec<(String, Product)> = Vec::new();
    while rest.len() > 0
        invariant
            n == all.len(),
            rest.len() + reversed.len() == n,
            pv.len() == n,
            rest@ == pv.take(rest.len() as int),
            forall|j: int| 0 <= j < reversed.len() ==> #[trigger] reversed@[j] == pv[n - 1 - j],
        decreases rest.len(),
    {
        let p = rest.pop().unwrap();
        reversed.push(p);
    }
    let mut done: usize = 0;
    while reversed.len() > 0
        invariant
            n == all.len(),
            keyed_pairs(pv, all, key),
            done + reversed.len() == n,
            forall|j: int| 0 <= j < reversed.len() ==> #[trigger] reversed@[j] == pv[n - 1 - j],
            m@ == insert_all(start, all.take(done as int), key),
        decreases reversed.len(),
    {
        let (k, p) = reversed.pop().unwrap();
        assert(all.take(done + 1).drop_last() =~= all.take(done as int));
        m.insert(k, p);
        done = done + 1;
    }
    assert(all.take(n as int) =~= all);
}

/// Inserting products keeps the collection finite and never shrinks it, adds
/// at most one entry per product, and grows it when some product has a key
/// not held before: each result page that brings a product not yet collected
/// brings the collection closer to the reported total.
pub proof fn lemma_insert_all_len(m: Map<Seq<char>, Product>, products: Seq<Product>, key: spec_fn(Product) -> Seq<char>)
    requires
        m.dom().finite(),
    ensures
        insert_all(m, products, key).dom().finite(),
        m.len() <= insert_all(m, products, key).len() <= m.len() + products.len(),
        (exists|i: int| 0 <= i < products.len() && !m.contains_key(key(#[trigger] products[i])))
            ==> insert_all(m, products, key).len() > m.len(),
    decreases products.len(),
{
    broadcast use vstd::set::group_set_axioms, vstd::map::group_map_axioms;
    if products.len() > 0 {
        let n = products.len();
        let init = products.drop_last();
        let k = key(products.last());
        let before = insert_all(m, init, key);
        lemma_insert_all_len(m, init, key);
        assert(insert_all(m, products, key).dom() == before.dom().insert(k));
        if exists|i: int| 0 <= i < products.len() && !m.contains_key(key(#[trigger] products[i])) {
            let i = choose|i: int| 0 <= i < products.len() && !m.contains_key(key(#[trigger] products[i]));
            if i < n - 1 {
                assert(init[i] == products[i]);
            } else if before.contains_key(k) {
                lemma_insert_all_lookup(m, init, key, k);
                let j = choose|j: int| 0 <= j < init.len() && key(#[trigger] init[j]) == k;
                assert(init[j] == products[j]);
                assert(!m.contains_key(key(init[j])));
            }
        }
    }
}

/// Inserting products none of which has key `k` leaves the entry of `k` as it was.
pub proof fn lemma_insert_all_untouched(
    m: Map<Seq<char>, Product>,
    products: Seq<Product>,
    key: spec_fn(Product) -> Seq<char>,
    k: Seq<char>,
)
    requires
        forall|i: int| 0 <= i < products.len() ==> key(#[trigger] products[i]) != k,
    ensures
        insert_all(m, products, key).contains_key(k) == m.contains_key(k),
        m.contains_key(k) ==> insert_all(m, products, key)[k] == m[k],
    decreases products.len(),
{
    if products.len() > 0 {
        let init = products.drop_last();
        assert(key(products[products.len() - 1]) != k);
        assert forall|i: int| 0 <= i < init.len() implies key(#[trigger] init[i]) != k by {
            assert(init[i] == products[i]);
        }
        lemma_insert_all_untouched(m, init, key, k);
    }
}

/// After inserting products, key `k` holds the last product that has it.
pub proof fn lemma_insert_all_last(
    m: Map<Seq<char>, Product>,
    products: Seq<Product>,
    key: spec_fn(Product) -> Seq<char>,
    k: Seq<char>,
    i: int,
)
    requires
        0 <= i < products.len(),
        key(products[i]) == k,
        forall|j: int| i < j < products.len() ==> key(#[trigger] products[j]) != k,
    ensures
        insert_all(m, products, key).contains_key(k),
        insert_all(m, products, key)[k] == products[i],
    decreases products.len(),
{
    let init = products.drop_last();
    if i < products.len() - 1 {
        assert(key(products[products.len() - 1]) != k);
        assert(init[i] == products[i]);
        assert forall|j: int| i < j < init.len() implies key(#[trigger] init[j]) != k by {
            assert(init[j] == products[j]);
        }
        lemma_insert_all_last(m, init, key, k, i);
    }
}

/// Looking a key up after inserting products under their keys (the law of
/// `Assortment::into_product_map` and `Systembolaget::absorb_page`): the key
/// is present exactly when it was present before or some product has it; a
/// key that some product has holds the last product with that key; any other
/// key keeps its entry.
pub proof fn lemma_insert_all_lookup(
    m: Map<Seq<char>, Product>,
    products: Seq<Product>,
    key: spec_fn(Product) -> Seq<char>,
    k: Seq<char>,
)
    ensures
        insert_all(m, products, key).contains_key(k) <==> (m.contains_key(k) || exists|i: int|
            0 <= i < products.len() && key(#[trigger] products[i]) == k),
        forall|i: int|
            0 <= i < products.len() && key(#[trigger] products[i]) == k && (forall|j: int|
                i < j < products.len() ==> key(#[trigger] products[j]) != k) ==> insert_all(m, products, key)[k]
                == products[i],
        (forall|i: int| 0 <= i < products.len() ==> key(#[trigger] products[i]) != k) && m.contains_key(k)
            ==> insert_all(m, products, key)[k] == m[k],
{
    assert forall|i: int|
        0 <= i < products.len() && key(#[trigger] products[i]) == k && (forall|j: int|
            i < j < products.len() ==> key(#[trigger] products[j]) != k) implies insert_all(m, products, key)[k]
        == products[i] by {
        lemma_insert_all_last(m, products, key, k, i);
    }
    if exists|i: int| 0 <= i < products.len() && key(#[trigger] products[i]) == k {
        lemma_last_with_key(products, key, k);
        let i = choose|i: int|
            0 <= i < products.len() && key(#[trigger] products[i]) == k && (forall|j: int|
                i < j < products.len() ==> key(#[trigger] products[j]) != k);
        lemma_insert_all_last(m, products, key, k, i);
    } else {
        lemma_insert_all_untouched(m, products, key, k);
    }
}

/// When some product has key `k`, there is a last one that has it.
proof fn lemma_last_with_key(products: Seq<Product>, key: spec_fn(Product) -> Seq<char>, k: Seq<char>)
    requires
        exists|i: int| 0 <= i < products.len() && key(#[trigger] products[i]) == k,
    ensures
        exists|i: int|
            0 <= i < products.len() && key(#[trigger] products[i]) == k && (forall|j: int|
                i < j < products.len() ==> key(#[trigger] products[j]) != k),
    decreases products.len(),
{
    let n = products.len();
    if key(products[n - 1]) == k {
        assert(forall|j: int| n - 1 < j < n ==> key(#[trigger] products[j]) != k);
    } else {
        let init = products.drop_last();
        let i0 = choose|i: int| 0 <= i < products.len() && key(#[trigger] products[i]) == k;
        assert(init[i0] == products[i0]);
        lemma_last_with_key(init, key, k);
        let i = choose|i: int|
            0 <= i < init.len() && key(#[trigger] init[i]) == k && (forall|j: int|
                i < j < init.len() ==> key(#[trigger] init[j]) != k);
        assert(init[i] == products[i]);
        assert forall|j: int| i < j < n implies key(#[trigger] products[j]) != k by {
            if j < n - 1 {
                assert(init[j] == products[j]);
            }
        }
    }
}

/// Names distinguish assortments, and reading a name back gives the
/// assortment that was named.
pub proof fn lemma_product_assortment_text_round_trip(a: ProductAssortment, s: Seq<char>)
    ensures
        ProductAssortment::from_text_spec(a.text()) == Some(a),
        ProductAssortment::from_text_spec(s) == Some(a) ==> s == a.text(),
{
    reveal_strlit("Fast sortiment");
    reveal_strlit("Ordervaror");
    reveal_strlit("Säsong");
    reveal_strlit("Tillfälligt sortiment");
    reveal_strlit("Lokalt & Småskaligt");
    reveal_strlit("Webblanseringar");
    assert("Fast sortiment"@.len() == 14);
    assert("Ordervaror"@.len() == 10);
    assert("Säsong"@.len() == 6);
    assert("Tillfälligt sortiment"@.len() == 21);
    assert("Lokalt & Småskaligt"@.len() == 19);
    assert("Webblanseringar"@.len() == 15);
}

/// Names distinguish kinds of drink, and reading a name back gives the kind
/// that was named.
pub proof fn lemma_product_type_text_round_trip(t: ProductType, s: Seq<char>)
    ensures
        ProductType::from_text_spec(t.text()) == Some(t),
        ProductType::from_text_spec(s) == Some(t) ==> s == t.text(),
{
    reveal_strlit("Vin");
    reveal_strlit("Öl");
    reveal_strlit("Sprit");
    reveal_strlit("Cider & blanddrycker");
    reveal_strlit("Alkoholfritt");
    assert("Vin"@.len() == 3);
    assert("Öl"@.len() == 2);
    assert("Sprit"@.len() == 5);
    assert("Cider & blanddrycker"@.len() == 20);
    assert("Alkoholfritt"@.len() == 12);
}

} // verus!
