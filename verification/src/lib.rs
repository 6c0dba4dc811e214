//! A client for the assortment of Systembolaget, the Swedish alcohol
//! retailer: it finds the API key in the shop's web pages, builds the search
//! requests, and collects the products of the result pages.
use vstd::prelude::*;
use vstd::hash_map::StringHashMap;
use crate::error::Error;
use crate::pattern::{first_match, regex_compiles, regex_first_match, Pattern};
use crate::systembolaget::{insert_all, name_key, number_key, Assortment, Product};
use crate::text::{decimal, owned, push_decimal, strip_prefix, strip_suffix, without_prefix, without_suffix};

pub mod error;
pub mod pages;
pub mod pattern;
pub mod systembolaget;
pub mod text;

verus! {

/// Base address of the public web shop.
pub const URL_BASE: &'static str = "https://systembolaget.se";

/// Base address of the shop's API.
pub const API_BASE: &'static str = "https://api-extern.systembolaget.se";

/// The request header that carries the API key.
pub const API_KEY_HEADER: &'static str = "ocp-apim-subscription-key";

/// The script tag of the shop's application bundle, in its home page.
pub const APP_BUNDLE_PATTERN: &'static str = r#"<script src="([^"]+_app-[^"]+.js)""#;

/// The API key's assignment, in the application bundle.
pub const API_KEY_PATTERN: &'static str = r#"NEXT_PUBLIC_API_KEY_APIM:"([^"]+)""#;

/// What the bundle's script tag starts with, before the path.
pub const SCRIPT_TAG_PREFIX: &'static str = "<script src=\"";

/// What the API key's assignment starts with, before the key.
pub const API_KEY_PREFIX: &'static str = "NEXT_PUBLIC_API_KEY_APIM:\"";

/// The closing quote after the path and after the key.
pub const QUOTE: &'static str = "\"";

/// The order of the search results.
#[derive(Clone, Copy, PartialEq, Eq, Structural, PartialOrd, Ord, Debug)]
pub enum SortDirection {
    Ascending,
    Descending,
}

/// What the search results are ordered by.
#[derive(Clone, Copy, Debug)]
pub enum SortBy {
    Price,
    Name,
    Volume,
    Vintage,
    ProductLaunchDate,
    MlPerCrown,
    CrownsPerMl,
}

impl SortDirection {
    /// The name the API gives the direction.
    pub open spec fn text(self) -> Seq<char> {
        match self {
            SortDirection::Ascending => "Stigande (lägst först)"@,
            SortDirection::Descending => "Fallande (högst först)"@,
        }
    }

    /// The name the API gives the direction.
    pub fn to_string(&self) -> (s: String)
        ensures
            s@ == self.text(),
    {
        match self {
            SortDirection::Ascending => owned("Stigande (lägst först)"),
            SortDirection::Descending => owned("Fallande (högst först)"),
        }
    }
}

impl SortBy {
    /// The name the API gives the order.
    pub open spec fn text(self) -> Seq<char> {
        match self {
            SortBy::Price => "Pris"@,
            SortBy::Name => "Namn"@,
            SortBy::Volume => "Volym"@,
            SortBy::Vintage => "Årgång"@,
            SortBy::ProductLaunchDate => "Säljstart"@,
            SortBy::MlPerCrown => "ml/kr"@,
            SortBy::CrownsPerMl => "kr/ml"@,
        }
    }

    /// The name the API gives the order.
    pub fn to_string(&self) -> (s: String)
        ensures
            s@ == self.text(),
    {
        match self {
            SortBy::Price => owned("Pris"),
            SortBy::Name => owned("Namn"),
            SortBy::Volume => owned("Volym"),
            SortBy::Vintage => owned("Årgång"),
            SortBy::ProductLaunchDate => owned("Säljstart"),
            SortBy::MlPerCrown => owned("ml/kr"),
            SortBy::CrownsPerMl => owned("kr/ml"),
        }
    }
}

#[verifier::external_type_specification]
#[verifier::external_body]
pub struct ExClient(reqwest::Client);

/// `reqwest::Client::default()`, an HTTP client with the default settings.
/// Nothing is claimed of the client. The crate documents that it panics when
/// the TLS backend or the resolver's system configuration cannot be loaded,
/// which depends on the machine, not on any argument.
#[verifier::external_body]
fn default_client() -> reqwest::Client {
    reqwest::Client::default()
}

/// A client of the shop's API, with the products collected so far.
pub struct Systembolaget {
    pub client: reqwest::Client,
    pub api_key: Option<String>,
    /// Products by name (or, from `from_assortment`, by product number).
    pub products: StringHashMap<Product>,
}

/// The text between `prefix` and `suffix` of a match, when the match has both.
pub open spec fn between(found: Option<Seq<char>>, prefix: Seq<char>, suffix: Seq<char>) -> Option<Seq<char>> {
    match found {
        Some(m) => match without_prefix(m, prefix) {
            Some(rest) => without_suffix(rest, suffix),
            None => None,
        },
        None => None,
    }
}

/// The text of an optional string slice.
pub open spec fn opt_view(found: Option<&str>) -> Option<Seq<char>> {
    match found {
        Some(s) => Some(s@),
        None => None,
    }
}

/// The path of the application bundle named by a match of `APP_BUNDLE_PATTERN`.
pub open spec fn script_path(found: Option<Seq<char>>) -> Option<Seq<char>> {
    between(found, SCRIPT_TAG_PREFIX@, QUOTE@)
}

/// The API key named by a match of `API_KEY_PATTERN`.
pub open spec fn api_key_in(found: Option<Seq<char>>) -> Option<Seq<char>> {
    between(found, API_KEY_PREFIX@, QUOTE@)
}

/// The address of a page of search results.
pub open spec fn page_url(page: u16, sort_by: SortBy, sort_direction: SortDirection) -> Seq<char> {
    API_BASE@ + "/sb-api-ecommerce/v1/productsearch/search?page="@ + decimal(page as nat) + "&size=30&sortBy="@
        + sort_by.text() + "&sortDirection="@ + sort_direction.text()
}

/// What a page request for a client with `api_key` holds: the address and
/// the key, or nothing when there is no key.
pub open spec fn page_request_result(
    api_key: Option<String>,
    page: u16,
    sort_by: SortBy,
    sort_direction: SortDirection,
) -> Option<(Seq<char>, Seq<char>)> {
    match api_key {
        Some(k) => Some((page_url(page, sort_by, sort_direction), k@)),
        None => None,
    }
}

/// The text between `prefix` and `suffix` of `found`, or `FetchApiKey`.
fn strip_between(found: Option<&str>, prefix: &str, suffix: &str) -> (r: Result<String, Error>)
    ensures
        match between(opt_view(found), prefix@, suffix@) {
            Some(t) => r matches Ok(s) && s@ == t,
            None => r matches Err(Error::FetchApiKey),
        },
{
    let Some(m) = found else {
        return Err(Error::FetchApiKey);
    };
    let Some(rest) = strip_prefix(m, prefix) else {
        return Err(Error::FetchApiKey);
    };
    let Some(inner) = strip_suffix(rest, suffix) else {
        return Err(Error::FetchApiKey);
    };
    Ok(owned(inner))
}

/// A request for one page of search results.
pub struct PageRequest {
    /// The address to get.
    pub url: String,
    /// The value of the `API_KEY_HEADER` header.
    pub api_key: String,
}

/// How far the collection of a whole assortment has come.
#[derive(Clone, Copy, Debug)]
pub struct AssortmentFetch {
    /// The page to get next.
    pub page: u16,
    /// The number of products the search reported on its first page.
    pub total_results: Option<usize>,
    pub sort_by: SortBy,
    pub sort_direction: SortDirection,
}

impl AssortmentFetch {
    /// The start of a collection: page 1, nothing known yet.
    pub fn new(sort_by: SortBy, sort_direction: SortDirection) -> (r: AssortmentFetch)
        ensures
            r.page == 1,
            r.total_results is None,
            r.sort_by == sort_by,
            r.sort_direction == sort_direction,
    {
        AssortmentFetch { page: 1, total_results: None, sort_by, sort_direction }
    }

    /// Moves on to the next page.
    pub fn advance(&mut self)
        requires
            old(self).page < u16::MAX,
        ensures
            final(self).page == old(self).page + 1,
            final(self).total_results == old(self).total_results,
            final(self).sort_by == old(self).sort_by,
            final(self).sort_direction == old(self).sort_direction,
    {
        self.page = self.page + 1;
    }
}

impl Systembolaget {
    /// A client with the given parts; an absent client is the default one and
    /// absent products are none.
    pub fn new(
        client: Option<reqwest::Client>,
        api_key: Option<String>,
        products: Option<StringHashMap<Product>>,
    ) -> (r: Systembolaget)
        ensures
            client matches Some(c) ==> r.client == c,
            r.api_key == api_key,
            r.products@ == match products {
                Some(m) => m@,
                None => Map::<Seq<char>, Product>::empty(),
            },
    {
        let client = match client {
            Some(c) => c,
            None => default_client(),
        };
        let products = match products {
            Some(m) => m,
            None => StringHashMap::new(),
        };
        Systembolaget { client, api_key, products }
    }

    /// A client that already has an API key, and no products.
    pub fn with_api_key(api_key: String) -> (r: Systembolaget)
        ensures
            r.api_key == Some(api_key),
            r.products@ == Map::<Seq<char>, Product>::empty(),
    {
        Systembolaget::new(None, Some(api_key), None)
    }

    /// A client without API key holding the products of a page, by product number.
    pub fn from_assortment(assortment: Assortment) -> (r: Systembolaget)
        ensures
            r.api_key is None,
            r.products@ == insert_all(Map::empty(), assortment.products@, |p: Product| number_key(p)),
            forall|i: int| 0 <= i < assortment.products@.len() ==> r.products@.contains_key(
                (#[trigger] assortment.products@[i]).product_number@,
            ),
            forall|k: Seq<char>| #[trigger] r.products@.contains_key(k) ==> exists|i: int|
                0 <= i < assortment.products@.len() && (#[trigger] assortment.products@[i]).product_number@ == k,
            forall|k: Seq<char>| #[trigger] r.products@.contains_key(k) ==> r.products@[k].product_number@ == k,
    {
        let products = assortment.into_product_map();
        Systembolaget::new(None, None, Some(products))
    }

    /// The bundle path from the first match of `APP_BUNDLE_PATTERN` in the home page.
    pub fn script_path_from_match(found: Option<&str>) -> (r: Result<String, Error>)
        ensures
            match script_path(opt_view(found)) {
                Some(path) => r matches Ok(s) && s@ == path,
                None => r matches Err(Error::FetchApiKey),
            },
    {
        strip_between(found, SCRIPT_TAG_PREFIX, QUOTE)
    }

    /// The address of the application bundle named in the shop's home page:
    /// `URL_BASE` followed by the path in the bundle's script tag.
    pub fn api_key_script_url(home: &str) -> (r: Result<String, Error>)
        ensures
            r matches Err(Error::Regex(_)) <==> !regex_compiles(APP_BUNDLE_PATTERN@),
            regex_compiles(APP_BUNDLE_PATTERN@) ==> match script_path(regex_first_match(APP_BUNDLE_PATTERN@, home@)) {
                Some(path) => r matches Ok(u) && u@ == URL_BASE@ + path,
                None => r matches Err(Error::FetchApiKey),
            },
    {
        let pattern = match Pattern::new(APP_BUNDLE_PATTERN) {
            Ok(p) => p,
            Err(e) => return Err(Error::Regex(e)),
        };
        let found = first_match(&pattern, home);
        let path = match &found {
            Some(m) => Systembolaget::script_path_from_match(Some(m.as_str())),
            None => Systembolaget::script_path_from_match(None),
        };
        match path {
            Ok(path) => {
                let mut url = owned(URL_BASE);
                url.append(path.as_str());
                Ok(url)
            },
            Err(e) => Err(e),
        }
    }

    /// The API key from the first match of `API_KEY_PATTERN` in the bundle.
    pub fn api_key_from_match(found: Option<&str>) -> (r: Result<String, Error>)
        ensures
            match api_key_in(opt_view(found)) {
                Some(key) => r matches Ok(s) && s@ == key,
                None => r matches Err(Error::FetchApiKey),
            },
    {
        strip_between(found, API_KEY_PREFIX, QUOTE)
    }

    /// Takes the API key from the application bundle's script and keeps it;
    /// on failure nothing changes.
    pub fn accept_api_key_script(&mut self, script: &str) -> (r: Result<(), Error>)
        ensures
            r matches Err(Error::Regex(_)) <==> !regex_compiles(API_KEY_PATTERN@),
            regex_compiles(API_KEY_PATTERN@) ==> match api_key_in(regex_first_match(API_KEY_PATTERN@, script@)) {
                Some(key) => r is Ok && (final(self).api_key matches Some(k) && k@ == key),
                None => r matches Err(Error::FetchApiKey),
            },
            r is Err ==> final(self).api_key == old(self).api_key,
            final(self).products@ == old(self).products@,
            final(self).client == old(self).client,
    {
        let pattern = match Pattern::new(API_KEY_PATTERN) {
            Ok(p) => p,
            Err(e) => return Err(Error::Regex(e)),
        };
        let found = first_match(&pattern, script);
        let key = match &found {
            Some(m) => Systembolaget::api_key_from_match(Some(m.as_str())),
            None => Systembolaget::api_key_from_match(None),
        };
        match key {
            Ok(key) => {
                self.api_key = Some(key);
                Ok(())
            },
            Err(e) => Err(e),
        }
    }

    /// The request for one page of search results, which needs the API key.
    pub fn page_request(&self, page: u16, sort_by: SortBy, sort_direction: SortDirection) -> (r: Result<PageRequest, Error>)
        ensures
            match r {
                Ok(q) => page_request_result(self.api_key, page, sort_by, sort_direction) == Some((q.url@, q.api_key@)),
                Err(e) => page_request_result(self.api_key, page, sort_by, sort_direction) is None && e is NoApiKey,
            },
            r is Err <==> self.api_key is None,
            r matches Ok(q) ==> q.url@ == API_BASE@ + "/sb-api-ecommerce/v1/productsearch/search?page="@ + decimal(
                page as nat,
            ) + "&size=30&sortBy="@ + sort_by.text() + "&sortDirection="@ + sort_direction.text(),
            r matches Ok(q) ==> self.api_key matches Some(k) && q.api_key@ == k@,
    {
        let Some(key) = &self.api_key else {
            return Err(Error::NoApiKey);
        };
        let mut url = owned(API_BASE);
        url.append("/sb-api-ecommerce/v1/productsearch/search?page=");
        push_decimal(&mut url, page as u64);
        url.append("&size=30&sortBy=");
        let by = sort_by.to_string();
        url.append(by.as_str());
        url.append("&sortDirection=");
        let direction = sort_direction.to_string();
        url.append(direction.as_str());
        Ok(PageRequest { url, api_key: key.clone() })
    }

    /// The request for the page that a collection needs next.
    pub fn next_request(&self, fetch: &AssortmentFetch) -> (r: Result<PageRequest, Error>)
        ensures
            match self.api_key {
                Some(key) => r matches Ok(q) && q.url@ == page_url(fetch.page, fetch.sort_by, fetch.sort_direction)
                    && q.api_key@ == key@,
                None => r matches Err(Error::NoApiKey),
            },
            r matches Ok(q) ==> q.url@ == API_BASE@ + "/sb-api-ecommerce/v1/productsearch/search?page="@ + decimal(
                fetch.page as nat,
            ) + "&size=30&sortBy="@ + fetch.sort_by.text() + "&sortDirection="@ + fetch.sort_direction.text(),
    {
        self.page_request(fetch.page, fetch.sort_by, fetch.sort_direction)
    }

    /// Adds a page of results to the products, each under its bold name, and
    /// says whether more pages are needed: whether fewer products are held
    /// than the search reported on its first page.
    pub fn absorb_page(&mut self, fetch: &mut AssortmentFetch, assortment: Assortment) -> (more: bool)
        ensures
            final(fetch).total_results == Some(
                match old(fetch).total_results {
                    Some(t) => t,
                    None => assortment.metadata.doc_count as usize,
                },
            ),
            final(fetch).page == old(fetch).page,
            final(fetch).sort_by == old(fetch).sort_by,
            final(fetch).sort_direction == old(fetch).sort_direction,
            final(self).products@ == insert_all(old(self).products@, assortment.products@, |p: Product| name_key(p)),
            forall|i: int| 0 <= i < assortment.products@.len() ==> final(self).products@.contains_key(
                (#[trigger] assortment.products@[i]).product_name_bold@,
            ),
            forall|k: Seq<char>| #[trigger] final(self).products@.contains_key(k) ==> old(self).products@.contains_key(k)
                || exists|i: int| 0 <= i < assortment.products@.len() && (#[trigger] assortment.products@[i]).product_name_bold@ == k,
            forall|i: int|
                0 <= i < assortment.products@.len() && (forall|j: int|
                    i < j < assortment.products@.len() ==> (#[trigger] assortment.products@[j]).product_name_bold@
                        != assortment.products@[i].product_name_bold@) ==> final(self).products@[(
                #[trigger] assortment.products@[i]).product_name_bold@] == assortment.products@[i],
            forall|k: Seq<char>|
                #[trigger] old(self).products@.contains_key(k) && (forall|i: int|
                    0 <= i < assortment.products@.len() ==> (#[trigger] assortment.products@[i]).product_name_bold@ != k)
                    ==> final(self).products@.contains_key(k) && final(self).products@[k] == old(self).products@[k],
            more == (final(self).products@.len() < final(fetch).total_results.unwrap()),
            final(self).api_key == old(self).api_key,
            final(self).client == old(self).client,
    {
        let total = match fetch.total_results {
            Some(t) => t,
            None => assortment.metadata.doc_count as usize,
        };
        fetch.total_results = Some(total);
        let ghost before = self.products@;
        let ghost page = assortment.products@;
        crate::systembolaget::extend_by_name(&mut self.products, assortment);
        proof {
            crate::systembolaget::lemma_product_name_map(before, page);
        }
        self.products.len() < total
    }
}

/// The names of the orders are pairwise different.
pub proof fn lemma_sort_by_text_distinct(a: SortBy, b: SortBy)
    ensures
        a.text() == b.text() ==> a == b,
{
    reveal_strlit("Pris");
    reveal_strlit("Namn");
    reveal_strlit("Volym");
    reveal_strlit("Årgång");
    reveal_strlit("Säljstart");
    reveal_strlit("ml/kr");
    reveal_strlit("kr/ml");
    assert("Pris"@.len() == 4);
    assert("Namn"@.len() == 4);
    assert("Volym"@.len() == 5);
    assert("Årgång"@.len() == 6);
    assert("Säljstart"@.len() == 9);
    assert("ml/kr"@.len() == 5);
    assert("kr/ml"@.len() == 5);
    assert("Pris"@[0] != "Namn"@[0]);
    assert("Volym"@[0] != "ml/kr"@[0]);
    assert("Volym"@[0] != "kr/ml"@[0]);
    assert("ml/kr"@[0] != "kr/ml"@[0]);
}

/// The names of the two directions differ.
pub proof fn lemma_sort_direction_text_distinct(a: SortDirection, b: SortDirection)
    ensures
        a.text() == b.text() ==> a == b,
{
    reveal_strlit("Stigande (lägst först)");
    reveal_strlit("Fallande (högst först)");
    assert("Stigande (lägst först)"@[0] != "Fallande (högst först)"@[0]);
}

/// The key that `accept_api_key_script` keeps is the key that every page
/// request carries afterwards, and such a request then always succeeds.
pub proof fn lemma_found_key_is_sent(
    api_key: Option<String>,
    script: Seq<char>,
    page: u16,
    sort_by: SortBy,
    sort_direction: SortDirection,
)
    requires
        regex_compiles(API_KEY_PATTERN@),
        api_key_in(regex_first_match(API_KEY_PATTERN@, script)) is Some,
        api_key matches Some(k) && k@ == api_key_in(regex_first_match(API_KEY_PATTERN@, script)).unwrap(),
    ensures
        page_request_result(api_key, page, sort_by, sort_direction) == Some(
            (page_url(page, sort_by, sort_direction), api_key_in(regex_first_match(API_KEY_PATTERN@, script)).unwrap()),
        ),
{
}

/// Different pages, or the same page in different orders, have different
/// addresses as far as the page number goes: the page number is written in
/// decimal, which no two numbers share.
pub proof fn lemma_page_number_written_once(a: u16, b: u16)
    ensures
        decimal(a as nat) == decimal(b as nat) ==> a == b,
{
    crate::text::lemma_decimal_injective(a as nat, b as nat);
}

/// A page request names the order it asks for: two requests for the same page
/// and direction but different orders have different addresses, so no order
/// is ever sent as another.
pub proof fn lemma_page_url_names_order(page: u16, a: SortBy, b: SortBy, d: SortDirection)
    ensures
        page_url(page, a, d) == page_url(page, b, d) ==> a == b,
{
    if page_url(page, a, d) == page_url(page, b, d) {
        let x = API_BASE@ + "/sb-api-ecommerce/v1/productsearch/search?page="@ + decimal(page as nat) + "&size=30&sortBy="@;
        let tail = "&sortDirection="@ + d.text();
        let ua = x + a.text() + "&sortDirection="@ + d.text();
        let ub = x + b.text() + "&sortDirection="@ + d.text();
        assert(ua =~= x + (a.text() + tail));
        assert(ub =~= x + (b.text() + tail));
        assert(a.text().len() == b.text().len());
        assert(a.text() =~= ua.subrange(x.len() as int, (x.len() + a.text().len()) as int));
        assert(b.text() =~= ub.subrange(x.len() as int, (x.len() + b.text().len()) as int));
        lemma_sort_by_text_distinct(a, b);
    }
}

/// Each order's name, as the API spells it.
pub proof fn lemma_sort_by_names()
    ensures
        SortBy::Price.text() == "Pris"@,
        SortBy::Name.text() == "Namn"@,
        SortBy::Volume.text() == "Volym"@,
        SortBy::Vintage.text() == "Årgång"@,
        SortBy::ProductLaunchDate.text() == "Säljstart"@,
        SortBy::MlPerCrown.text() == "ml/kr"@,
        SortBy::CrownsPerMl.text() == "kr/ml"@,
        SortDirection::Ascending.text() == "Stigande (lägst först)"@,
        SortDirection::Descending.text() == "Fallande (högst först)"@,
{
}

/// The fixed texts the client works with: the shop and API addresses, the key
/// header, the patterns and the delimiters around the bundle path and the key.
pub proof fn lemma_fixed_texts()
    ensures
        URL_BASE@ == "https://systembolaget.se"@,
        API_BASE@ == "https://api-extern.systembolaget.se"@,
        API_KEY_HEADER@ == "ocp-apim-subscription-key"@,
        APP_BUNDLE_PATTERN@ == r#"<script src="([^"]+_app-[^"]+.js)""#@,
        API_KEY_PATTERN@ == r#"NEXT_PUBLIC_API_KEY_APIM:"([^"]+)""#@,
        SCRIPT_TAG_PREFIX@ == "<script src=\""@,
        API_KEY_PREFIX@ == "NEXT_PUBLIC_API_KEY_APIM:\""@,
        QUOTE@ == "\""@,
        crate::pages::PAGE_SIZE == 20,
{
}

} // verus!
