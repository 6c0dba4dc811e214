use systembolaget::error::Error;
use systembolaget::pages::{first_page_range, neighbour_pages, page_range, PAGE_SIZE};
use systembolaget::systembolaget::{
    Assortment, Image, ImageModule, Metadata, Product, ProductAssortment, ProductType, Range, TasteClock,
};
use systembolaget::text::{owned, push_decimal, replace_spaces, text_eq};
use systembolaget::{AssortmentFetch, SortBy, SortDirection, Systembolaget, API_BASE, URL_BASE};

fn product(name: &str, category: &str, number: &str) -> Product {
    Product {
        alcohol_percentage_bits: 12.5f32.to_bits(),
        assortment: "FS".to_string(),
        assortment_text: "Fast sortiment".to_string(),
        bottle_text: "Flaska".to_string(),
        category: None,
        category_level1: category.to_string(),
        category_level2: "Rött vin".to_string(),
        category_level3: None,
        category_level4: None,
        color: None,
        country: "Italien".to_string(),
        custom_category_title: "Rött vin".to_string(),
        dish_points: None,
        ethical_label: None,
        grapes: vec!["Sangiovese".to_string()],
        image_modules: ImageModule { product_id: None, thumbnail: None, sizes: None, extensions: None },
        images: vec![Image { image_url: "https://example.invalid/a.png".to_string(), file_type: None, size: None }],
        is_bs_assortment: false,
        is_climate_smart_packaging: false,
        is_completely_out_of_stock: false,
        is_discontinued: false,
        is_ethical: false,
        is_fs_assortment: true,
        is_fs_ts_assortment: false,
        is_kosher: false,
        is_manufacturing_country: false,
        is_news: false,
        is_organic: false,
        is_pa_assortment: false,
        is_recommended_by_taste_profile: false,
        is_regional_restricted: false,
        is_supplier_temporary_not_available: false,
        is_sustainable_choice: false,
        is_temporary_out_of_stock: false,
        is_ts_assortment: false,
        is_ts_ls_assortment: false,
        is_tse_assortment: false,
        is_tss_assortment: false,
        is_tst_assortment: false,
        is_tsv_assortment: false,
        is_web_launch: false,
        origin_level1: None,
        origin_level2: None,
        other_selections: None,
        packaging_level1: None,
        price_bits: 99.0f32.to_bits(),
        producer_name: None,
        product_id: "1".to_string(),
        product_launch_date: "2020-01-01T00:00:00".to_string(),
        product_name_bold: name.to_string(),
        product_name_thin: None,
        product_number: number.to_string(),
        product_number_short: number.to_string(),
        recycle_fee_bits: 0,
        restricted_parcel_quantity: 0,
        seal: None,
        sell_start_time: "10:00".to_string(),
        sugar_content: 3,
        sugar_content_gram_per100ml_bits: 0,
        supplier_name: None,
        taste: None,
        taste_clock_bitter: 0,
        taste_clock_body: 7,
        taste_clock_casque: 0,
        taste_clock_fruitacid: 8,
        taste_clock_group_bitter: None,
        taste_clock_group_smokiness: None,
        taste_clock_roughness: 6,
        taste_clock_smokiness: 0,
        taste_clock_sweetness: 1,
        taste_clocks: vec![TasteClock { key: "TasteClockBody".to_string(), value: 7 }],
        taste_symbols: vec![],
        usage: None,
        vintage: Some("2019".to_string()),
        volume_bits: 750.0f32.to_bits(),
        volume_text: "750 ml".to_string(),
    }
}

fn range() -> Range {
    Range { min_bits: 0, max_bits: 0 }
}

fn assortment(doc_count: u16, products: Vec<Product>) -> Assortment {
    Assortment {
        metadata: Metadata {
            doc_count,
            full_assortment_doc_count: doc_count,
            next_page: -1,
            previous_page: -1,
            total_pages: 1,
            price_range: range(),
            volume_range: range(),
            alcohol_percentage_range: range(),
            sugar_content_range: range(),
            sugar_content_gram_per_100ml_range: range(),
            did_you_mean_query: None,
        },
        products,
    }
}

const URL: &str = "https://systembolaget.se/produkt/vin/chianti-classico-riserva-123401";

fn link(text: &str, url: &str) -> String {
    format!("\x1b]8;;{url}\x1b\\\x1b[0m{text}\x1b[0m\x1b]8;;\x1b\\")
}

#[test]
fn product_url_lowercases_and_dashes() {
    let p = product("Chianti Classico Riserva", "Vin", "123401");
    assert_eq!(p.url(), URL);
}

#[test]
fn product_url_lowercases_non_ascii() {
    let p = product("Öl Från Åre", "Öl", "7");
    assert_eq!(p.url(), "https://systembolaget.se/produkt/öl/öl-från-åre-7");
}

#[test]
fn link_display_name_links_name() {
    let p = product("Chianti Classico Riserva", "Vin", "123401");
    assert_eq!(p.link_display_name(), link("Chianti Classico Riserva", URL));
}

#[test]
fn link_display_price_formats_price() {
    let p = product("Chianti Classico Riserva", "Vin", "123401");
    assert_eq!(p.link_display_price("99"), link("Chianti Classico Riserva: 99:-", URL));
}

#[test]
fn link_display_volume_formats_volume() {
    let p = product("Chianti Classico Riserva", "Vin", "123401");
    assert_eq!(p.link_display_volume("750"), link("Chianti Classico Riserva: 750 ml", URL));
}

#[test]
fn link_display_vintage_with_and_without_vintage() {
    let mut p = product("Chianti Classico Riserva", "Vin", "123401");
    assert_eq!(p.link_display_vintage(), link("Chianti Classico Riserva, 2019", URL));
    p.vintage = None;
    assert_eq!(p.link_display_vintage(), link("Chianti Classico Riserva, ", URL));
}

#[test]
fn link_display_launch_date() {
    let p = product("Chianti Classico Riserva", "Vin", "123401");
    assert_eq!(
        p.link_display_product_launch_date(),
        link("Chianti Classico Riserva, 2020-01-01T00:00:00", URL)
    );
}

#[test]
fn link_display_ratios() {
    let mut p = product("Chianti Classico Riserva", "Vin", "123401");
    assert_eq!(p.link_display_ml_per_crown("0.947"), link("Chianti Classico Riserva : 0.947 ml/kr", URL));
    p.product_name_thin = Some("Ruffino".to_string());
    assert_eq!(
        p.link_display_ml_per_crown("0.947"),
        link("Chianti Classico Riserva Ruffino: 0.947 ml/kr", URL)
    );
    assert_eq!(p.link_display_crowns_per_ml("1.056"), link("Chianti Classico Riserva: 1.056 kr/ml", URL));
}

#[test]
fn product_assortment_names_round_trip() {
    let all = [
        (ProductAssortment::Fixed, "Fast sortiment"),
        (ProductAssortment::OrderWare, "Ordervaror"),
        (ProductAssortment::Season, "Säsong"),
        (ProductAssortment::Temporary, "Tillfälligt sortiment"),
        (ProductAssortment::Local, "Lokalt & Småskaligt"),
        (ProductAssortment::Web, "Webblanseringar"),
    ];
    for (a, name) in all {
        assert_eq!(a.to_string(), name);
        let back = ProductAssortment::from_text(name).unwrap();
        assert_eq!(back.to_string(), name);
        let parsed: ProductAssortment = name.parse().unwrap();
        assert_eq!(parsed.to_string(), name);
    }
}

#[test]
fn product_assortment_unknown_name_fails() {
    assert!(ProductAssortment::from_text("Fixed").is_none());
    assert!(ProductAssortment::from_text("fast sortiment").is_none());
    assert_eq!("Säsongs".parse::<ProductAssortment>().unwrap_err(), strum::ParseError::VariantNotFound);
}

#[test]
fn product_type_names_round_trip() {
    let all = [
        (ProductType::Wine, "Vin"),
        (ProductType::Beer, "Öl"),
        (ProductType::Spirit, "Sprit"),
        (ProductType::Cider, "Cider & blanddrycker"),
        (ProductType::AlcoholFree, "Alkoholfritt"),
    ];
    for (t, name) in all {
        assert_eq!(t.to_string(), name);
        let parsed: ProductType = name.parse().unwrap();
        assert_eq!(parsed.to_string(), name);
    }
    assert!(ProductType::from_text("Wine").is_none());
    assert!("".parse::<ProductType>().is_err());
}

#[test]
fn sort_names() {
    assert_eq!(SortBy::Price.to_string(), "Pris");
    assert_eq!(SortBy::Name.to_string(), "Namn");
    assert_eq!(SortBy::Volume.to_string(), "Volym");
    assert_eq!(SortBy::Vintage.to_string(), "Årgång");
    assert_eq!(SortBy::ProductLaunchDate.to_string(), "Säljstart");
    assert_eq!(SortBy::MlPerCrown.to_string(), "ml/kr");
    assert_eq!(SortBy::CrownsPerMl.to_string(), "kr/ml");
    assert_eq!(SortDirection::Ascending.to_string(), "Stigande (lägst först)");
    assert_eq!(SortDirection::Descending.to_string(), "Fallande (högst först)");
    assert!(SortDirection::Ascending < SortDirection::Descending);
    assert!(SortDirection::Ascending == SortDirection::Ascending);
}

#[test]
fn page_request_needs_api_key() {
    let sb = Systembolaget::new(None, None, None);
    assert!(matches!(sb.page_request(1, SortBy::Price, SortDirection::Ascending), Err(Error::NoApiKey)));
}

#[test]
fn page_request_builds_url_and_key() {
    let sb = Systembolaget::with_api_key("abc123".to_string());
    let q = sb.page_request(12, SortBy::Name, SortDirection::Descending).unwrap();
    assert_eq!(
        q.url,
        format!(
            "{API_BASE}/sb-api-ecommerce/v1/productsearch/search?page=12&size=30&sortBy=Namn&sortDirection=Fallande (högst först)"
        )
    );
    assert_eq!(q.api_key, "abc123");
    let q = sb.page_request(0, SortBy::Price, SortDirection::Ascending).unwrap();
    assert!(q.url.contains("?page=0&size=30&sortBy=Pris&sortDirection=Stigande (lägst först)"));
    let q = sb.page_request(u16::MAX, SortBy::Price, SortDirection::Ascending).unwrap();
    assert!(q.url.contains("?page=65535&"));
}

#[test]
fn api_key_script_url_from_home_page() {
    let home = r#"<html><script src="/_next/static/chunks/main.js"></script><script src="/_next/static/chunks/pages/_app-0f1e2d.js" defer=""></script></html>"#;
    let url = Systembolaget::api_key_script_url(home).unwrap();
    assert_eq!(url, format!("{URL_BASE}/_next/static/chunks/pages/_app-0f1e2d.js"));
}

#[test]
fn api_key_script_url_without_bundle_fails() {
    let home = r#"<html><script src="/main.js"></script></html>"#;
    assert!(matches!(Systembolaget::api_key_script_url(home), Err(Error::FetchApiKey)));
}

#[test]
fn accept_api_key_script_keeps_key() {
    let mut sb = Systembolaget::new(None, None, None);
    let script = r#"var a={NEXT_PUBLIC_API_KEY_APIM:"cfc702aed3094c86b92d6d4ff7a54c84",NEXT_PUBLIC_X:"y"};"#;
    sb.accept_api_key_script(script).unwrap();
    assert_eq!(sb.api_key.as_deref(), Some("cfc702aed3094c86b92d6d4ff7a54c84"));
    let q = sb.page_request(1, SortBy::Price, SortDirection::Ascending).unwrap();
    assert_eq!(q.api_key, "cfc702aed3094c86b92d6d4ff7a54c84");
}

#[test]
fn accept_api_key_script_without_key_changes_nothing() {
    let mut sb = Systembolaget::with_api_key("old".to_string());
    assert!(matches!(sb.accept_api_key_script("var a={};"), Err(Error::FetchApiKey)));
    assert_eq!(sb.api_key.as_deref(), Some("old"));
}

#[test]
fn strip_from_matches() {
    assert_eq!(
        Systembolaget::script_path_from_match(Some("<script src=\"/x_app-1.js\"")).unwrap(),
        "/x_app-1.js"
    );
    assert!(matches!(Systembolaget::script_path_from_match(None), Err(Error::FetchApiKey)));
    assert!(matches!(Systembolaget::script_path_from_match(Some("/x_app-1.js\"")), Err(Error::FetchApiKey)));
    assert!(matches!(Systembolaget::script_path_from_match(Some("<script src=\"/x_app-1.js")), Err(Error::FetchApiKey)));
    assert_eq!(Systembolaget::api_key_from_match(Some("NEXT_PUBLIC_API_KEY_APIM:\"k\"")).unwrap(), "k");
    assert!(matches!(Systembolaget::api_key_from_match(Some("k\"")), Err(Error::FetchApiKey)));
}

#[test]
fn name_pairs_keep_order() {
    let a = assortment(3, vec![product("A", "Vin", "1"), product("B", "Öl", "2"), product("A", "Sprit", "3")]);
    let pairs = a.clone().into_name_pairs();
    let keys: Vec<&str> = pairs.iter().map(|(k, _)| k.as_str()).collect();
    assert_eq!(keys, vec!["A", "B", "A"]);
    assert_eq!(pairs[2].1.product_number, "3");
    let pairs = a.into_number_pairs();
    let keys: Vec<&str> = pairs.iter().map(|(k, _)| k.as_str()).collect();
    assert_eq!(keys, vec!["1", "2", "3"]);
    assert_eq!(pairs[1].1.product_name_bold, "B");
}

#[test]
fn product_map_keeps_last_of_each_number() {
    let a = assortment(3, vec![product("A", "Vin", "1"), product("B", "Öl", "2"), product("C", "Sprit", "1")]);
    let sb = Systembolaget::from_assortment(a);
    assert!(sb.api_key.is_none());
    assert_eq!(sb.products.len(), 2);
    assert_eq!(sb.products.get("1").unwrap().product_name_bold, "C");
    assert_eq!(sb.products.get("2").unwrap().product_name_bold, "B");
    assert!(sb.products.get("3").is_none());
}

#[test]
fn absorbing_pages_until_total_reached() {
    let mut sb = Systembolaget::with_api_key("k".to_string());
    let mut fetch = AssortmentFetch::new(SortBy::Price, SortDirection::Ascending);
    assert_eq!(fetch.page, 1);
    let q = sb.next_request(&fetch).unwrap();
    assert!(q.url.contains("?page=1&"));
    let more = sb.absorb_page(&mut fetch, assortment(3, vec![product("A", "Vin", "1"), product("B", "Vin", "2")]));
    assert!(more);
    assert_eq!(fetch.total_results, Some(3));
    fetch.advance();
    assert_eq!(fetch.page, 2);
    assert!(sb.next_request(&fetch).unwrap().url.contains("?page=2&"));
    // the total is taken from the first page only
    let more = sb.absorb_page(&mut fetch, assortment(9, vec![product("C", "Vin", "3")]));
    assert!(!more);
    assert_eq!(fetch.total_results, Some(3));
    assert_eq!(sb.products.len(), 3);
    assert_eq!(sb.products.get("C").unwrap().product_number, "3");
}

#[test]
fn absorbing_duplicate_names_counts_them_once() {
    let mut sb = Systembolaget::with_api_key("k".to_string());
    let mut fetch = AssortmentFetch::new(SortBy::Name, SortDirection::Descending);
    let more = sb.absorb_page(&mut fetch, assortment(2, vec![product("A", "Vin", "1"), product("A", "Vin", "2")]));
    assert!(more);
    assert_eq!(sb.products.len(), 1);
    assert_eq!(sb.products.get("A").unwrap().product_number, "2");
}

#[test]
fn first_page_needs_a_full_page() {
    assert_eq!(first_page_range(25), Some((0, 20)));
    assert_eq!(first_page_range(20), Some((0, 20)));
    assert_eq!(first_page_range(19), None);
    assert_eq!(first_page_range(0), None);
}

#[test]
fn numbered_pages() {
    assert_eq!(PAGE_SIZE, 20);
    assert_eq!(page_range(1, 45), Some((0, 20)));
    assert_eq!(page_range(2, 45), Some((20, 40)));
    assert_eq!(page_range(3, 45), None);
    assert_eq!(page_range(3, 60), Some((40, 60)));
    assert_eq!(page_range(0, 45), Some((0, 1)));
    assert_eq!(page_range(0, 0), None);
    assert_eq!(page_range(usize::MAX, 45), None);
}

#[test]
fn neighbours_wrap() {
    assert_eq!(neighbour_pages(5), (4, 6));
    assert_eq!(neighbour_pages(0), (usize::MAX, 1));
    assert_eq!(neighbour_pages(usize::MAX), (usize::MAX - 1, 0));
}

#[test]
fn text_helpers() {
    let mut s = owned("page=");
    push_decimal(&mut s, 0);
    assert_eq!(s, "page=0");
    let mut s = String::new();
    push_decimal(&mut s, 1234567890);
    assert_eq!(s, "1234567890");
    assert_eq!(replace_spaces("a b  c"), "a-b--c");
    assert_eq!(replace_spaces("åäö ÅÄÖ"), "åäö-ÅÄÖ");
    assert!(text_eq("Säsong", "Säsong"));
    assert!(!text_eq("Säsong", "Sasong"));
    assert!(!text_eq("Säsong", "Säsongs"));
}

#[test]
fn new_keeps_given_parts() {
    let from = Systembolaget::from_assortment(assortment(1, vec![product("X", "Vin", "9")]));
    let sb = Systembolaget::new(Some(reqwest::Client::new()), Some("key".to_string()), Some(from.products));
    assert_eq!(sb.api_key.as_deref(), Some("key"));
    assert_eq!(sb.products.len(), 1);
    assert!(sb.products.contains_key("9"));
}
