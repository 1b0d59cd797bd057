use review_scraper::options::{extract_app_ids, parse_u32, trim};
use review_scraper::query::{get_url, u32_to_decimal};
use review_scraper::render::{header_line, review_block};
use review_scraper::report::{ScrapeResult, all_ids_reported, total_reviews};
use review_scraper::page::Review;

#[test]
fn url_for_the_first_page_carries_every_fixed_parameter() {
    let url = get_url(440, &"*".to_string());
    assert_eq!(
        url,
        "https://store.steampowered.com/appreviews/440?json=1&cursor=*&day_range=0&start_date=-1&end_date=-1&date_range_type=all&filter=recent&language=english&l=english&review_type=all&purchase_type=all&playtime_filter_min=0&playtime_filter_max=0&filter_offtopic_activity=0"
    );
}

#[test]
fn cursor_is_percent_encoded_into_the_url() {
    let url = get_url(10, &"AoJ4+test==".to_string());
    assert!(url.contains("cursor=AoJ4%2Btest%3D%3D"));
    assert!(url.starts_with("https://store.steampowered.com/appreviews/10?json=1&cursor=AoJ4%2Btest%3D%3D&"));
}

#[test]
fn decimal_rendering_is_exact() {
    assert_eq!(u32_to_decimal(0), "0");
    assert_eq!(u32_to_decimal(7), "7");
    assert_eq!(u32_to_decimal(440), "440");
    assert_eq!(u32_to_decimal(4294967295), "4294967295");
}

#[test]
fn header_and_block_formats_are_exact() {
    assert_eq!(header_line(570), "[Reviews for 570]\n\n");
    let r = Review { id: "42".to_string(), created_at: 3, text: "hello".to_string() };
    assert_eq!(review_block(&r), "Review 42:\nhello\n\n");
}

#[test]
fn parse_u32_accepts_decimal_numbers_that_fit() {
    assert_eq!(parse_u32("440"), Some(440));
    assert_eq!(parse_u32("+7"), Some(7));
    assert_eq!(parse_u32("007"), Some(7));
    assert_eq!(parse_u32("0"), Some(0));
    assert_eq!(parse_u32("4294967295"), Some(4294967295));
}

#[test]
fn parse_u32_rejects_everything_else() {
    assert_eq!(parse_u32(""), None);
    assert_eq!(parse_u32("+"), None);
    assert_eq!(parse_u32("abc"), None);
    assert_eq!(parse_u32("12a"), None);
    assert_eq!(parse_u32("-1"), None);
    assert_eq!(parse_u32("4294967296"), None);
    assert_eq!(parse_u32("99999999999999999999"), None);
}

#[test]
fn trim_strips_surrounding_whitespace_only() {
    assert_eq!(trim("  440\t"), "440");
    assert_eq!(trim("x y"), "x y");
    assert_eq!(trim(""), "");
    assert_eq!(trim(" \n \r "), "");
    assert_eq!(trim("\u{3000}a\u{2028}"), "a");
}

#[test]
fn app_ids_come_from_every_argument_after_the_program_name() {
    let args = vec!["prog".to_string(), "440".to_string(), " 570 \n".to_string()];
    assert_eq!(extract_app_ids(&args), vec![440, 570]);
}

#[test]
fn totals_add_up_per_product() {
    assert_eq!(total_reviews(&Vec::new()), 0);
    let results = vec![
        ScrapeResult { app_id: 1, reviews_scraped: 5 },
        ScrapeResult { app_id: 2, reviews_scraped: 7 },
    ];
    assert_eq!(total_reviews(&results), 12);
}

#[test]
fn missing_results_are_detected() {
    let results = vec![ScrapeResult { app_id: 1, reviews_scraped: 5 }];
    assert!(all_ids_reported(&vec![1], &results));
    assert!(all_ids_reported(&Vec::new(), &results));
    assert!(!all_ids_reported(&vec![1, 2], &results));
}
