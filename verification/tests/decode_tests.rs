use review_scraper::engine::ScrapeError;
use review_scraper::fetch::{JsonNode, extract_page, parse_page};
use review_scraper::render::review_block;

#[test]
fn full_response_body_parses_into_a_page() {
    let body = br#"{"success":1,"reviews":[{"recommendationid":"123","timestamp_created":500,"review":"Great game\nLoved it"},{"recommendationid":"456","timestamp_created":600,"review":"Meh"}],"cursor":"XYZ"}"#.to_vec();
    let page = parse_page(body).expect("body should parse");
    assert_eq!(page.success, 1);
    assert_eq!(page.reviews.len(), 2);
    assert_eq!(page.reviews[0].id, "123");
    assert_eq!(page.reviews[0].created_at, 500);
    assert_eq!(page.reviews[0].text, "Great game\nLoved it");
    assert_eq!(page.reviews[1].id, "456");
    assert_eq!(page.cursor.as_deref(), Some("XYZ"));
}

#[test]
fn invalid_utf8_is_an_encoding_error() {
    let body = vec![0xff, 0xfe, 0x20];
    assert_eq!(parse_page(body).unwrap_err(), ScrapeError::EncodingError);
}

#[test]
fn invalid_json_is_a_malformed_response() {
    let body = b"{not json at all".to_vec();
    assert_eq!(parse_page(body).unwrap_err(), ScrapeError::MalformedResponseError);
}

#[test]
fn extreme_digit_run_is_rejected_before_the_parser_sees_it() {
    // A number with tens of thousands of fraction digits is valid JSON but
    // pathological; the decoder answers MalformedResponseError instead of
    // handing it to the parser.
    let mut body = br#"{"success":1,"reviews":[],"x":0."#.to_vec();
    body.extend(std::iter::repeat(b'0').take(40000));
    body.extend(b"}");
    assert_eq!(parse_page(body).unwrap_err(), ScrapeError::MalformedResponseError);
}

#[test]
fn ordinary_fraction_numbers_pass_the_digit_run_check() {
    let body = br#"{"success":1,"reviews":[],"cursor":"A","weighted_vote_score":0.52}"#.to_vec();
    let page = parse_page(body).expect("a modest fraction is fine");
    assert_eq!(page.success, 1);
    assert_eq!(page.cursor.as_deref(), Some("A"));
}

#[test]
fn missing_members_read_as_failure_flag_and_no_data() {
    let page = parse_page(b"{}".to_vec()).expect("an empty object is valid JSON");
    assert_eq!(page.success, 0);
    assert!(page.reviews.is_empty());
    assert_eq!(page.cursor, None);
}

#[test]
fn non_numeric_flag_and_non_string_cursor_read_as_absent() {
    let page = parse_page(br#"{"success":"1","reviews":[],"cursor":7}"#.to_vec()).unwrap();
    assert_eq!(page.success, 0);
    assert_eq!(page.cursor, None);
}

#[test]
fn negative_number_has_no_unsigned_value() {
    let page = parse_page(br#"{"success":-1}"#.to_vec()).unwrap();
    assert_eq!(page.success, 0);
}

#[test]
fn review_fields_round_trip_from_body_to_output_block() {
    let body = br#"{"success":1,"reviews":[{"recommendationid":"77","timestamp_created":1,"review":"line one\nline two"}],"cursor":null}"#.to_vec();
    let page = parse_page(body).unwrap();
    let block = review_block(&page.reviews[0]);
    assert_eq!(block, "Review 77:\nline one\nline two\n\n");
}

#[test]
fn extract_page_reads_a_hand_built_document() {
    let node = JsonNode::Object(vec![
        ("success".to_string(), JsonNode::Num(Some(1))),
        (
            "reviews".to_string(),
            JsonNode::Array(vec![JsonNode::Object(vec![
                ("recommendationid".to_string(), JsonNode::Str("9".to_string())),
                ("timestamp_created".to_string(), JsonNode::Num(Some(4))),
                ("review".to_string(), JsonNode::Str("ok".to_string())),
            ])]),
        ),
        ("cursor".to_string(), JsonNode::Str("C2".to_string())),
    ]);
    let page = extract_page(&node);
    assert_eq!(page.success, 1);
    assert_eq!(page.reviews.len(), 1);
    assert_eq!(page.reviews[0].id, "9");
    assert_eq!(page.reviews[0].created_at, 4);
    assert_eq!(page.reviews[0].text, "ok");
    assert_eq!(page.cursor.as_deref(), Some("C2"));
}

#[test]
fn review_with_missing_members_reads_as_empty() {
    let body = br#"{"success":1,"reviews":[{}],"cursor":"A"}"#.to_vec();
    let page = parse_page(body).unwrap();
    assert_eq!(page.reviews[0].id, "");
    assert_eq!(page.reviews[0].created_at, 0);
    assert_eq!(page.reviews[0].text, "");
}
