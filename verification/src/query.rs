//! The query builder: from a product identifier and a pagination cursor to
//! the fully-qualified request URL, with the scrape's fixed filter
//! parameters.

use vstd::prelude::*;

verus! {

/// The decimal digit `d` as a character; `d` must be below ten.
pub open spec fn digit_char_seq(d: nat) -> Seq<char> {
    if d == 0 {
        "0"@
    } else if d == 1 {
        "1"@
    } else if d == 2 {
        "2"@
    } else if d == 3 {
        "3"@
    } else if d == 4 {
        "4"@
    } else if d == 5 {
        "5"@
    } else if d == 6 {
        "6"@
    } else if d == 7 {
        "7"@
    } else if d == 8 {
        "8"@
    } else {
        "9"@
    }
}

/// The usual decimal rendering of `n`: no sign, no leading zeros except for
/// zero itself.
pub open spec fn decimal_of(n: nat) -> Seq<char>
    decreases n,
{
    if n < 10 {
        digit_char_seq(n)
    } else {
        decimal_of(n / 10) + digit_char_seq(n % 10)
    }
}

/// The decimal digit `d` as a string slice.
fn digit_str(d: u32) -> (r: &'static str)
    requires
        d < 10,
    ensures
        r@ == digit_char_seq(d as nat),
{
    match d {
        0 => "0",
        1 => "1",
        2 => "2",
        3 => "3",
        4 => "4",
        5 => "5",
        6 => "6",
        7 => "7",
        8 => "8",
        _ => "9",
    }
}

/// Renders `n` in decimal.
pub fn u32_to_decimal(n: u32) -> (s: String)
    ensures
        s@ == decimal_of(n as nat),
    decreases n,
{
    if n < 10 {
        let mut s = String::new();
        s.append(digit_str(n));
        proof {
            assert(Seq::<char>::empty() + digit_char_seq(n as nat) =~= digit_char_seq(n as nat));
        }
        s
    } else {
        let mut s = u32_to_decimal(n / 10);
        s.append(digit_str(n % 10));
        s
    }
}

/// The character sequences of a list of key/value string pairs.
pub open spec fn pairs_view(ps: Seq<(String, String)>) -> Seq<(Seq<char>, Seq<char>)> {
    ps.map_values(|p: (String, String)| (p.0@, p.1@))
}

/// What `form_urlencoded` makes of a list of key/value pairs: each key and
/// value percent-encoded, the two joined by `=`, the pairs joined by `&`.
/// The encoding of a pair list is a fixed function of the characters alone;
/// its full definition (the exact set of escaped bytes) is the encoder's.
pub uninterp spec fn urlencoded_of(pairs: Seq<(Seq<char>, Seq<char>)>) -> Seq<char>;

/// Relies on `url::form_urlencoded::Serializer`: appending each pair in
/// order and finishing yields the standard urlencoded rendering of exactly
/// those pairs, a function of the pair list alone.
#[verifier::external_body]
fn encode_query(pairs: &Vec<(String, String)>) -> (r: String)
    ensures
        r@ == urlencoded_of(pairs_view(pairs@)),
{
    let mut ser = url::form_urlencoded::Serializer::new(String::new());
    for p in pairs.iter() {
        ser.append_pair(&p.0, &p.1);
    }
    ser.finish()
}

/// The fixed query parameters of every page request: the response-format
/// flag, the pagination cursor, the time-window selector, the recency
/// filter, the language and locale, the review- and purchase-type filters,
/// the playtime bounds, and the off-topic-activity filter.
pub open spec fn spec_query_pairs(cursor: Seq<char>) -> Seq<(Seq<char>, Seq<char>)> {
    seq![
        ("json"@, "1"@),
        ("cursor"@, cursor),
        ("day_range"@, "0"@),
        ("start_date"@, "-1"@),
        ("end_date"@, "-1"@),
        ("date_range_type"@, "all"@),
        ("filter"@, "recent"@),
        ("language"@, "english"@),
        ("l"@, "english"@),
        ("review_type"@, "all"@),
        ("purchase_type"@, "all"@),
        ("playtime_filter_min"@, "0"@),
        ("playtime_filter_max"@, "0"@),
        ("filter_offtopic_activity"@, "0"@),
    ]
}

/// The full request URL for one page of one product's reviews.
pub open spec fn spec_url(app_id: u32, cursor: Seq<char>) -> Seq<char> {
    "https://store.steampowered.com/appreviews/"@ + decimal_of(app_id as nat) + "?"@
        + urlencoded_of(spec_query_pairs(cursor))
}

/// Builds the request URL for `app_id` and the current `cursor`:
/// deterministic, the same inputs always give the same URL. The identifier
/// must be positive and the cursor non-empty (`*` requests the first page).
pub fn get_url(app_id: u32, cursor: &String) -> (r: String)
    requires
        app_id >= 1,
        cursor@.len() > 0,
    ensures
        r@ == spec_url(app_id, cursor@),
{
    let mut pairs: Vec<(String, String)> = Vec::new();
    pairs.push((String::from_str("json"), String::from_str("1")));
    pairs.push((String::from_str("cursor"), cursor.clone()));
    pairs.push((String::from_str("day_range"), String::from_str("0")));
    pairs.push((String::from_str("start_date"), String::from_str("-1")));
    pairs.push((String::from_str("end_date"), String::from_str("-1")));
    pairs.push((String::from_str("date_range_type"), String::from_str("all")));
    pairs.push((String::from_str("filter"), String::from_str("recent")));
    pairs.push((String::from_str("language"), String::from_str("english")));
    pairs.push((String::from_str("l"), String::from_str("english")));
    pairs.push((String::from_str("review_type"), String::from_str("all")));
    pairs.push((String::from_str("purchase_type"), String::from_str("all")));
    pairs.push((String::from_str("playtime_filter_min"), String::from_str("0")));
    pairs.push((String::from_str("playtime_filter_max"), String::from_str("0")));
    pairs.push((String::from_str("filter_offtopic_activity"), String::from_str("0")));
    proof {
        assert(pairs_view(pairs@) =~= spec_query_pairs(cursor@));
    }
    let query = encode_query(&pairs);
    let mut url = String::from_str("https://store.steampowered.com/appreviews/");
    let id = u32_to_decimal(app_id);
    url.append(id.as_str());
    url.append("?");
    url.append(query.as_str());
    url
}

} // verus!
