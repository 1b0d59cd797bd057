//! Decoding one fetched response body into a [`ReviewPage`]: UTF-8
//! decoding and JSON parsing through outside code, then a verified
//! extraction of the page's fields from the parsed document.

use vstd::prelude::*;
use vstd::std_specs::iter::IteratorSpec;

use crate::engine::ScrapeError;
use crate::options::{is_digit, is_digit_char};
use crate::page::{PageModel, Review, ReviewModel, ReviewPage, reviews_view};

verus! {

/// A parsed JSON document as plain values: what the extraction logic reads.
/// Numbers carry their value as an unsigned integer where they are unsigned
/// and integral (this API's numbers are status flags and epoch seconds);
/// object members keep the order the document gave them.
#[derive(Debug)]
pub enum JsonNode {
    Null,
    Bool(bool),
    Num(Option<u64>),
    Str(String),
    Array(Vec<JsonNode>),
    Object(Vec<(String, JsonNode)>),
}

#[verifier::external_type_specification]
#[verifier::external_body]
pub struct ExJsonValue(json::JsonValue);

/// Relies on `json::JsonValue`: rebuilds the parsed document as a
/// [`JsonNode`], variant by variant; a number keeps its value where
/// `u64::try_from` gives one (it rejects negative, fractional and oversized
/// numbers). Nothing is assumed of the result.
#[verifier::external_body]
fn value_to_node(v: json::JsonValue) -> JsonNode {
    match v {
        json::JsonValue::Null => JsonNode::Null,
        json::JsonValue::Boolean(b) => JsonNode::Bool(b),
        json::JsonValue::Number(n) => JsonNode::Num(u64::try_from(n).ok()),
        json::JsonValue::Short(s) => JsonNode::Str(s.as_str().to_owned()),
        json::JsonValue::String(s) => JsonNode::Str(s),
        json::JsonValue::Array(xs) => JsonNode::Array(
            xs.into_iter().map(value_to_node).collect(),
        ),
        json::JsonValue::Object(o) => JsonNode::Object(
            o.iter().map(|(k, w)| (k.to_owned(), value_to_node(w.clone()))).collect(),
        ),
    }
}

/// The longest run of decimal digits the JSON parser is handed: far above
/// anything this API returns, and far below the run length at which the
/// parser's own fraction reader could overflow its 16-bit exponent.
pub const MAX_DIGIT_RUN: usize = 10000;

/// `n` characters of `s` from `at` on are all decimal digits.
pub open spec fn digit_run_at(s: Seq<char>, at: int, n: int) -> bool {
    0 <= at && at + n <= s.len() && forall|k: int| at <= k < at + n ==> is_digit_char(s[k])
}

/// No `n` consecutive characters of `s` are all decimal digits.
pub open spec fn digit_runs_below(s: Seq<char>, n: int) -> bool {
    forall|at: int| !digit_run_at(s, at, n)
}

/// What the JSON parser makes of a text: the document as a [`JsonNode`], or
/// nothing when the text is not syntactically valid JSON. A fixed function
/// of the characters alone.
pub uninterp spec fn json_doc_of(s: Seq<char>) -> Option<JsonNode>;

/// Relies on `json::parse`: parsing is deterministic in the text, succeeds
/// exactly on syntactically valid JSON, and the parsed document is handed
/// back through [`value_to_node`]. The parser counts a number's fraction
/// digits in a 16-bit exponent, which an extreme digit run can overflow; a
/// text with one is kept out, so that the call cannot abort.
#[verifier::external_body]
fn parse_json(s: &str) -> (r: Option<JsonNode>)
    requires
        digit_runs_below(s@, MAX_DIGIT_RUN as int),
    ensures
        r == json_doc_of(s@),
{
    match json::parse(s) {
        Ok(v) => Some(value_to_node(v)),
        Err(_) => None,
    }
}

/// Whether `s` holds [`MAX_DIGIT_RUN`] consecutive decimal digits anywhere.
fn has_long_digit_run(s: &str) -> (b: bool)
    ensures
        b == !digit_runs_below(s@, MAX_DIGIT_RUN as int),
{
    let mut it = s.chars();
    let mut run: usize = 0;
    let ghost mut i: int = 0;
    proof {
        assert(s@.skip(0) =~= s@);
    }
    loop
        invariant
            0 <= i <= s@.len(),
            it.remaining() == s@.skip(i),
            run <= i,
            run < MAX_DIGIT_RUN,
            forall|k: int| i - run <= k < i ==> is_digit_char(s@[k]),
            i - run == 0 || !is_digit_char(s@[i - run - 1]),
            forall|at: int| at + MAX_DIGIT_RUN <= i ==> !digit_run_at(
                s@,
                at,
                MAX_DIGIT_RUN as int,
            ),
        decreases s@.len() - i,
    {
        match it.next() {
            None => {
                proof {
                    assert(i == s@.len());
                    assert forall|at: int| !digit_run_at(s@, at, MAX_DIGIT_RUN as int) by {
                        if 0 <= at && at + MAX_DIGIT_RUN <= s@.len() {
                            assert(at + MAX_DIGIT_RUN <= i);
                        }
                    }
                }
                return false;
            },
            Some(c) => {
                proof {
                    assert(c == s@[i]);
                    assert(s@.skip(i).drop_first() =~= s@.skip(i + 1));
                }
                if is_digit(c) {
                    run = run + 1;
                    if run == MAX_DIGIT_RUN {
                        proof {
                            assert(digit_run_at(
                                s@,
                                i + 1 - MAX_DIGIT_RUN,
                                MAX_DIGIT_RUN as int,
                            ));
                        }
                        return true;
                    }
                } else {
                    run = 0;
                }
                proof {
                    i = i + 1;
                    assert forall|at: int| at + MAX_DIGIT_RUN <= i implies !digit_run_at(
                        s@,
                        at,
                        MAX_DIGIT_RUN as int,
                    ) by {
                        if at + MAX_DIGIT_RUN == i && 0 <= at {
                            if !is_digit_char(s@[i - 1]) {
                                assert(!digit_run_at(s@, at, MAX_DIGIT_RUN as int));
                            } else {
                                let b = i - run - 1;
                                assert(at <= b < i);
                                assert(!is_digit_char(s@[b]));
                            }
                        }
                    }
                }
            },
        }
    }
}

/// What UTF-8 decoding makes of a byte sequence: its characters, or nothing
/// when the bytes are not valid UTF-8; a fixed function of the bytes alone.
pub uninterp spec fn utf8_decoding(bytes: Seq<u8>) -> Option<Seq<char>>;

/// Relies on `String::from_utf8`: decoding succeeds exactly on valid UTF-8
/// and depends on the bytes alone.
#[verifier::external_body]
fn decode_utf8(bytes: Vec<u8>) -> (r: Option<String>)
    ensures
        r matches Some(s) ==> utf8_decoding(bytes@) == Some(s@),
        r is None ==> utf8_decoding(bytes@) is None,
{
    String::from_utf8(bytes).ok()
}

/// The first member of `fields` named `key`, if any.
pub open spec fn spec_lookup(fields: Seq<(String, JsonNode)>, key: Seq<char>) -> Option<JsonNode>
    decreases fields.len(),
{
    if fields.len() == 0 {
        None
    } else if fields[0].0@ == key {
        Some(fields[0].1)
    } else {
        spec_lookup(fields.skip(1), key)
    }
}

/// The member `key` of `node`, when `node` is an object that has it.
pub open spec fn spec_field(node: JsonNode, key: Seq<char>) -> Option<JsonNode> {
    match node {
        JsonNode::Object(fields) => spec_lookup(fields@, key),
        _ => None,
    }
}

/// The numeric status flag of a response document; a missing or non-numeric
/// flag counts as zero, which the engine treats as failure.
pub open spec fn spec_success_flag(node: JsonNode) -> u64 {
    match spec_field(node, "success"@) {
        Some(JsonNode::Num(Some(n))) => n,
        _ => 0,
    }
}

/// One element of the `reviews` array as a review: the string member
/// `recommendationid`, the numeric member `timestamp_created`, and the
/// string member `review`; a missing or differently-typed member reads as
/// empty or zero.
pub open spec fn spec_review_of(elem: JsonNode) -> ReviewModel {
    ReviewModel {
        id: match spec_field(elem, "recommendationid"@) {
            Some(JsonNode::Str(s)) => s@,
            _ => Seq::empty(),
        },
        created_at: match spec_field(elem, "timestamp_created"@) {
            Some(JsonNode::Num(Some(n))) => n,
            _ => 0,
        },
        text: match spec_field(elem, "review"@) {
            Some(JsonNode::Str(s)) => s@,
            _ => Seq::empty(),
        },
    }
}

/// The page a response document describes: its status flag, the elements of
/// its `reviews` array in order (none when the member is missing or not an
/// array), and its continuation cursor (present exactly when the `cursor`
/// member is a string, as an absent cursor ends the scrape).
pub open spec fn spec_extract_page(node: JsonNode) -> PageModel {
    PageModel {
        success: spec_success_flag(node),
        reviews: match spec_field(node, "reviews"@) {
            Some(JsonNode::Array(elems)) => elems@.map_values(|e: JsonNode| spec_review_of(e)),
            _ => Seq::empty(),
        },
        cursor: match spec_field(node, "cursor"@) {
            Some(JsonNode::Str(s)) => Some(s@),
            _ => None,
        },
    }
}

/// The member `key` of `node`, when `node` is an object that has it.
fn field_of<'a>(node: &'a JsonNode, key: &String) -> (r: Option<&'a JsonNode>)
    ensures
        match r {
            Some(v) => spec_field(*node, key@) == Some(*v),
            None => spec_field(*node, key@) is None,
        },
{
    match node {
        JsonNode::Object(fields) => {
            let n = fields.len();
            let mut i: usize = 0;
            proof {
                assert(fields@.skip(0) =~= fields@);
            }
            while i < n
                invariant
                    *node == JsonNode::Object(*fields),
                    n == fields@.len(),
                    i <= n,
                    spec_lookup(fields@, key@) == spec_lookup(fields@.skip(i as int), key@),
                decreases n - i,
            {
                proof {
                    assert(fields@.skip(i as int)[0] == fields@[i as int]);
                    assert(fields@.skip(i as int).skip(1) =~= fields@.skip(i + 1));
                }
                if fields[i].0 == *key {
                    proof {
                        assert(spec_lookup(fields@.skip(i as int), key@) == Some(
                            fields@[i as int].1,
                        ));
                    }
                    return Some(&fields[i].1);
                }
                i += 1;
            }
            proof {
                assert(fields@.skip(n as int) =~= Seq::<(String, JsonNode)>::empty());
            }
            None
        },
        _ => None,
    }
}

/// Reads one element of the `reviews` array as a review.
fn extract_review(elem: &JsonNode) -> (r: Review)
    ensures
        r@ == spec_review_of(*elem),
{
    let id = match field_of(elem, &String::from_str("recommendationid")) {
        Some(JsonNode::Str(s)) => s.clone(),
        _ => String::new(),
    };
    let created_at = match field_of(elem, &String::from_str("timestamp_created")) {
        Some(JsonNode::Num(Some(n))) => *n,
        _ => 0,
    };
    let text = match field_of(elem, &String::from_str("review")) {
        Some(JsonNode::Str(s)) => s.clone(),
        _ => String::new(),
    };
    Review { id, created_at, text }
}

/// Reads the page a parsed response document describes.
pub fn extract_page(node: &JsonNode) -> (p: ReviewPage)
    ensures
        p@ == spec_extract_page(*node),
{
    let success = match field_of(node, &String::from_str("success")) {
        Some(JsonNode::Num(Some(n))) => *n,
        _ => 0,
    };
    let reviews = match field_of(node, &String::from_str("reviews")) {
        Some(JsonNode::Array(elems)) => {
            let n = elems.len();
            let mut out: Vec<Review> = Vec::new();
            let mut i: usize = 0;
            while i < n
                invariant
                    n == elems@.len(),
                    i <= n,
                    out@.len() == i,
                    forall|k: int| 0 <= k < i ==> out@[k]@ == spec_review_of(elems@[k]),
                decreases n - i,
            {
                out.push(extract_review(&elems[i]));
                i += 1;
            }
            proof {
                assert(reviews_view(out@) =~= elems@.map_values(|e: JsonNode| spec_review_of(e)));
            }
            out
        },
        _ => Vec::new(),
    };
    let cursor = match field_of(node, &String::from_str("cursor")) {
        Some(JsonNode::Str(s)) => Some(s.clone()),
        _ => None,
    };
    proof {
        assert(reviews_view(Seq::<Review>::empty()) =~= Seq::<ReviewModel>::empty());
    }
    ReviewPage { success, reviews, cursor }
}

/// Decodes one response body: the bytes must be valid UTF-8 and parse as
/// JSON, and the page is then exactly what [`extract_page`] reads from the
/// parsed document. An undecodable body gives `EncodingError`; an
/// unparseable one gives `MalformedResponseError`, as does a body with an
/// extreme digit run, which is kept away from the parser (see
/// [`parse_json`]) — no such body is a page of this API.
pub fn parse_page(body: Vec<u8>) -> (r: Result<ReviewPage, ScrapeError>)
    ensures
        utf8_decoding(body@) is None ==> r == Err::<ReviewPage, ScrapeError>(
            ScrapeError::EncodingError,
        ),
        (utf8_decoding(body@) matches Some(s) && !digit_runs_below(
            s,
            MAX_DIGIT_RUN as int,
        )) ==> r == Err::<ReviewPage, ScrapeError>(ScrapeError::MalformedResponseError),
        (utf8_decoding(body@) matches Some(s) && digit_runs_below(s, MAX_DIGIT_RUN as int)
            && json_doc_of(s) is None) ==> r == Err::<ReviewPage, ScrapeError>(
            ScrapeError::MalformedResponseError,
        ),
        utf8_decoding(body@) matches Some(s) ==> (digit_runs_below(s, MAX_DIGIT_RUN as int)
            ==> (json_doc_of(s) matches Some(n) ==> (r matches Ok(p) && p@ == spec_extract_page(
            n,
        )))),
{
    let text = match decode_utf8(body) {
        Some(t) => t,
        None => {
            return Err(ScrapeError::EncodingError);
        },
    };
    if has_long_digit_run(text.as_str()) {
        return Err(ScrapeError::MalformedResponseError);
    }
    let node = match parse_json(text.as_str()) {
        Some(n) => n,
        None => {
            return Err(ScrapeError::MalformedResponseError);
        },
    };
    Ok(extract_page(&node))
}

} // verus!
