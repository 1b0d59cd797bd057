use review_scraper::engine::{
    PaginationState, ScrapeConfig, StepOutcome, ScrapeError, ScrapeRun, Termination, run_pages,
    writes_page,
};
use review_scraper::page::{Review, ReviewPage};

fn review(id: &str, created_at: u64, text: &str) -> Review {
    Review { id: id.to_string(), created_at, text: text.to_string() }
}

fn page_of(success: u64, count: usize, created_at: u64, cursor: Option<&str>) -> ReviewPage {
    let mut reviews = Vec::new();
    for k in 0..count {
        reviews.push(review(&format!("id{k}"), created_at, &format!("text {k}")));
    }
    ReviewPage { success, reviews, cursor: cursor.map(|c| c.to_string()) }
}

fn cfg(window_bound: u64) -> ScrapeConfig {
    ScrapeConfig { window_bound }
}

#[test]
fn three_pages_end_with_empty_page() {
    let pages = vec![
        page_of(1, 10, 50, Some("A")),
        page_of(1, 5, 50, Some("B")),
        page_of(1, 0, 50, None),
    ];
    let run: ScrapeRun = run_pages(&pages, &cfg(100));
    assert_eq!(run.outcome, Some(Termination::CompletedEmpty));
    assert_eq!(run.state.reviews_scraped, 15);
    assert_eq!(run.written.len(), 15);
}

#[test]
fn unsuccessful_page_fails_without_writing() {
    let pages = vec![page_of(0, 4, 50, Some("A"))];
    let run = run_pages(&pages, &cfg(100));
    assert_eq!(
        run.outcome,
        Some(Termination::Failed(ScrapeError::UnsuccessfulResponse))
    );
    assert_eq!(run.state.reviews_scraped, 0);
    assert!(run.written.is_empty());
}

#[test]
fn review_beyond_window_fails_without_writing() {
    let mut page = page_of(1, 3, 50, Some("A"));
    page.reviews[1].created_at = 200;
    let run = run_pages(&vec![page], &cfg(100));
    assert_eq!(
        run.outcome,
        Some(Termination::Failed(ScrapeError::TimeWindowViolation))
    );
    assert_eq!(run.state.reviews_scraped, 0);
    assert!(run.written.is_empty());
}

#[test]
fn nonempty_page_without_cursor_stops_cleanly_after_writing() {
    let pages = vec![page_of(1, 3, 50, None)];
    let run = run_pages(&pages, &cfg(100));
    assert_eq!(run.outcome, Some(Termination::CompletedNoCursor));
    assert_eq!(run.state.reviews_scraped, 3);
    assert_eq!(run.written.len(), 3);
    for (k, r) in run.written.iter().enumerate() {
        assert_eq!(r.id, format!("id{k}"));
        assert_eq!(r.text, format!("text {k}"));
    }
}

#[test]
fn unchanged_cursor_stops_instead_of_looping() {
    let mut state = PaginationState::new();
    assert_eq!(state.cursor, "*");
    let page = page_of(1, 2, 50, Some("*"));
    let outcome = state.step(&page, &cfg(100));
    assert_eq!(outcome, StepOutcome::Finished(Termination::CompletedNoCursor));
    assert_eq!(state.reviews_scraped, 2);
}

#[test]
fn advance_updates_cursor_and_count() {
    let mut state = PaginationState::new();
    let page = page_of(1, 7, 50, Some("NEXT"));
    let outcome = state.step(&page, &cfg(100));
    assert_eq!(outcome, StepOutcome::Advance);
    assert_eq!(state.cursor, "NEXT");
    assert_eq!(state.reviews_scraped, 7);
    let second = page_of(1, 1, 50, Some("NEXT"));
    let outcome2 = state.step(&second, &cfg(100));
    assert_eq!(outcome2, StepOutcome::Finished(Termination::CompletedNoCursor));
    assert_eq!(state.reviews_scraped, 8);
}

#[test]
fn empty_page_terminates_before_cursor_is_read() {
    let mut state = PaginationState::new();
    let page = page_of(1, 0, 50, Some("NEXT"));
    let outcome = state.step(&page, &cfg(100));
    assert_eq!(outcome, StepOutcome::Finished(Termination::CompletedEmpty));
    assert_eq!(state.cursor, "*");
    assert_eq!(state.reviews_scraped, 0);
}

#[test]
fn writes_page_only_on_advance_or_clean_no_cursor_stop() {
    assert!(writes_page(&StepOutcome::Advance));
    assert!(writes_page(&StepOutcome::Finished(Termination::CompletedNoCursor)));
    assert!(!writes_page(&StepOutcome::Finished(Termination::CompletedEmpty)));
    assert!(!writes_page(&StepOutcome::Finished(Termination::Failed(
        ScrapeError::UnsuccessfulResponse
    ))));
}

#[test]
fn run_keeps_review_order_across_pages() {
    let pages = vec![
        ReviewPage {
            success: 1,
            reviews: vec![review("a", 1, "first"), review("b", 2, "second")],
            cursor: Some("A".to_string()),
        },
        ReviewPage {
            success: 1,
            reviews: vec![review("c", 3, "third")],
            cursor: None,
        },
    ];
    let run = run_pages(&pages, &cfg(10));
    assert_eq!(run.outcome, Some(Termination::CompletedNoCursor));
    let ids: Vec<&str> = run.written.iter().map(|r| r.id.as_str()).collect();
    assert_eq!(ids, vec!["a", "b", "c"]);
}

#[test]
fn exhausted_pages_leave_no_termination() {
    let pages = vec![page_of(1, 2, 50, Some("A"))];
    let run = run_pages(&pages, &cfg(100));
    assert_eq!(run.outcome, None);
    assert_eq!(run.state.cursor, "A");
    assert_eq!(run.state.reviews_scraped, 2);
}
