//! The pagination engine: a state machine that, one fetched page at a time,
//! validates the page, decides whether the scrape continues or ends, and
//! advances the pagination state.

use vstd::prelude::*;

use crate::page::{PageModel, Review, ReviewModel, ReviewPage, pages_view, reviews_view};

verus! {

/// Every way a scrape can fail, across all components: the fetcher
/// (transport, encoding, response syntax), the engine's own validation
/// (status flag, time window), and the sink (output I/O).
#[derive(Clone, Copy, Debug, PartialEq, Eq, Structural)]
pub enum ScrapeError {
    TransportError,
    EncodingError,
    MalformedResponseError,
    UnsuccessfulResponse,
    TimeWindowViolation,
    IoError,
}

/// How a scrape ends. `CompletedEmpty` (a page with no reviews) and
/// `CompletedNoCursor` (a non-empty page without a fresh cursor) are the
/// normal end-of-data signals; `Failed` is fatal.
#[derive(Clone, Copy, Debug, PartialEq, Eq, Structural)]
pub enum Termination {
    CompletedEmpty,
    CompletedNoCursor,
    Failed(ScrapeError),
}

/// What one engine step decided: fetch the next page, or stop.
#[derive(Clone, Copy, Debug, PartialEq, Eq, Structural)]
pub enum StepOutcome {
    Advance,
    Finished(Termination),
}

/// The policy constants of one scrape. `window_bound` is the end of the
/// requested time window; a returned review whose creation time lies beyond
/// it is a precondition violation by the server and fails the scrape.
#[derive(Clone, Copy, Debug)]
pub struct ScrapeConfig {
    pub window_bound: u64,
}

/// Per-product mutable state of the engine: the cursor to request next and
/// the running count of reviews accepted so far.
#[derive(Debug)]
pub struct PaginationState {
    pub cursor: String,
    pub reviews_scraped: usize,
}

/// The sentinel cursor that requests the first page.
pub open spec fn first_cursor() -> Seq<char> {
    "*"@
}

/// Every review of the page was created within the scrape's time window.
pub open spec fn page_within_window(p: PageModel, bound: u64) -> bool {
    forall|i: int| 0 <= i < p.reviews.len() ==> p.reviews[i].created_at <= bound
}

/// A page whose reviews the engine accepts and writes: the status flag
/// signals success, the page is non-empty, and every review lies within the
/// time window.
pub open spec fn page_accepted(p: PageModel, bound: u64) -> bool {
    p.success == 1 && p.reviews.len() > 0 && page_within_window(p, bound)
}

/// The engine's decision on one page, given the cursor the page was fetched
/// with: validation failures are fatal, an empty page is the normal end of
/// data, an absent or unchanged cursor is a clean stop, and otherwise the
/// scrape advances to the new cursor.
pub open spec fn spec_step_outcome(p: PageModel, cur: Seq<char>, bound: u64) -> StepOutcome {
    if p.success != 1 {
        StepOutcome::Finished(Termination::Failed(ScrapeError::UnsuccessfulResponse))
    } else if p.reviews.len() == 0 {
        StepOutcome::Finished(Termination::CompletedEmpty)
    } else if !page_within_window(p, bound) {
        StepOutcome::Finished(Termination::Failed(ScrapeError::TimeWindowViolation))
    } else {
        match p.cursor {
            None => StepOutcome::Finished(Termination::CompletedNoCursor),
            Some(c) => if c == cur {
                StepOutcome::Finished(Termination::CompletedNoCursor)
            } else {
                StepOutcome::Advance
            },
        }
    }
}

impl PaginationState {
    /// The state a product's scrape starts from: the sentinel cursor and a
    /// zero count.
    pub fn new() -> (s: Self)
        ensures
            s.cursor@ == first_cursor(),
            s.reviews_scraped == 0,
    {
        PaginationState { cursor: String::from_str("*"), reviews_scraped: 0 }
    }

    /// One turn of the fetch/validate/extract/advance loop, applied to the
    /// page fetched for the current cursor. The caller writes the page's
    /// reviews to the sink exactly when the outcome says so (`Advance` or a
    /// clean `CompletedNoCursor` stop); the count advances in step with that.
    pub fn step(&mut self, page: &ReviewPage, cfg: &ScrapeConfig) -> (r: StepOutcome)
        requires
            page_accepted(page@, cfg.window_bound) ==> old(self).reviews_scraped
                + page@.reviews.len() <= usize::MAX,
        ensures
            r == spec_step_outcome(page@, old(self).cursor@, cfg.window_bound),
            page_accepted(page@, cfg.window_bound) ==> final(self).reviews_scraped
                == old(self).reviews_scraped + page@.reviews.len(),
            !page_accepted(page@, cfg.window_bound) ==> *final(self) == *old(self),
            r is Advance ==> final(self).cursor@ == page@.cursor.unwrap(),
            !(r is Advance) ==> final(self).cursor == old(self).cursor,
    {
        if page.success != 1 {
            return StepOutcome::Finished(Termination::Failed(ScrapeError::UnsuccessfulResponse));
        }
        if page.reviews.len() == 0 {
            return StepOutcome::Finished(Termination::CompletedEmpty);
        }
        let n = page.reviews.len();
        let mut i: usize = 0;
        while i < n
            invariant
                n == page.reviews@.len(),
                page@.reviews.len() == n,
                page@.success == 1,
                n > 0,
                i <= n,
                forall|k: int| 0 <= k < i ==> page@.reviews[k].created_at <= cfg.window_bound,
                *self == *old(self),
            decreases n - i,
        {
            if page.reviews[i].created_at > cfg.window_bound {
                proof {
                    assert(page@.reviews[i as int] == page.reviews@[i as int]@);
                    assert(!page_within_window(page@, cfg.window_bound));
                }
                return StepOutcome::Finished(Termination::Failed(ScrapeError::TimeWindowViolation));
            }
            i += 1;
        }
        assert(page_within_window(page@, cfg.window_bound));
        self.reviews_scraped = self.reviews_scraped + page.reviews.len();
        match &page.cursor {
            None => StepOutcome::Finished(Termination::CompletedNoCursor),
            Some(c) => {
                if *c == self.cursor {
                    StepOutcome::Finished(Termination::CompletedNoCursor)
                } else {
                    self.cursor = c.clone();
                    StepOutcome::Advance
                }
            },
        }
    }
}

/// The value of a whole engine run over a sequence of fetched pages: how it
/// ended (`None` when the pages ran out before any termination signal), the
/// cursor and count the state holds afterwards, and the reviews written to
/// the sink, in order.
pub ghost struct RunModel {
    pub outcome: Option<Termination>,
    pub cursor: Seq<char>,
    pub scraped: nat,
    pub written: Seq<ReviewModel>,
}

/// The engine run over `pages`, started with cursor `cur` and count
/// `scraped`: pages are consumed strictly in order, each through
/// [`spec_step_outcome`], until one of them terminates the run or none are
/// left.
pub open spec fn spec_run(pages: Seq<PageModel>, cur: Seq<char>, scraped: nat, bound: u64) -> RunModel
    decreases pages.len(),
{
    if pages.len() == 0 {
        RunModel { outcome: None, cursor: cur, scraped, written: Seq::empty() }
    } else {
        let p = pages[0];
        let wrote = page_accepted(p, bound);
        let scraped2: nat = if wrote {
            scraped + p.reviews.len()
        } else {
            scraped
        };
        let written0: Seq<ReviewModel> = if wrote {
            p.reviews
        } else {
            Seq::empty()
        };
        match spec_step_outcome(p, cur, bound) {
            StepOutcome::Advance => {
                let rest = spec_run(pages.skip(1), p.cursor.unwrap(), scraped2, bound);
                RunModel {
                    outcome: rest.outcome,
                    cursor: rest.cursor,
                    scraped: rest.scraped,
                    written: written0 + rest.written,
                }
            },
            StepOutcome::Finished(t) => (RunModel {
                outcome: Some(t),
                cursor: cur,
                scraped: scraped2,
                written: written0,
            }),
        }
    }
}

/// The combined number of reviews on the given pages.
pub open spec fn sum_page_sizes(pages: Seq<PageModel>) -> nat
    decreases pages.len(),
{
    if pages.len() == 0 {
        0
    } else {
        pages[0].reviews.len() + sum_page_sizes(pages.skip(1))
    }
}

/// The pages whose reviews the run writes to the sink, in the order they are
/// fetched: every advanced-past page, plus the final page when it ends the
/// run cleanly with `CompletedNoCursor`.
pub open spec fn written_pages(pages: Seq<PageModel>, cur: Seq<char>, bound: u64) -> Seq<PageModel>
    decreases pages.len(),
{
    if pages.len() == 0 {
        Seq::empty()
    } else {
        let p = pages[0];
        match spec_step_outcome(p, cur, bound) {
            StepOutcome::Advance => seq![p] + written_pages(pages.skip(1), p.cursor.unwrap(), bound),
            StepOutcome::Finished(t) => if page_accepted(p, bound) {
                seq![p]
            } else {
                Seq::empty()
            },
        }
    }
}

/// The reviews of the given pages, concatenated in page order.
pub open spec fn flatten_pages(pages: Seq<PageModel>) -> Seq<ReviewModel>
    decreases pages.len(),
{
    if pages.len() == 0 {
        Seq::empty()
    } else {
        pages[0].reviews + flatten_pages(pages.skip(1))
    }
}

/// The sink receives exactly the reviews of the written pages, page by page
/// and in order, and the engine's count equals their number: the count of
/// reviews appended for a product is the sum of the page sizes over all
/// pages written before termination. A failed or empty page contributes
/// nothing.
pub proof fn lemma_count_is_sum_of_page_sizes(
    pages: Seq<PageModel>,
    cur: Seq<char>,
    scraped: nat,
    bound: u64,
)
    ensures
        spec_run(pages, cur, scraped, bound).written == flatten_pages(
            written_pages(pages, cur, bound),
        ),
        spec_run(pages, cur, scraped, bound).written.len() == sum_page_sizes(
            written_pages(pages, cur, bound),
        ),
        spec_run(pages, cur, scraped, bound).scraped == scraped + spec_run(
            pages,
            cur,
            scraped,
            bound,
        ).written.len(),
    decreases pages.len(),
{
    if pages.len() == 0 {
    } else {
        let p = pages[0];
        let wp = written_pages(pages, cur, bound);
        match spec_step_outcome(p, cur, bound) {
            StepOutcome::Advance => {
                let scraped2: nat = scraped + p.reviews.len();
                lemma_count_is_sum_of_page_sizes(pages.skip(1), p.cursor.unwrap(), scraped2, bound);
                let wp_rest = written_pages(pages.skip(1), p.cursor.unwrap(), bound);
                assert((seq![p] + wp_rest).skip(1) =~= wp_rest);
                assert((seq![p] + wp_rest)[0] == p);
                assert(sum_page_sizes(seq![p] + wp_rest) == p.reviews.len() + sum_page_sizes(
                    wp_rest,
                ));
            },
            StepOutcome::Finished(t) => {
                if page_accepted(p, bound) {
                    assert(seq![p][0] == p);
                    assert(seq![p].skip(1) =~= Seq::<PageModel>::empty());
                    assert(flatten_pages(seq![p]) == p.reviews + flatten_pages(
                        Seq::<PageModel>::empty(),
                    ));
                    assert(p.reviews + Seq::<ReviewModel>::empty() =~= p.reviews);
                    assert(sum_page_sizes(seq![p]) == p.reviews.len() + sum_page_sizes(
                        Seq::<PageModel>::empty(),
                    ));
                }
            },
        }
    }
}

/// The run terminates as soon as the fetcher yields a page with an empty
/// review list or without a cursor: such a page never advances the engine,
/// so a sequence containing one always ends in a termination signal before
/// or at that page.
pub proof fn lemma_run_terminates(pages: Seq<PageModel>, cur: Seq<char>, scraped: nat, bound: u64)
    requires
        exists|i: int|
            0 <= i < pages.len() && (pages[i].reviews.len() == 0 || pages[i].cursor is None),
    ensures
        spec_run(pages, cur, scraped, bound).outcome is Some,
    decreases pages.len(),
{
    let i = choose|i: int|
        0 <= i < pages.len() && (pages[i].reviews.len() == 0 || pages[i].cursor is None);
    let p = pages[0];
    match spec_step_outcome(p, cur, bound) {
        StepOutcome::Advance => {
            assert(i != 0);
            let scraped2: nat = if page_accepted(p, bound) {
                scraped + p.reviews.len()
            } else {
                scraped
            };
            assert(pages.skip(1)[i - 1] == pages[i]);
            lemma_run_terminates(pages.skip(1), p.cursor.unwrap(), scraped2, bound);
        },
        StepOutcome::Finished(t) => {},
    }
}

/// The engine never loops on an unchanged cursor: a page that echoes back
/// the very cursor it was fetched with ends the run instead of advancing it.
pub proof fn lemma_unchanged_cursor_halts(p: PageModel, cur: Seq<char>, bound: u64)
    requires
        p.cursor == Some(cur),
    ensures
        !(spec_step_outcome(p, cur, bound) is Advance),
{
}

/// What a completed run of the engine over a given page sequence produced:
/// the termination signal (`None` when the pages ran out first), the final
/// pagination state, and the reviews written, in order.
#[derive(Debug)]
pub struct ScrapeRun {
    pub outcome: Option<Termination>,
    pub state: PaginationState,
    pub written: Vec<Review>,
}

/// Clones every review of `src` onto the end of `dst`, keeping values and
/// order.
fn append_reviews(dst: &mut Vec<Review>, src: &Vec<Review>)
    ensures
        final(dst)@ == old(dst)@ + src@,
{
    let n = src.len();
    let mut i: usize = 0;
    while i < n
        invariant
            n == src@.len(),
            i <= n,
            dst@ == old(dst)@ + src@.take(i as int),
        decreases n - i,
    {
        dst.push(src[i].clone());
        proof {
            assert(src@.take(i + 1 as int) =~= src@.take(i as int).push(src@[i as int]));
        }
        i += 1;
    }
    proof {
        assert(src@.take(n as int) =~= src@);
    }
}

/// Runs the engine to completion over the given pages, as if the fetcher
/// returned them one by one: the mirror, in executable form, of
/// [`spec_run`] started from a fresh [`PaginationState`].
pub fn run_pages(pages: &Vec<ReviewPage>, cfg: &ScrapeConfig) -> (r: ScrapeRun)
    requires
        sum_page_sizes(pages_view(pages@)) <= usize::MAX,
    ensures
        ({
            let m = spec_run(pages_view(pages@), first_cursor(), 0, cfg.window_bound);
            r.outcome == m.outcome && r.state.cursor@ == m.cursor && r.state.reviews_scraped
                == m.scraped && reviews_view(r.written@) == m.written
        }),
{
    let ghost models = pages_view(pages@);
    let ghost bound = cfg.window_bound;
    let ghost full = spec_run(models, first_cursor(), 0, bound);
    let mut state = PaginationState::new();
    let mut written: Vec<Review> = Vec::new();
    let mut outcome: Option<Termination> = None;
    let n = pages.len();
    let mut i: usize = 0;
    proof {
        assert(models.skip(0) =~= models);
        assert(reviews_view(Seq::<Review>::empty()) =~= Seq::<ReviewModel>::empty());
        assert(Seq::<ReviewModel>::empty() + full.written =~= full.written);
    }
    while i < n && outcome.is_none()
        invariant
            n == pages@.len(),
            models == pages_view(pages@),
            bound == cfg.window_bound,
            full == spec_run(models, first_cursor(), 0, bound),
            i <= n,
            outcome is None ==> ({
                let rest = spec_run(
                    models.skip(i as int),
                    state.cursor@,
                    state.reviews_scraped as nat,
                    bound,
                );
                full.outcome == rest.outcome && full.cursor == rest.cursor && full.scraped
                    == rest.scraped && full.written == reviews_view(written@) + rest.written
                    && state.reviews_scraped + sum_page_sizes(models.skip(i as int)) <= usize::MAX
            }),
            outcome is Some ==> full.outcome == outcome && full.cursor == state.cursor@
                && full.scraped == state.reviews_scraped && full.written == reviews_view(written@),
        decreases n - i + (if outcome is Some {
            0int
        } else {
            1int
        }),
    {
        let ghost pre_cursor = state.cursor@;
        let ghost pre_scraped = state.reviews_scraped as nat;
        let ghost rem = models.skip(i as int);
        let ghost p = models[i as int];
        proof {
            assert(rem[0] == p);
            assert(p == pages@[i as int]@);
            assert(rem.skip(1) =~= models.skip(i + 1));
            assert(sum_page_sizes(rem) == p.reviews.len() + sum_page_sizes(models.skip(i + 1)));
        }
        let out = state.step(&pages[i], cfg);
        let ghost pre_written = written@;
        if writes_page(&out) {
            append_reviews(&mut written, &pages[i].reviews);
        }
        proof {
            assert(reviews_view(pre_written + pages@[i as int].reviews@) =~= reviews_view(
                pre_written,
            ) + p.reviews);
            assert(reviews_view(pre_written) + Seq::<ReviewModel>::empty() =~= reviews_view(
                pre_written,
            ));
        }
        match out {
            StepOutcome::Advance => {
                i += 1;
            },
            StepOutcome::Finished(t) => {
                outcome = Some(t);
            },
        }
    }
    proof {
        if outcome is None {
            assert(models.skip(n as int) =~= Seq::<PageModel>::empty());
            assert(reviews_view(written@) + Seq::<ReviewModel>::empty() =~= reviews_view(
                written@,
            ));
        }
    }
    ScrapeRun { outcome, state, written }
}

/// Whether the caller writes the stepped page's reviews to the sink: after an
/// `Advance`, and after the clean `CompletedNoCursor` stop, whose page is
/// non-empty and valid; never after a failure or an empty page.
pub fn writes_page(r: &StepOutcome) -> (b: bool)
    ensures
        b == (*r == StepOutcome::Advance || *r == StepOutcome::Finished(
            Termination::CompletedNoCursor,
        )),
{
    match r {
        StepOutcome::Advance => true,
        StepOutcome::Finished(Termination::CompletedNoCursor) => true,
        _ => false,
    }
}

} // verus!
