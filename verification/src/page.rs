//! The data carried through one scrape: reviews and the pages that hold them.

use vstd::prelude::*;

verus! {

/// One user review as the API returns it: an opaque identifier, the creation
/// time in seconds since an epoch, and the free-form review text.
#[derive(Debug)]
pub struct Review {
    pub id: String,
    pub created_at: u64,
    pub text: String,
}

/// The mathematical value of a [`Review`]: its strings as character sequences.
pub ghost struct ReviewModel {
    pub id: Seq<char>,
    pub created_at: u64,
    pub text: Seq<char>,
}

impl View for Review {
    type V = ReviewModel;

    open spec fn view(&self) -> ReviewModel {
        ReviewModel { id: self.id@, created_at: self.created_at, text: self.text@ }
    }
}

impl Clone for Review {
    fn clone(&self) -> (r: Self)
        ensures
            r == *self,
    {
        Review { id: self.id.clone(), created_at: self.created_at, text: self.text.clone() }
    }
}

/// The values of a sequence of reviews.
pub open spec fn reviews_view(rs: Seq<Review>) -> Seq<ReviewModel> {
    rs.map_values(|r: Review| r@)
}

/// One API response: a numeric status flag (`1` means success), the reviews of
/// this page in the order the API returned them, and the continuation cursor
/// for the next page, if the API offered one.
#[derive(Debug)]
pub struct ReviewPage {
    pub success: u64,
    pub reviews: Vec<Review>,
    pub cursor: Option<String>,
}

/// The mathematical value of a [`ReviewPage`].
pub ghost struct PageModel {
    pub success: u64,
    pub reviews: Seq<ReviewModel>,
    pub cursor: Option<Seq<char>>,
}

impl View for ReviewPage {
    type V = PageModel;

    open spec fn view(&self) -> PageModel {
        PageModel {
            success: self.success,
            reviews: reviews_view(self.reviews@),
            cursor: match self.cursor {
                Some(c) => Some(c@),
                None => None,
            },
        }
    }
}

/// The values of a sequence of pages.
pub open spec fn pages_view(ps: Seq<ReviewPage>) -> Seq<PageModel> {
    ps.map_values(|p: ReviewPage| p@)
}

} // verus!
