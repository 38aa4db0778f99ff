//! The paginator: a state machine that walks the search endpoint page by
//! page until its budget is spent, the results run out, or a request fails.
//! The surrounding binary issues the requests and reports each response
//! back; the machine decides whether and what to fetch next.

use vstd::prelude::*;

verus! {

/// How many pages a run may fetch: every page the endpoint has, or an exact
/// positive count.
#[derive(Clone, Copy, Debug, PartialEq, Eq, Structural)]
pub enum PageBudget {
    Unbounded,
    Exactly(u64),
}

/// The page budget a `pages` argument denotes: `-1` asks for every page, a
/// positive count for exactly that many, and everything else is disallowed.
pub open spec fn budget_from_pages_spec(pages: i64) -> Option<PageBudget> {
    if pages == -1 {
        Some(PageBudget::Unbounded)
    } else if pages > 0 {
        Some(PageBudget::Exactly(pages as u64))
    } else {
        None
    }
}

impl PageBudget {
    /// Reads a page budget from the `pages` argument of the command line.
    pub fn from_pages(pages: i64) -> (r: Option<PageBudget>)
        ensures
            r == budget_from_pages_spec(pages),
    {
        if pages == -1 {
            Some(PageBudget::Unbounded)
        } else if pages > 0 {
            Some(PageBudget::Exactly(pages as u64))
        } else {
            None
        }
    }
}

/// Where the paginator stands.
#[derive(Clone, Copy, Debug, PartialEq, Eq, Structural)]
pub enum PaginatorPhase {
    /// The next page should be requested.
    Fetching,
    /// The sequence of pages is exhausted: the budget is spent or a page
    /// came back empty.
    Done,
    /// A request failed; no pages beyond the last fetched one are produced,
    /// and the failure is surfaced to the caller.
    Failed,
}

/// The phase after a non-empty page was accepted with the given new cursor:
/// fetching goes on until an exact budget is reached, or, with no budget,
/// until the cursor can no longer be counted.
pub open spec fn phase_after_page(budget: PageBudget, new_cursor: int) -> PaginatorPhase {
    match budget {
        PageBudget::Exactly(n) => if new_cursor == n {
            PaginatorPhase::Done
        } else {
            PaginatorPhase::Fetching
        },
        PageBudget::Unbounded => if new_cursor == u64::MAX {
            PaginatorPhase::Done
        } else {
            PaginatorPhase::Fetching
        },
    }
}

/// The pagination state machine. `cursor` counts the pages yielded so far;
/// page numbers on the wire start at one, so the next request asks for page
/// `cursor + 1`.
#[derive(Clone, Copy, Debug)]
pub struct Paginator {
    pub budget: PageBudget,
    pub cursor: u64,
    pub phase: PaginatorPhase,
}

impl Paginator {
    /// The machine never yields more pages than an exact budget allows, and
    /// only ever asks for another page while the next page number is
    /// representable.
    pub open spec fn wf(self) -> bool {
        match self.budget {
            PageBudget::Exactly(n) => self.cursor <= n && (self.phase is Fetching
                ==> self.cursor < n),
            PageBudget::Unbounded => self.phase is Fetching ==> self.cursor < u64::MAX,
        }
    }

    /// Starts a run. A budget of exactly zero pages is spent from the
    /// outset; any other budget begins fetching.
    pub fn new(budget: PageBudget) -> (r: Paginator)
        ensures
            r.budget == budget,
            r.cursor == 0,
            r.phase == (match budget {
                PageBudget::Exactly(n) => if n == 0 {
                    PaginatorPhase::Done
                } else {
                    PaginatorPhase::Fetching
                },
                PageBudget::Unbounded => PaginatorPhase::Fetching,
            }),
            r.wf(),
    {
        let phase = match budget {
            PageBudget::Exactly(n) => if n == 0 {
                PaginatorPhase::Done
            } else {
                PaginatorPhase::Fetching
            },
            PageBudget::Unbounded => PaginatorPhase::Fetching,
        };
        Paginator { budget: budget, cursor: 0, phase: phase }
    }

    /// Whether the next page should be requested.
    pub fn is_fetching(&self) -> (r: bool)
        ensures
            r == (self.phase is Fetching),
    {
        match self.phase {
            PaginatorPhase::Fetching => true,
            _ => false,
        }
    }

    /// Whether the run ended on a failed request.
    pub fn has_failed(&self) -> (r: bool)
        ensures
            r == (self.phase is Failed),
    {
        match self.phase {
            PaginatorPhase::Failed => true,
            _ => false,
        }
    }

    /// The page number of the next request.
    pub fn next_page_number(&self) -> (r: u64)
        requires
            self.phase is Fetching,
            self.wf(),
        ensures
            r == self.cursor + 1,
    {
        self.cursor + 1
    }

    /// How many pages have been yielded so far.
    pub fn pages_yielded(&self) -> (r: u64)
        ensures
            r == self.cursor,
    {
        self.cursor
    }

    /// Accepts a successfully fetched page of `page_len` posts. An empty
    /// page is the natural end of the results; a non-empty page is yielded,
    /// and fetching goes on only while budget remains.
    pub fn on_page(&mut self, page_len: usize)
        requires
            old(self).phase is Fetching,
            old(self).wf(),
        ensures
            final(self).budget == old(self).budget,
            final(self).wf(),
            page_len == 0 ==> final(self).cursor == old(self).cursor && final(self).phase
                is Done,
            page_len > 0 ==> final(self).cursor == old(self).cursor + 1 && final(self).phase
                == phase_after_page(old(self).budget, old(self).cursor + 1),
    {
        if page_len == 0 {
            self.phase = PaginatorPhase::Done;
        } else {
            self.cursor = self.cursor + 1;
            self.phase = match self.budget {
                PageBudget::Exactly(n) => if self.cursor == n {
                    PaginatorPhase::Done
                } else {
                    PaginatorPhase::Fetching
                },
                PageBudget::Unbounded => if self.cursor == u64::MAX {
                    PaginatorPhase::Done
                } else {
                    PaginatorPhase::Fetching
                },
            };
        }
    }

    /// Notes a failed request or a response that could not be read: the
    /// sequence ends early, keeping the pages already yielded.
    pub fn on_error(&mut self)
        requires
            old(self).phase is Fetching,
        ensures
            final(self).budget == old(self).budget,
            final(self).cursor == old(self).cursor,
            final(self).phase is Failed,
            old(self).wf() ==> final(self).wf(),
    {
        self.phase = PaginatorPhase::Failed;
    }
}

/// A well-formed paginator never yields more pages than an exact budget
/// allows, whatever the endpoint returns.
pub proof fn lemma_budget_respected(p: Paginator)
    requires
        p.wf(),
    ensures
        p.budget matches PageBudget::Exactly(n) ==> p.cursor <= n,
{
}

} // verus!
