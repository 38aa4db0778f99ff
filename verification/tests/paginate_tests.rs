use e_cli::paginate::{PageBudget, Paginator, PaginatorPhase};

/// Drives a paginator against a stub endpoint whose pages hold the given
/// numbers of posts (every later page is empty), and returns how many pages
/// it yielded.
fn drive(mut paginator: Paginator, stub_page_sizes: &[usize]) -> (u64, Paginator) {
    let mut yielded: u64 = 0;
    while paginator.is_fetching() {
        let page = paginator.next_page_number() as usize;
        let len = if page - 1 < stub_page_sizes.len() { stub_page_sizes[page - 1] } else { 0 };
        if len > 0 {
            yielded += 1;
        }
        paginator.on_page(len);
    }
    (yielded, paginator)
}

#[test]
fn unbounded_budget_stops_at_the_first_empty_page() {
    let budget = PageBudget::from_pages(-1).unwrap();
    let (yielded, p) = drive(Paginator::new(budget), &[5, 5, 5, 0]);
    assert_eq!(yielded, 3);
    assert_eq!(p.pages_yielded(), 3);
    assert_eq!(p.phase, PaginatorPhase::Done);
    assert!(!p.has_failed());
}

#[test]
fn exact_budget_stops_at_the_budget() {
    let budget = PageBudget::from_pages(2).unwrap();
    let (yielded, p) = drive(Paginator::new(budget), &[5, 5, 5, 0]);
    assert_eq!(yielded, 2);
    assert_eq!(p.pages_yielded(), 2);
    assert_eq!(p.phase, PaginatorPhase::Done);
}

#[test]
fn empty_first_page_yields_nothing() {
    let budget = PageBudget::from_pages(-1).unwrap();
    let (yielded, p) = drive(Paginator::new(budget), &[]);
    assert_eq!(yielded, 0);
    assert_eq!(p.pages_yielded(), 0);
    assert_eq!(p.phase, PaginatorPhase::Done);
}

#[test]
fn page_numbers_start_at_one_and_advance() {
    let budget = PageBudget::from_pages(3).unwrap();
    let mut p = Paginator::new(budget);
    assert_eq!(p.next_page_number(), 1);
    p.on_page(4);
    assert_eq!(p.next_page_number(), 2);
    p.on_page(4);
    assert_eq!(p.next_page_number(), 3);
    p.on_page(4);
    assert!(!p.is_fetching());
}

#[test]
fn a_failed_request_ends_the_run_and_keeps_earlier_pages() {
    let budget = PageBudget::from_pages(-1).unwrap();
    let mut p = Paginator::new(budget);
    p.on_page(5);
    assert!(p.is_fetching());
    p.on_error();
    assert!(p.has_failed());
    assert!(!p.is_fetching());
    assert_eq!(p.pages_yielded(), 1);
}

#[test]
fn page_budget_reads_the_pages_argument() {
    assert_eq!(PageBudget::from_pages(-1), Some(PageBudget::Unbounded));
    assert_eq!(PageBudget::from_pages(3), Some(PageBudget::Exactly(3)));
    assert_eq!(PageBudget::from_pages(0), None);
    assert_eq!(PageBudget::from_pages(-2), None);
}
