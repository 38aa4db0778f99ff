//! The whole pipeline driven against a stub endpoint and a stub filesystem:
//! a favorites search whose five posts all carry URLs and none of whose
//! files exist yet must complete all five downloads.

use e_cli::api_defs::{Alternates, File, Post, Posts, Sample, Tags};
use e_cli::batch::{fetch_outcome, immediate_outcome, plan_post, PostPlan};
use e_cli::config::{Args, Commands};
use e_cli::dispatch::{slice_arr, sum_posts};
use e_cli::paginate::{PageBudget, Paginator};
use e_cli::paths::dest_path;
use e_cli::query::{build_page_url, build_tag_expr};
use e_cli::report::PipelineReport;
use e_cli::stats::BatchStatistics;

fn stub_post(id: u64) -> Post {
    Post {
        id,
        file: File {
            ext: "png".to_string(),
            url: Some(format!("https://static.example/{id}.png")),
        },
        tags: Tags { artist: vec!["artist".to_string()] },
        sample: Sample { has: false, url: None, alternates: Alternates { lower_quality: None } },
    }
}

/// The stub endpoint: page one carries five posts, every later page is
/// empty. Returns the page for a request URL, checking the URL is the one
/// the pipeline ought to build.
fn stub_endpoint(url: &str) -> Vec<Post> {
    let base = "https://e926.net/posts.json?tags=fav:alice  &limit=5&page=";
    assert!(url.starts_with(base), "unexpected request: {url}");
    if url == format!("{base}1") {
        (1..=5).map(stub_post).collect()
    } else {
        Vec::new()
    }
}

/// The stub transfer: each body's size is one hundred times the post id.
fn stub_fetch(url: &str) -> Result<u64, e_cli::stats::FailureReason> {
    let id: u64 = url
        .trim_start_matches("https://static.example/")
        .trim_end_matches(".png")
        .parse()
        .unwrap();
    Ok(100 * id)
}

#[test]
fn favorites_run_completes_every_post() {
    // Favorites of "alice", count 5, no tags, random off, all pages.
    let args = Args {
        command: Some(Commands::DFavs {
            username: "alice".to_string(),
            count: 5,
            random: false,
            tags: "".to_string(),
        }),
        verbose: false,
        login: false,
        api_source: "e926.net".to_string(),
        lower_quality: false,
        pages: -1,
        num_threads: 5,
    };
    assert_eq!(args.validate(), Ok(()));

    let budget = PageBudget::from_pages(args.pages).unwrap();
    let expr = build_tag_expr(Some("alice"), "", false);

    // Paginate against the stub endpoint.
    let mut paginator = Paginator::new(budget);
    let mut pages: Vec<Vec<Post>> = Vec::new();
    while paginator.is_fetching() {
        let url = build_page_url(&args.api_source, &expr, 5, paginator.next_page_number());
        let page = stub_endpoint(&url);
        paginator.on_page(page.len());
        if !page.is_empty() {
            pages.push(page);
        }
    }
    assert!(!paginator.has_failed());
    assert_eq!(pages.len(), 1);
    let total = sum_posts(&pages);
    assert_eq!(total, 5);

    // Dispatch each page in chunks; no destination exists beforehand.
    let mut existing_files: Vec<String> = Vec::new();
    let mut merged = BatchStatistics::new();
    for page in pages {
        let mut page_stats = BatchStatistics::new();
        for chunk in slice_arr(Posts { posts: page }, 5) {
            let mut stats = BatchStatistics::new();
            for post in &chunk {
                let label = post.tags.parse_artists();
                let path = dest_path(&label, post.id, &post.file.ext);
                let exists = existing_files.contains(&path);
                let plan = plan_post(post, args.lower_quality, exists);
                let outcome = match immediate_outcome(&plan) {
                    Some(o) => o,
                    None => match &plan {
                        PostPlan::Fetch(url) => {
                            let fetched = stub_fetch(url);
                            if fetched.is_ok() {
                                existing_files.push(path.clone());
                            }
                            fetch_outcome(fetched)
                        },
                        _ => unreachable!(),
                    },
                };
                stats.record(outcome);
            }
            page_stats = page_stats.merge(stats);
        }
        merged = merged.merge(page_stats);
    }

    let report = PipelineReport::from_stats(total, merged);
    assert_eq!(report.total, 5);
    assert_eq!(report.completed, 5);
    assert_eq!(report.failed, 0);
    assert_eq!(report.bytes, 100 + 200 + 300 + 400 + 500);

    // Five distinct files were created, under the expected names.
    let mut expected: Vec<String> =
        (1..=5).map(|id| format!("./dl/artist-{id}.png")).collect();
    let mut created = existing_files.clone();
    created.sort();
    expected.sort();
    assert_eq!(created, expected);
}
