use e_cli::api_defs::{Alternates, File, Post, Sample, Tags};
use e_cli::batch::{fetch_outcome, immediate_outcome, plan_post, PostPlan};
use e_cli::stats::{DownloadOutcome, FailureReason};

fn post_with_url(url: Option<&str>) -> Post {
    Post {
        id: 7,
        file: File { ext: "png".to_string(), url: url.map(|s| s.to_string()) },
        tags: Tags { artist: vec!["a".to_string()] },
        sample: Sample { has: false, url: None, alternates: Alternates { lower_quality: None } },
    }
}

#[test]
fn existing_destination_is_always_skipped() {
    let p = post_with_url(Some("u"));
    let plan = plan_post(&p, false, true);
    assert!(matches!(plan, PostPlan::Skip));
    assert_eq!(immediate_outcome(&plan), Some(DownloadOutcome::Skipped));
}

#[test]
fn existing_destination_is_skipped_even_without_any_url() {
    let p = post_with_url(None);
    let plan = plan_post(&p, true, true);
    assert!(matches!(plan, PostPlan::Skip));
}

#[test]
fn missing_url_fails_without_fetch() {
    let p = post_with_url(None);
    let plan = plan_post(&p, false, false);
    assert!(matches!(plan, PostPlan::NoUsableUrl));
    assert_eq!(
        immediate_outcome(&plan),
        Some(DownloadOutcome::Failed(FailureReason::MissingUrl)),
    );
}

#[test]
fn fresh_post_with_url_is_fetched() {
    let p = post_with_url(Some("u"));
    let plan = plan_post(&p, false, false);
    match &plan {
        PostPlan::Fetch(url) => assert_eq!(url, "u"),
        _ => panic!("expected a fetch plan"),
    }
    assert_eq!(immediate_outcome(&plan), None);
}

#[test]
fn fetch_outcome_maps_success_and_failure() {
    assert_eq!(fetch_outcome(Ok(7)), DownloadOutcome::Succeeded(7));
    assert_eq!(
        fetch_outcome(Err(FailureReason::BodyRead)),
        DownloadOutcome::Failed(FailureReason::BodyRead),
    );
}
