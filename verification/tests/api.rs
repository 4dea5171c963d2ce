use verified_bot_commit::api::{is_success_status, AttemptOutcome, Endpoint, GitHubApi, RetryStep};

fn api(max_retries: u32) -> GitHubApi {
    GitHubApi::new("https://api.github.com//", "octo", "repo", "tok", max_retries)
}

#[test]
fn new_trims_trailing_slashes() {
    let a = api(1);
    assert_eq!(a.base_url, "https://api.github.com");
    assert_eq!(a.owner, "octo");
    assert_eq!(a.repo, "repo");
    assert_eq!(a.token, "tok");
    assert_eq!(a.max_retries, 1);
    assert!(a.throttle);
    assert_eq!(GitHubApi::new("///", "o", "r", "t", 0).base_url, "");
}

#[test]
fn endpoint_urls() {
    let a = api(1);
    let base = "https://api.github.com/repos/octo/repo/";
    assert_eq!(a.url(&Endpoint::GetRef("heads/main".to_string())), format!("{base}git/ref/heads/main"));
    assert_eq!(a.url(&Endpoint::GetTag("t1".to_string())), format!("{base}git/tags/t1"));
    assert_eq!(a.url(&Endpoint::GetCommit("c1".to_string())), format!("{base}git/commits/c1"));
    assert_eq!(a.url(&Endpoint::CreateBlob), format!("{base}git/blobs"));
    assert_eq!(a.url(&Endpoint::CreateTree), format!("{base}git/trees"));
    assert_eq!(a.url(&Endpoint::CreateCommit), format!("{base}git/commits"));
    assert_eq!(a.url(&Endpoint::UpdateRef("tags/v1".to_string())), format!("{base}git/refs/tags/v1"));
}

#[test]
fn headers() {
    let h = api(1).request_headers();
    assert_eq!(h.len(), 4);
    assert_eq!(h[0], ("Authorization".to_string(), "Bearer tok".to_string()));
    assert_eq!(h[1], ("Accept".to_string(), "application/vnd.github+json".to_string()));
    assert_eq!(h[2], ("User-Agent".to_string(), "verified-bot-commit".to_string()));
    assert_eq!(h[3], ("X-GitHub-Api-Version".to_string(), "2022-11-28".to_string()));
}

#[test]
fn success_statuses() {
    assert!(is_success_status(200));
    assert!(is_success_status(201));
    assert!(is_success_status(299));
    assert!(!is_success_status(199));
    assert!(!is_success_status(300));
    assert!(!is_success_status(404));
}

fn http(status: u16, text: &str, body: &str) -> AttemptOutcome {
    AttemptOutcome::HttpFailure {
        status,
        status_text: text.to_string(),
        body: body.to_string(),
    }
}

#[test]
fn retry_on_success_is_done() {
    assert_eq!(api(3).retry_step(0, &AttemptOutcome::Success), RetryStep::Done);
    assert_eq!(api(3).retry_step(3, &AttemptOutcome::Success), RetryStep::Done);
}

#[test]
fn retry_rate_limited() {
    let step = api(3).retry_step(1, &http(429, "429 Too Many Requests", "slow down"));
    assert_eq!(
        step,
        RetryStep::Retry {
            delay_secs: 2,
            warning: "::warning::Rate limited (attempt 2/3), retrying...".to_string()
        }
    );
    let step = api(3).retry_step(0, &http(403, "403 Forbidden", ""));
    assert_eq!(
        step,
        RetryStep::Retry {
            delay_secs: 1,
            warning: "::warning::Rate limited (attempt 1/3), retrying...".to_string()
        }
    );
}

#[test]
fn retry_http_failure() {
    let step = api(12).retry_step(10, &http(500, "500 Internal Server Error", "oops"));
    assert_eq!(
        step,
        RetryStep::Retry {
            delay_secs: 1024,
            warning: "::warning::Request failed (attempt 11/12): HTTP 500 Internal Server Error: oops"
                .to_string()
        }
    );
}

#[test]
fn retry_transport_failure() {
    let step = api(2).retry_step(
        0,
        &AttemptOutcome::TransportFailure { message: "connection refused".to_string() },
    );
    assert_eq!(
        step,
        RetryStep::Retry {
            delay_secs: 1,
            warning: "::warning::Request error (attempt 1/2): connection refused".to_string()
        }
    );
}

#[test]
fn last_attempt_fails_with_its_error() {
    assert_eq!(
        api(1).retry_step(1, &http(429, "429 Too Many Requests", "limit")),
        RetryStep::Fail { error: "HTTP 429 Too Many Requests: limit".to_string() }
    );
    assert_eq!(
        api(0).retry_step(0, &AttemptOutcome::TransportFailure { message: "dns".to_string() }),
        RetryStep::Fail { error: "dns".to_string() }
    );
}

#[test]
fn failing_request_is_tried_max_retries_plus_one_times() {
    let a = api(4);
    let mut waited = 0u64;
    let mut tries = 0u32;
    loop {
        let attempt = tries;
        tries += 1;
        match a.retry_step(attempt, &http(502, "502 Bad Gateway", "")) {
            RetryStep::Retry { delay_secs, .. } => waited += delay_secs,
            RetryStep::Fail { error } => {
                assert_eq!(error, "HTTP 502 Bad Gateway: ");
                break;
            }
            RetryStep::Done => unreachable!(),
        }
    }
    assert_eq!(tries, 5);
    assert_eq!(waited, 15);
}

#[test]
fn retry_without_throttle_does_not_wait() {
    let mut a = api(100);
    a.set_throttle(false);
    assert!(!a.throttle);
    assert_eq!(a.max_retries, 100);
    assert_eq!(
        a.retry_step(70, &http(429, "429 Too Many Requests", "")),
        RetryStep::Retry {
            delay_secs: 0,
            warning: "::warning::Rate limited (attempt 71/100), retrying...".to_string()
        }
    );
}
