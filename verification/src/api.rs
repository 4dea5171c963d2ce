//! The GitHub API client's own logic: where each request goes, the headers
//! it carries, and when a failed request is tried again.

use vstd::prelude::*;
use vstd::arithmetic::power2::{pow2, lemma2_to64, lemma_pow2_unfold, lemma_pow2_strictly_increases};
use crate::text::{chars_of, decimal, spec_decimal};

verus! {

/// GitHub API client for git operations: the repository it works on, the
/// token it sends, how often it retries and whether it waits before a retry.
pub struct GitHubApi {
    pub base_url: String,
    pub owner: String,
    pub repo: String,
    pub token: String,
    pub max_retries: u32,
    pub throttle: bool,
}

/// `s` without its trailing `'/'` characters.
pub open spec fn trim_trailing_slashes(s: Seq<char>) -> Seq<char>
    decreases s.len(),
{
    if s.len() > 0 && s.last() == '/' {
        trim_trailing_slashes(s.drop_last())
    } else {
        s
    }
}

/// The requests the workflow makes, each naming its path under the
/// repository.
#[derive(Debug, Clone, PartialEq, Eq)]
pub enum Endpoint {
    /// Read a ref, `git/ref/<ref>`.
    GetRef(String),
    /// Read an annotated tag, `git/tags/<sha>`.
    GetTag(String),
    /// Read a commit, `git/commits/<sha>`.
    GetCommit(String),
    /// Create a blob, `git/blobs`.
    CreateBlob,
    /// Create a tree, `git/trees`.
    CreateTree,
    /// Create a commit, `git/commits`.
    CreateCommit,
    /// Move a ref, `git/refs/<ref>`.
    UpdateRef(String),
}

/// The path of an endpoint under the repository.
pub open spec fn endpoint_path(e: Endpoint) -> Seq<char> {
    match e {
        Endpoint::GetRef(r) => "git/ref/"@ + r@,
        Endpoint::GetTag(sha) => "git/tags/"@ + sha@,
        Endpoint::GetCommit(sha) => "git/commits/"@ + sha@,
        Endpoint::CreateBlob => "git/blobs"@,
        Endpoint::CreateTree => "git/trees"@,
        Endpoint::CreateCommit => "git/commits"@,
        Endpoint::UpdateRef(r) => "git/refs/"@ + r@,
    }
}

/// How one attempt at a request ended.
#[derive(Debug, Clone)]
pub enum AttemptOutcome {
    /// The server answered with a 2xx status.
    Success,
    /// The server answered with another status: its code, its display form
    /// (such as `404 Not Found`) and the body of the answer.
    HttpFailure { status: u16, status_text: String, body: String },
    /// No answer came; the transport's error message.
    TransportFailure { message: String },
}

/// What to do after an attempt.
#[derive(Debug, Clone, PartialEq, Eq)]
pub enum RetryStep {
    /// Hand the answer to the caller.
    Done,
    /// Print `warning` to standard error, wait `delay_secs` seconds and try
    /// again.
    Retry { delay_secs: u64, warning: String },
    /// Give up with this error.
    Fail { error: String },
}

/// The statuses that mean success: 200 to 299.
pub open spec fn spec_is_success(status: u16) -> bool {
    200 <= status <= 299
}

/// Statuses that GitHub uses for rate limiting.
pub open spec fn is_rate_limit(status: u16) -> bool {
    status == 429 || status == 403
}

/// The error text of a failed attempt.
pub open spec fn failure_text(o: AttemptOutcome) -> Seq<char> {
    match o {
        AttemptOutcome::Success => Seq::empty(),
        AttemptOutcome::HttpFailure { status, status_text, body } => "HTTP "@ + status_text@ + ": "@
            + body@,
        AttemptOutcome::TransportFailure { message } => message@,
    }
}

/// `(attempt <n>/<max>)` with `n` counted from one.
pub open spec fn attempt_label(attempt: u32, max_retries: u32) -> Seq<char> {
    "(attempt "@ + spec_decimal(attempt as nat + 1) + "/"@ + spec_decimal(max_retries as nat)
        + ")"@
}

/// The workflow warning printed before a retry.
pub open spec fn retry_warning(attempt: u32, max_retries: u32, o: AttemptOutcome) -> Seq<char> {
    match o {
        AttemptOutcome::HttpFailure { status, .. } => if is_rate_limit(status) {
            "::warning::Rate limited "@ + attempt_label(attempt, max_retries) + ", retrying..."@
        } else {
            "::warning::Request failed "@ + attempt_label(attempt, max_retries) + ": "@
                + failure_text(o)
        },
        _ => "::warning::Request error "@ + attempt_label(attempt, max_retries) + ": "@
            + failure_text(o),
    }
}

/// Whether an HTTP status means success.
pub fn is_success_status(status: u16) -> (b: bool)
    ensures
        b == spec_is_success(status),
{
    200 <= status && status <= 299
}

/// `2^e`, the backoff before retry number `e + 1`.
fn backoff_secs(e: u32) -> (d: u64)
    requires
        e < 64,
    ensures
        d == pow2(e as nat),
{
    let mut d: u64 = 1;
    let mut i: u32 = 0;
    proof {
        lemma2_to64();
    }
    while i < e
        invariant
            i <= e < 64,
            d == pow2(i as nat),
            pow2(64) == 0x10000000000000000,
        decreases e - i,
    {
        proof {
            lemma_pow2_unfold((i + 1) as nat);
            if i + 1 < 64 {
                lemma_pow2_strictly_increases((i + 1) as nat, 64);
            }
        }
        d = d * 2;
        i = i + 1;
    }
    d
}

impl GitHubApi {
    /// A client for `owner/repo` at the API root `base_url`, whose trailing
    /// slashes are dropped.
    pub fn new(base_url: &str, owner: &str, repo: &str, token: &str, max_retries: u32) -> (api:
        GitHubApi)
        ensures
            api.base_url@ == trim_trailing_slashes(base_url@),
            api.owner@ == owner@,
            api.repo@ == repo@,
            api.token@ == token@,
            api.max_retries == max_retries,
            api.throttle,
    {
        let cv = chars_of(base_url);
        let mut end = cv.len();
        proof {
            assert(base_url@.subrange(0, end as int) =~= base_url@);
        }
        while end > 0 && cv[end - 1] == '/'
            invariant
                cv@ == base_url@,
                end <= cv.len(),
                trim_trailing_slashes(base_url@) == trim_trailing_slashes(
                    base_url@.subrange(0, end as int),
                ),
            decreases end,
        {
            proof {
                assert(base_url@.subrange(0, end as int).drop_last() =~= base_url@.subrange(
                    0,
                    end - 1,
                ));
            }
            end = end - 1;
        }
        let trimmed = base_url.substring_char(0, end);
        GitHubApi {
            base_url: String::from_str(trimmed),
            owner: String::from_str(owner),
            repo: String::from_str(repo),
            token: String::from_str(token),
            max_retries,
            throttle: true,
        }
    }

    /// Turn waiting before retries on or off.
    pub fn set_throttle(&mut self, throttle: bool)
        ensures
            final(self).throttle == throttle,
            final(self).base_url@ == old(self).base_url@,
            final(self).owner@ == old(self).owner@,
            final(self).repo@ == old(self).repo@,
            final(self).token@ == old(self).token@,
            final(self).max_retries == old(self).max_retries,
    {
        self.throttle = throttle;
    }

    /// The full URL of an endpoint: `<base>/repos/<owner>/<repo>/<path>`.
    pub fn url(&self, endpoint: &Endpoint) -> (u: String)
        ensures
            u@ == self.base_url@ + "/repos/"@ + self.owner@ + "/"@ + self.repo@ + "/"@
                + endpoint_path(*endpoint),
    {
        let path = match endpoint {
            Endpoint::GetRef(r) => String::from_str("git/ref/").concat(r.as_str()),
            Endpoint::GetTag(sha) => String::from_str("git/tags/").concat(sha.as_str()),
            Endpoint::GetCommit(sha) => String::from_str("git/commits/").concat(sha.as_str()),
            Endpoint::CreateBlob => String::from_str("git/blobs"),
            Endpoint::CreateTree => String::from_str("git/trees"),
            Endpoint::CreateCommit => String::from_str("git/commits"),
            Endpoint::UpdateRef(r) => String::from_str("git/refs/").concat(r.as_str()),
        };
        self.base_url.clone().concat("/repos/").concat(self.owner.as_str()).concat("/").concat(
            self.repo.as_str(),
        ).concat("/").concat(path.as_str())
    }

    /// The headers sent with every request, as (name, value) pairs.
    pub fn request_headers(&self) -> (h: Vec<(String, String)>)
        ensures
            h@.len() == 4,
            h@[0].0@ == "Authorization"@ && h@[0].1@ == "Bearer "@ + self.token@,
            h@[1].0@ == "Accept"@ && h@[1].1@ == "application/vnd.github+json"@,
            h@[2].0@ == "User-Agent"@ && h@[2].1@ == "verified-bot-commit"@,
            h@[3].0@ == "X-GitHub-Api-Version"@ && h@[3].1@ == "2022-11-28"@,
    {
        let mut h: Vec<(String, String)> = Vec::new();
        h.push(
            (
                String::from_str("Authorization"),
                String::from_str("Bearer ").concat(self.token.as_str()),
            ),
        );
        h.push((String::from_str("Accept"), String::from_str("application/vnd.github+json")));
        h.push((String::from_str("User-Agent"), String::from_str("verified-bot-commit")));
        h.push((String::from_str("X-GitHub-Api-Version"), String::from_str("2022-11-28")));
        h
    }

    /// What to do after attempt number `attempt` (counted from zero) ended
    /// with `outcome`. A request is tried `max_retries + 1` times at most.
    /// Before retry `k + 1` the client waits `2^k` seconds, or not at all
    /// with throttling off.
    pub fn retry_step(&self, attempt: u32, outcome: &AttemptOutcome) -> (step: RetryStep)
        requires
            attempt <= self.max_retries,
            attempt < self.max_retries && self.throttle ==> attempt < 64,
        ensures
            outcome is Success ==> step == RetryStep::Done,
            !(outcome is Success) && attempt < self.max_retries ==> (step matches RetryStep::Retry {
                delay_secs,
                warning,
            } && delay_secs == (if self.throttle {
                pow2(attempt as nat)
            } else {
                0
            }) && warning@ == retry_warning(
                attempt,
                self.max_retries,
                *outcome,
            )),
            !(outcome is Success) && attempt == self.max_retries ==> (step matches RetryStep::Fail {
                error,
            } && error@ == failure_text(*outcome)),
    {
        match outcome {
            AttemptOutcome::Success => RetryStep::Done,
            AttemptOutcome::HttpFailure { status, status_text, body } => {
                let error = String::from_str("HTTP ").concat(status_text.as_str()).concat(
                    ": ",
                ).concat(body.as_str());
                if attempt < self.max_retries {
                    let label = attempt_label_text(attempt, self.max_retries);
                    let warning = if *status == 429 || *status == 403 {
                        String::from_str("::warning::Rate limited ").concat(label.as_str()).concat(
                            ", retrying...",
                        )
                    } else {
                        String::from_str("::warning::Request failed ").concat(
                            label.as_str(),
                        ).concat(": ").concat(error.as_str())
                    };
                    RetryStep::Retry {
                        delay_secs: if self.throttle {
                            backoff_secs(attempt)
                        } else {
                            0
                        },
                        warning,
                    }
                } else {
                    RetryStep::Fail { error }
                }
            },
            AttemptOutcome::TransportFailure { message } => {
                if attempt < self.max_retries {
                    let label = attempt_label_text(attempt, self.max_retries);
                    let warning = String::from_str("::warning::Request error ").concat(
                        label.as_str(),
                    ).concat(": ").concat(message.as_str());
                    RetryStep::Retry {
                        delay_secs: if self.throttle {
                            backoff_secs(attempt)
                        } else {
                            0
                        },
                        warning,
                    }
                } else {
                    RetryStep::Fail { error: message.clone() }
                }
            },
        }
    }
}

fn attempt_label_text(attempt: u32, max_retries: u32) -> (s: String)
    requires
        attempt < max_retries,
    ensures
        s@ == attempt_label(attempt, max_retries),
{
    let n = decimal(attempt as u64 + 1);
    let m = decimal(max_retries as u64);
    String::from_str("(attempt ").concat(n.as_str()).concat("/").concat(m.as_str()).concat(")")
}

} // verus!

verus! {

/// The API root kept by a client never ends in `/`, and trimming it again
/// changes nothing, so request URLs hold no doubled slash after the root.
pub proof fn lemma_trimmed_base_url(s: Seq<char>)
    ensures
        trim_trailing_slashes(s).len() > 0 ==> trim_trailing_slashes(s).last() != '/',
        trim_trailing_slashes(trim_trailing_slashes(s)) == trim_trailing_slashes(s),
    decreases s.len(),
{
    if s.len() > 0 && s.last() == '/' {
        lemma_trimmed_base_url(s.drop_last());
    }
}

} // verus!

verus! {

/// The seconds waited before the first `n` retries: `2^0 + ... + 2^(n-1)`.
pub open spec fn total_backoff(n: nat) -> nat
    decreases n,
{
    if n == 0 {
        0
    } else {
        total_backoff((n - 1) as nat) + pow2((n - 1) as nat)
    }
}

/// The backoff doubles with each retry, so a request that fails every one
/// of its `max_retries + 1` attempts has waited `2^max_retries - 1` seconds
/// in all before the client gives up.
pub proof fn lemma_total_backoff(n: nat)
    ensures
        total_backoff(n) + 1 == pow2(n),
    decreases n,
{
    if n == 0 {
        lemma2_to64();
    } else {
        lemma_total_backoff((n - 1) as nat);
        lemma_pow2_unfold(n);
    }
}

} // verus!
