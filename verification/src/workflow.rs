//! The decisions of the commit workflow: reading the action's inputs,
//! finding the changed files, what to do when there is nothing to commit,
//! the outputs it sets and how the local branch is brought up to date.

use vstd::prelude::*;
use crate::text::{chars_of, keep_nonempty, nonempty_lines, spec_trim, str_lines, string_views, trim, same_text, starts_with, has_prefix};
use crate::inputs::{get_bool_input, get_multiline_input, parse_max_retries, spec_bool_input, spec_max_retries, spec_multiline_input};
use crate::git::{build_commit_message, spec_commit_message, text_result, GitBlob};
use crate::refs::{normalize_ref, spec_normalize_ref};
use crate::api::{trim_trailing_slashes, GitHubApi};

verus! {

/// How a message is reported on the workflow log.
#[derive(Debug, Clone, Copy, PartialEq, Eq, Structural)]
pub enum LogLevel {
    Info,
    Notice,
    Warning,
}

/// How the `if-no-commit` setting reports that nothing is committed:
/// `error` fails the action with the message, `warning` and `notice` log it
/// at that level, anything else logs it as plain information.
pub open spec fn spec_no_commit_report(action: Seq<char>, msg: Seq<char>) -> Result<LogLevel, Seq<char>> {
    if action == "error"@ {
        Err(msg)
    } else if action == "warning"@ {
        Ok(LogLevel::Warning)
    } else if action == "notice"@ {
        Ok(LogLevel::Notice)
    } else {
        Ok(LogLevel::Info)
    }
}

/// Report that nothing is committed as the `if-no-commit` setting asks:
/// the level to log `msg` at, or the error that fails the action.
pub fn emit_no_commit_message(action: &str, msg: &str) -> (r: Result<LogLevel, String>)
    ensures
        match (r, spec_no_commit_report(action@, msg@)) {
            (Ok(l), Ok(k)) => l == k,
            (Err(e), Err(t)) => e@ == t,
            _ => false,
        },
{
    if same_text(action, "error") {
        Err(String::from_str(msg))
    } else if same_text(action, "warning") {
        Ok(LogLevel::Warning)
    } else if same_text(action, "notice") {
        Ok(LogLevel::Notice)
    } else {
        Ok(LogLevel::Info)
    }
}

/// The line that logs `msg` at a level, as workflow commands write it.
pub open spec fn spec_log_line(level: LogLevel, msg: Seq<char>) -> Seq<char> {
    match level {
        LogLevel::Info => msg,
        LogLevel::Notice => "::notice::"@ + msg,
        LogLevel::Warning => "::warning::"@ + msg,
    }
}

/// The line to print to log `msg` at `level`.
pub fn log_line(level: LogLevel, msg: &str) -> (line: String)
    ensures
        line@ == spec_log_line(level, msg@),
{
    match level {
        LogLevel::Info => String::from_str(msg),
        LogLevel::Notice => String::from_str("::notice::").concat(msg),
        LogLevel::Warning => String::from_str("::warning::").concat(msg),
    }
}

/// The two forms of setting an output: the `::set-output` command printed
/// to standard output, and the `name=value` line appended to the file named
/// by `GITHUB_OUTPUT`.
pub fn set_output_lines(name: &str, value: &str) -> (lines: (String, String))
    ensures
        lines.0@ == "::set-output name="@ + name@ + "::"@ + value@,
        lines.1@ == name@ + "="@ + value@,
{
    let command = String::from_str("::set-output name=").concat(name).concat("::").concat(value);
    let entry = String::from_str(name).concat("=").concat(value);
    (command, entry)
}

/// What the workflow does at a point where something may be missing.
#[derive(Debug, Clone, Copy, PartialEq, Eq, Structural)]
pub enum Proceed {
    /// There is something to work on: go on.
    Continue,
    /// Nothing is there: log the message at this level and go on anyway.
    ReportAndContinue(LogLevel),
    /// Nothing is there: log the message at this level and end successfully.
    ReportAndStop(LogLevel),
}

/// The step taken where the workflow holds `count` changed files or blobs. When
/// there are none, the `if-no-commit` setting reports `msg`, and the
/// workflow goes on only where empty commits are allowed.
pub open spec fn spec_nothing_to_commit_step(
    count: nat,
    action: Seq<char>,
    allow_empty_commit: bool,
    msg: Seq<char>,
) -> Result<Proceed, Seq<char>> {
    if count > 0 {
        Ok(Proceed::Continue)
    } else {
        match spec_no_commit_report(action, msg) {
            Err(e) => Err(e),
            Ok(l) => if allow_empty_commit {
                Ok(Proceed::ReportAndContinue(l))
            } else {
                Ok(Proceed::ReportAndStop(l))
            },
        }
    }
}

/// Decide how to go on after finding `count` things to commit.
pub fn nothing_to_commit_step(count: usize, action: &str, allow_empty_commit: bool, msg: &str) -> (r: Result<
    Proceed,
    String,
>)
    ensures
        match (r, spec_nothing_to_commit_step(count as nat, action@, allow_empty_commit, msg@)) {
            (Ok(g), Ok(h)) => g == h,
            (Err(e), Err(t)) => e@ == t,
            _ => false,
        },
        count > 0 ==> r == Ok::<Proceed, String>(Proceed::Continue),
        count == 0 && !allow_empty_commit ==> (r is Err || r matches Ok(Proceed::ReportAndStop(_))),
        count == 0 && allow_empty_commit ==> (r is Err || r matches Ok(
            Proceed::ReportAndContinue(_),
        )),
{
    if count > 0 {
        return Ok(Proceed::Continue);
    }
    let level = emit_no_commit_message(action, msg)?;
    if allow_empty_commit {
        Ok(Proceed::ReportAndContinue(level))
    } else {
        Ok(Proceed::ReportAndStop(level))
    }
}

/// The changed files that `git diff --cached --name-only` printed: the
/// non-empty lines of its trimmed output.
pub open spec fn spec_changed_files(output: Seq<char>) -> Seq<Seq<char>> {
    keep_nonempty(str_lines(spec_trim(output)))
}

/// The changed files listed in the output of `git diff --cached --name-only`.
pub fn parse_changed_files(output: &str) -> (files: Vec<String>)
    ensures
        string_views(files@) == spec_changed_files(output@),
{
    nonempty_lines(trim(output))
}

/// The arguments of the `git` command that brings the local branch up to
/// date with `refs/<git_ref>`: a forced tag fetch for tags, a pull else.
pub open spec fn spec_local_update_args(git_ref: Seq<char>) -> Seq<Seq<char>> {
    if has_prefix(git_ref, "tags/"@) {
        seq!["fetch"@, "origin"@, "refs/"@ + git_ref, "--tags"@, "--force"@]
    } else {
        seq!["pull"@, "origin"@, "refs/"@ + git_ref]
    }
}

/// The `git` arguments that update the local ref after the commit.
pub fn local_update_args(git_ref: &str) -> (args: Vec<String>)
    ensures
        string_views(args@) == spec_local_update_args(git_ref@),
{
    let full = String::from_str("refs/").concat(git_ref);
    let mut args: Vec<String> = Vec::new();
    if starts_with(git_ref, "tags/") {
        args.push(String::from_str("fetch"));
        args.push(String::from_str("origin"));
        args.push(full);
        args.push(String::from_str("--tags"));
        args.push(String::from_str("--force"));
    } else {
        args.push(String::from_str("pull"));
        args.push(String::from_str("origin"));
        args.push(full);
    }
    proof {
        assert(string_views(args@) =~= spec_local_update_args(git_ref@));
    }
    args
}

/// Split `owner/name` at its first `/`.
pub fn parse_repository(repository: &str) -> (r: Result<(String, String), String>)
    ensures
        !repository@.contains('/') ==> (r matches Err(e) && e@
            == "Repository must be in the format 'owner/name'"@),
        repository@.contains('/') ==> (r matches Ok((owner, name)) && repository@ == owner@ + "/"@
            + name@ && !owner@.contains('/')),
{
    proof {
        reveal_strlit("/");
    }
    let cv = chars_of(repository);
    let n = cv.len();
    let mut i: usize = 0;
    while i < n
        invariant
            cv@ == repository@,
            n == cv.len(),
            i <= n,
            forall|j: int| 0 <= j < i ==> cv@[j] != '/',
        decreases n - i,
    {
        if cv[i] == '/' {
            let owner = repository.substring_char(0, i);
            let name = repository.substring_char(i + 1, n);
            proof {
                reveal_strlit("/");
                assert(repository@ =~= owner@ + "/"@ + name@);
                if owner@.contains('/') {
                    let k = choose|k: int| 0 <= k < owner@.len() && owner@[k] == '/';
                    assert(cv@[k] == '/');
                }
            }
            return Ok((String::from_str(owner), String::from_str(name)));
        }
        i = i + 1;
    }
    proof {
        if repository@.contains('/') {
            let k = choose|k: int| 0 <= k < repository@.len() && repository@[k] == '/';
            assert(cv@[k] == '/');
        }
    }
    Err(String::from_str("Repository must be in the format 'owner/name'"))
}

} // verus!

verus! {

#[verifier::external_type_specification]
#[verifier::external_body]
pub struct ExJsonError(serde_json::Error);

/// The JSON text of an array of strings, as `serde_json::to_string` writes it.
pub uninterp spec fn json_string_array(items: Seq<Seq<char>>) -> Seq<char>;

/// Calls `serde_json::to_string` on a list of strings. Claimed: it succeeds,
/// and its text is the named function of the strings. The crate documents
/// that serialization fails only where a type's `Serialize` impl fails or a
/// map has non-string keys; a list of strings has neither, and the writer is
/// a `Vec<u8>`, which does not fail.
#[verifier::external_body]
fn json_string_list(items: &Vec<String>) -> (r: Result<String, serde_json::Error>)
    ensures
        r is Ok,
        r matches Ok(s) ==> s@ == json_string_array(string_views(items@)),
{
    serde_json::to_string(items)
}

/// The SHAs of a list of blobs, in order.
pub open spec fn blob_shas(blobs: Seq<GitBlob>) -> Seq<Seq<char>> {
    blobs.map_values(|b: GitBlob| b.sha@)
}

/// The `blobs` output: a JSON list of the SHAs of the blobs in the tree.
pub fn blobs_output(blobs: &Vec<GitBlob>) -> (out: String)
    ensures
        out@ == json_string_array(blob_shas(blobs@)),
{
    let mut shas: Vec<String> = Vec::new();
    let mut i: usize = 0;
    while i < blobs.len()
        invariant
            i <= blobs@.len(),
            string_views(shas@) == blob_shas(blobs@.take(i as int)),
        decreases blobs.len() - i,
    {
        let ghost before = shas@;
        shas.push(blobs[i].sha.clone());
        proof {
            assert(blobs@.take(i + 1) =~= blobs@.take(i as int).push(blobs@[i as int]));
            assert(string_views(shas@) =~= string_views(before).push(blobs@[i as int].sha@));
            assert(blob_shas(blobs@.take(i + 1)) =~= blob_shas(blobs@.take(i as int)).push(
                blobs@[i as int].sha@,
            ));
        }
        i = i + 1;
    }
    proof {
        assert(blobs@.take(blobs@.len() as int) =~= blobs@);
    }
    match json_string_list(&shas) {
        Ok(s) => s,
        Err(_) => String::new(),
    }
}

/// The action's inputs as the runner passes them, unparsed.
pub struct ActionInputs {
    pub repository: String,
    pub git_ref: String,
    pub files: String,
    pub message: String,
    pub message_file: String,
    pub auto_stage: String,
    pub update_local: String,
    pub force_push: String,
    pub if_no_commit: String,
    pub allow_empty_commit: String,
    pub no_throttle: String,
    pub no_retry: String,
    pub max_retries: String,
    pub follow_symlinks: String,
    pub workspace: String,
    pub api_url: String,
    pub token: String,
}

/// The action's settings, read from its inputs.
pub struct ActionConfig {
    pub owner: String,
    pub repo: String,
    pub git_ref: String,
    pub patterns: Vec<String>,
    pub message: String,
    pub auto_stage: bool,
    pub update_local: bool,
    pub force_push: bool,
    pub no_commit_action: String,
    pub allow_empty_commit: bool,
    pub no_throttle: bool,
    pub no_retry: bool,
    pub max_retries: u32,
    pub follow_symlinks: bool,
    pub workspace: String,
    pub api_url: String,
    pub token: String,
}

impl ActionConfig {
    /// The API client these settings ask for: retries as `max-retries`
    /// says (none with `no-retry`), and waits before retries unless
    /// `no-throttle`.
    pub fn api(&self) -> (api: GitHubApi)
        ensures
            api.base_url@ == trim_trailing_slashes(self.api_url@),
            api.owner@ == self.owner@,
            api.repo@ == self.repo@,
            api.token@ == self.token@,
            api.max_retries == self.max_retries,
            api.throttle == !self.no_throttle,
    {
        let mut api = GitHubApi::new(
            self.api_url.as_str(),
            self.owner.as_str(),
            self.repo.as_str(),
            self.token.as_str(),
            self.max_retries,
        );
        api.set_throttle(!self.no_throttle);
        api
    }
}

/// The `if-no-commit` behavior in force: `ignore` where empty commits are
/// allowed, else the input as given.
pub open spec fn spec_no_commit_action(allow_empty_commit: bool, if_no_commit: Seq<char>) -> Seq<
    char,
> {
    if allow_empty_commit {
        "ignore"@
    } else {
        if_no_commit
    }
}

/// `cfg` is what the inputs `raw` say, with commit message `message`.
pub open spec fn config_from(raw: ActionInputs, message: Seq<char>, cfg: ActionConfig) -> bool {
    &&& raw.repository@ == cfg.owner@ + "/"@ + cfg.repo@
    &&& !cfg.owner@.contains('/')
    &&& cfg.git_ref@ == spec_normalize_ref(raw.git_ref@)
    &&& string_views(cfg.patterns@) == spec_multiline_input(raw.files@)
    &&& cfg.message@ == message
    &&& cfg.auto_stage == spec_bool_input(raw.auto_stage@)
    &&& cfg.update_local == spec_bool_input(raw.update_local@)
    &&& cfg.force_push == spec_bool_input(raw.force_push@)
    &&& cfg.allow_empty_commit == spec_bool_input(raw.allow_empty_commit@)
    &&& cfg.no_commit_action@ == spec_no_commit_action(
        cfg.allow_empty_commit,
        raw.if_no_commit@,
    )
    &&& cfg.no_throttle == spec_bool_input(raw.no_throttle@)
    &&& cfg.no_retry == spec_bool_input(raw.no_retry@)
    &&& cfg.max_retries == (if cfg.no_retry {
        0
    } else {
        spec_max_retries(raw.max_retries@)
    })
    &&& cfg.follow_symlinks == spec_bool_input(raw.follow_symlinks@)
    &&& cfg.workspace@ == raw.workspace@
    &&& cfg.api_url@ == raw.api_url@
    &&& cfg.token@ == raw.token@
}

/// Read the action's settings from its inputs. `message_file_text` is what
/// reading the message file gave, where one is named. The commit message is
/// checked first, then the repository's `owner/name` form.
pub fn parse_action_inputs(raw: &ActionInputs, message_file_text: &Result<String, String>) -> (r:
    Result<ActionConfig, String>)
    ensures
        match spec_commit_message(raw.message@, raw.message_file@, text_result(*message_file_text)) {
            Err(e) => r matches Err(x) && x@ == e,
            Ok(m) => if raw.repository@.contains('/') {
                r matches Ok(cfg) && config_from(*raw, m, cfg)
            } else {
                r matches Err(x) && x@ == "Repository must be in the format 'owner/name'"@
            },
        },
        r matches Ok(cfg) ==> (cfg.allow_empty_commit ==> cfg.no_commit_action@ == "ignore"@) && (
        !cfg.allow_empty_commit ==> cfg.no_commit_action@ == raw.if_no_commit@),
{
    let no_throttle = get_bool_input(raw.no_throttle.as_str());
    let no_retry = get_bool_input(raw.no_retry.as_str());
    let max_retries = if no_retry {
        0
    } else {
        parse_max_retries(raw.max_retries.as_str())
    };
    let auto_stage = get_bool_input(raw.auto_stage.as_str());
    let update_local = get_bool_input(raw.update_local.as_str());
    let force_push = get_bool_input(raw.force_push.as_str());
    let allow_empty_commit = get_bool_input(raw.allow_empty_commit.as_str());
    let follow_symlinks = get_bool_input(raw.follow_symlinks.as_str());
    let patterns = get_multiline_input(raw.files.as_str());
    let no_commit_action = if allow_empty_commit {
        String::from_str("ignore")
    } else {
        raw.if_no_commit.clone()
    };
    let message = build_commit_message(
        raw.message.as_str(),
        raw.message_file.as_str(),
        message_file_text,
    )?;
    let (owner, repo) = parse_repository(raw.repository.as_str())?;
    let git_ref = normalize_ref(raw.git_ref.as_str());
    Ok(
        ActionConfig {
            owner,
            repo,
            git_ref,
            patterns,
            message,
            auto_stage,
            update_local,
            force_push,
            no_commit_action,
            allow_empty_commit,
            no_throttle,
            no_retry,
            max_retries,
            follow_symlinks,
            workspace: raw.workspace.clone(),
            api_url: raw.api_url.clone(),
            token: raw.token.clone(),
        },
    )
}

} // verus!

verus! {

/// Allowing empty commits means going on: with `allow-empty-commit`, the
/// `if-no-commit` setting becomes `ignore`, so a point where nothing was
/// found never fails the action nor ends it, and only logs as information.
pub proof fn lemma_empty_commit_allowed_goes_on(count: nat, if_no_commit: Seq<char>, msg: Seq<char>)
    ensures
        spec_nothing_to_commit_step(count, spec_no_commit_action(true, if_no_commit), true, msg) == (if count
            > 0 {
            Ok::<Proceed, Seq<char>>(Proceed::Continue)
        } else {
            Ok::<Proceed, Seq<char>>(Proceed::ReportAndContinue(LogLevel::Info))
        }),
{
    reveal_strlit("ignore");
    reveal_strlit("error");
    reveal_strlit("warning");
    reveal_strlit("notice");
    assert("ignore"@[0] != "error"@[0]);
    assert("ignore"@[0] != "warning"@[0]);
    assert("ignore"@[0] != "notice"@[0]);
}

/// The action fails at a point where nothing was found exactly when
/// `if-no-commit` is `error`, and then with the point's message.
pub proof fn lemma_no_commit_fails_only_on_error(
    count: nat,
    action: Seq<char>,
    allow_empty_commit: bool,
    msg: Seq<char>,
)
    ensures
        spec_nothing_to_commit_step(count, action, allow_empty_commit, msg) is Err <==> (count == 0 && action
            == "error"@),
        spec_nothing_to_commit_step(count, action, allow_empty_commit, msg) matches Err(e) ==> e == msg,
{
}

} // verus!

verus! {

/// Where the workflow commits once its blobs exist: the head it builds on,
/// the message, the ref it moves and how.
pub struct CommitPlan {
    pub head_commit: String,
    pub head_tree: String,
    pub message: String,
    pub git_ref: String,
    pub force_push: bool,
    pub update_local: bool,
}

/// What happened last while publishing the commit.
#[derive(Debug, Clone, PartialEq, Eq)]
pub enum PublishEvent {
    /// The blobs of the commit exist (none: the head's tree is reused).
    BlobsReady { count: usize },
    /// The tree of the commit was created.
    TreeCreated { sha: String },
    /// The commit was created.
    CommitCreated { sha: String },
    /// The ref was moved; the SHA it points to now.
    RefUpdated { sha: String },
}

/// What to do next while publishing the commit.
#[derive(Debug, Clone, PartialEq, Eq)]
pub enum PublishAction {
    /// Create a tree of the blobs on top of `base_tree`.
    CreateTree { base_tree: String },
    /// Create a commit of `tree` with `parent` as its only parent.
    CreateCommit { tree: String, parent: String, message: String },
    /// Point `git_ref` at `sha`, forcing where `force`.
    UpdateRef { git_ref: String, sha: String, force: bool },
    /// Run `git` with these arguments in the workspace, then finish.
    UpdateLocal { args: Vec<String> },
    /// Finish successfully.
    Finish,
}

/// One step of publishing: an output to set first, if any, then an action.
#[derive(Debug, Clone, PartialEq, Eq)]
pub struct PublishStep {
    pub output: Option<(String, String)>,
    pub action: PublishAction,
}

/// The step sets output `name` to `value`.
pub open spec fn sets_output(step: PublishStep, name: Seq<char>, value: Seq<char>) -> bool {
    step.output matches Some((n, v)) && n@ == name && v@ == value
}

/// The step creates a commit of `tree` on the head with the plan's message.
pub open spec fn commits_tree(step: PublishStep, plan: CommitPlan, tree: Seq<char>) -> bool {
    step.action matches PublishAction::CreateCommit { tree: t, parent, message } && t@ == tree
        && parent@ == plan.head_commit@ && message@ == plan.message@
}

impl CommitPlan {
    /// The next step of publishing the commit. The order is fixed: a tree
    /// (created from the blobs, or the head's tree where there are none),
    /// then a commit of that tree whose only parent is the head commit and
    /// whose message is the plan's, then the plan's ref moved to that commit
    /// (forced as `force-push` says), then the local branch updated where
    /// asked. The `tree`, `commit` and `ref` outputs are set as each is known.
    pub fn publish_step(&self, event: &PublishEvent) -> (step: PublishStep)
        ensures
            match *event {
                PublishEvent::BlobsReady { count } => if count > 0 {
                    step.output is None && (step.action matches PublishAction::CreateTree {
                        base_tree,
                    } && base_tree@ == self.head_tree@)
                } else {
                    sets_output(step, "tree"@, self.head_tree@) && commits_tree(
                        step,
                        *self,
                        self.head_tree@,
                    )
                },
                PublishEvent::TreeCreated { sha } => sets_output(step, "tree"@, sha@)
                    && commits_tree(step, *self, sha@),
                PublishEvent::CommitCreated { sha } => sets_output(step, "commit"@, sha@) && (
                step.action matches PublishAction::UpdateRef { git_ref, sha: s, force }
                    && git_ref@ == self.git_ref@ && s@ == sha@ && force == self.force_push),
                PublishEvent::RefUpdated { sha } => sets_output(step, "ref"@, sha@) && (if self.update_local {
                    step.action matches PublishAction::UpdateLocal { args } && string_views(args@)
                        == spec_local_update_args(self.git_ref@)
                } else {
                    step.action is Finish
                }),
            },
    {
        match event {
            PublishEvent::BlobsReady { count } => {
                if *count > 0 {
                    PublishStep {
                        output: None,
                        action: PublishAction::CreateTree { base_tree: self.head_tree.clone() },
                    }
                } else {
                    PublishStep {
                        output: Some((String::from_str("tree"), self.head_tree.clone())),
                        action: PublishAction::CreateCommit {
                            tree: self.head_tree.clone(),
                            parent: self.head_commit.clone(),
                            message: self.message.clone(),
                        },
                    }
                }
            },
            PublishEvent::TreeCreated { sha } => PublishStep {
                output: Some((String::from_str("tree"), sha.clone())),
                action: PublishAction::CreateCommit {
                    tree: sha.clone(),
                    parent: self.head_commit.clone(),
                    message: self.message.clone(),
                },
            },
            PublishEvent::CommitCreated { sha } => PublishStep {
                output: Some((String::from_str("commit"), sha.clone())),
                action: PublishAction::UpdateRef {
                    git_ref: self.git_ref.clone(),
                    sha: sha.clone(),
                    force: self.force_push,
                },
            },
            PublishEvent::RefUpdated { sha } => {
                let action = if self.update_local {
                    PublishAction::UpdateLocal { args: local_update_args(self.git_ref.as_str()) }
                } else {
                    PublishAction::Finish
                };
                PublishStep { output: Some((String::from_str("ref"), sha.clone())), action }
            },
        }
    }
}

} // verus!

verus! {

/// With nothing to commit, the workflow goes on only where empty commits
/// are allowed: otherwise it fails or stops, whatever `if-no-commit` says;
/// with something to commit it always goes on.
pub proof fn lemma_nothing_to_commit_goes_on_only_if_allowed(
    count: nat,
    action: Seq<char>,
    allow_empty_commit: bool,
    msg: Seq<char>,
)
    ensures
        count > 0 ==> spec_nothing_to_commit_step(count, action, allow_empty_commit, msg) == Ok::<
            Proceed,
            Seq<char>,
        >(Proceed::Continue),
        count == 0 && !allow_empty_commit ==> match spec_nothing_to_commit_step(
            count,
            action,
            allow_empty_commit,
            msg,
        ) {
            Ok(p) => p is ReportAndStop,
            Err(_) => true,
        },
        count == 0 && allow_empty_commit ==> match spec_nothing_to_commit_step(
            count,
            action,
            allow_empty_commit,
            msg,
        ) {
            Ok(p) => p is ReportAndContinue,
            Err(_) => true,
        },
{
}

/// The `if-no-commit` setting is taken as given unless empty commits are
/// allowed, in which case it is `ignore`.
pub proof fn lemma_no_commit_action_as_given(if_no_commit: Seq<char>)
    ensures
        spec_no_commit_action(false, if_no_commit) == if_no_commit,
        spec_no_commit_action(true, if_no_commit) == "ignore"@,
{
}

} // verus!
