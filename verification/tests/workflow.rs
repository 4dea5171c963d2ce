use verified_bot_commit::git::{GitBlob, GitMode};
use verified_bot_commit::workflow::{
    blobs_output, nothing_to_commit_step, emit_no_commit_message, local_update_args, log_line,
    parse_action_inputs, parse_changed_files, parse_repository, set_output_lines, ActionInputs,
    CommitPlan, LogLevel, Proceed, PublishAction, PublishEvent,
};

#[test]
fn no_commit_levels() {
    assert_eq!(emit_no_commit_message("error", "m").unwrap_err(), "m");
    assert_eq!(emit_no_commit_message("warning", "m").unwrap(), LogLevel::Warning);
    assert_eq!(emit_no_commit_message("notice", "m").unwrap(), LogLevel::Notice);
    assert_eq!(emit_no_commit_message("info", "m").unwrap(), LogLevel::Info);
    assert_eq!(emit_no_commit_message("ignore", "m").unwrap(), LogLevel::Info);
    assert_eq!(emit_no_commit_message("", "m").unwrap(), LogLevel::Info);
}

#[test]
fn log_lines() {
    assert_eq!(log_line(LogLevel::Info, "hi"), "hi");
    assert_eq!(log_line(LogLevel::Notice, "hi"), "::notice::hi");
    assert_eq!(log_line(LogLevel::Warning, "hi"), "::warning::hi");
}

#[test]
fn output_lines() {
    let (cmd, entry) = set_output_lines("tree", "abc");
    assert_eq!(cmd, "::set-output name=tree::abc");
    assert_eq!(entry, "tree=abc");
}

#[test]
fn nothing_to_commit_steps() {
    assert_eq!(nothing_to_commit_step(2, "error", false, "No files to commit").unwrap(), Proceed::Continue);
    assert_eq!(nothing_to_commit_step(0, "error", false, "No files to commit").unwrap_err(), "No files to commit");
    assert_eq!(nothing_to_commit_step(0, "warning", false, "x").unwrap(), Proceed::ReportAndStop(LogLevel::Warning));
    assert_eq!(nothing_to_commit_step(0, "ignore", true, "x").unwrap(), Proceed::ReportAndContinue(LogLevel::Info));
}

#[test]
fn changed_files_from_git_output() {
    assert_eq!(parse_changed_files("a.txt\nsrc/b.rs\n"), vec!["a.txt", "src/b.rs"]);
    assert_eq!(parse_changed_files("\n  a.txt\n\nb c.txt  \n"), vec!["a.txt", "b c.txt"]);
    assert_eq!(parse_changed_files(""), Vec::<String>::new());
    assert_eq!(parse_changed_files(" \t\n "), Vec::<String>::new());
}

#[test]
fn local_update() {
    assert_eq!(local_update_args("heads/main"), vec!["pull", "origin", "refs/heads/main"]);
    assert_eq!(
        local_update_args("tags/v1"),
        vec!["fetch", "origin", "refs/tags/v1", "--tags", "--force"]
    );
}

#[test]
fn repository_split() {
    let (o, r) = parse_repository("octo/repo").unwrap();
    assert_eq!((o.as_str(), r.as_str()), ("octo", "repo"));
    let (o, r) = parse_repository("octo/repo/extra").unwrap();
    assert_eq!((o.as_str(), r.as_str()), ("octo", "repo/extra"));
    assert_eq!(
        parse_repository("octo").unwrap_err(),
        "Repository must be in the format 'owner/name'"
    );
}

#[test]
fn blobs_json() {
    let blobs = vec![
        GitBlob::new("a", GitMode::RegularFile, "s1".to_string()),
        GitBlob::new("b", GitMode::ExecutableFile, "s\"2".to_string()),
    ];
    assert_eq!(blobs_output(&blobs), r#"["s1","s\"2"]"#);
    assert_eq!(blobs_output(&Vec::new()), "[]");
}

fn raw() -> ActionInputs {
    ActionInputs {
        repository: "octo/repo".to_string(),
        git_ref: "refs/heads/main".to_string(),
        files: "README.md\n*.txt\n".to_string(),
        message: "chore: update".to_string(),
        message_file: String::new(),
        auto_stage: "true".to_string(),
        update_local: "TRUE".to_string(),
        force_push: "false".to_string(),
        if_no_commit: "warning".to_string(),
        allow_empty_commit: "false".to_string(),
        no_throttle: "false".to_string(),
        no_retry: "false".to_string(),
        max_retries: "3".to_string(),
        follow_symlinks: "true".to_string(),
        workspace: "/ws".to_string(),
        api_url: "https://api.github.com/".to_string(),
        token: "tok".to_string(),
    }
}

#[test]
fn action_inputs_parse() {
    let cfg = parse_action_inputs(&raw(), &Ok(String::new())).unwrap();
    assert_eq!(cfg.owner, "octo");
    assert_eq!(cfg.repo, "repo");
    assert_eq!(cfg.git_ref, "heads/main");
    assert_eq!(cfg.patterns, vec!["README.md", "*.txt"]);
    assert_eq!(cfg.message, "chore: update");
    assert!(cfg.auto_stage && cfg.update_local && !cfg.force_push && cfg.follow_symlinks);
    assert!(!cfg.allow_empty_commit);
    assert_eq!(cfg.no_commit_action, "warning");
    assert_eq!(cfg.max_retries, 3);
    assert!(!cfg.no_retry && !cfg.no_throttle);
    assert_eq!(cfg.workspace, "/ws");
    assert_eq!(cfg.api_url, "https://api.github.com/");
    assert_eq!(cfg.token, "tok");
}

#[test]
fn action_inputs_allow_empty_commit_ignores() {
    let mut r = raw();
    r.allow_empty_commit = "true".to_string();
    r.max_retries = "lots".to_string();
    let cfg = parse_action_inputs(&r, &Ok(String::new())).unwrap();
    assert_eq!(cfg.no_commit_action, "ignore");
    assert_eq!(cfg.max_retries, 1);
}

#[test]
fn action_inputs_errors_in_order() {
    let mut r = raw();
    r.repository = "norepo".to_string();
    assert_eq!(
        parse_action_inputs(&r, &Ok(String::new())).err().unwrap(),
        "Repository must be in the format 'owner/name'"
    );
    r.message = String::new();
    assert_eq!(parse_action_inputs(&r, &Ok(String::new())).err().unwrap(), "Commit message is empty");
    r.message_file = "m.txt".to_string();
    assert_eq!(parse_action_inputs(&r, &Ok("from file".to_string())).err().unwrap(),
        "Repository must be in the format 'owner/name'");
    r.repository = "o/r".to_string();
    assert_eq!(parse_action_inputs(&r, &Ok("from file".to_string())).ok().unwrap().message, "from file");
}

#[test]
fn action_inputs_no_retry_and_no_throttle() {
    let mut r = raw();
    r.no_retry = "true".to_string();
    r.no_throttle = "True".to_string();
    let cfg = parse_action_inputs(&r, &Ok(String::new())).unwrap();
    assert!(cfg.no_retry && cfg.no_throttle);
    assert_eq!(cfg.max_retries, 0);
    let api = cfg.api();
    assert_eq!(api.max_retries, 0);
    assert!(!api.throttle);
    assert_eq!(api.base_url, "https://api.github.com");
    assert_eq!(api.owner, "octo");
    assert_eq!(api.repo, "repo");
    assert_eq!(api.token, "tok");
}

#[test]
fn action_config_api_defaults() {
    let cfg = parse_action_inputs(&raw(), &Ok(String::new())).unwrap();
    let api = cfg.api();
    assert_eq!(api.max_retries, 3);
    assert!(api.throttle);
}

fn plan(update_local: bool) -> CommitPlan {
    CommitPlan {
        head_commit: "c0".to_string(),
        head_tree: "t0".to_string(),
        message: "msg".to_string(),
        git_ref: "heads/main".to_string(),
        force_push: true,
        update_local,
    }
}

fn out(name: &str, value: &str) -> Option<(String, String)> {
    Some((name.to_string(), value.to_string()))
}

#[test]
fn publish_sequence_with_blobs() {
    let p = plan(true);
    let s = p.publish_step(&PublishEvent::BlobsReady { count: 2 });
    assert_eq!(s.output, None);
    assert_eq!(s.action, PublishAction::CreateTree { base_tree: "t0".to_string() });
    let s = p.publish_step(&PublishEvent::TreeCreated { sha: "t1".to_string() });
    assert_eq!(s.output, out("tree", "t1"));
    assert_eq!(
        s.action,
        PublishAction::CreateCommit {
            tree: "t1".to_string(),
            parent: "c0".to_string(),
            message: "msg".to_string()
        }
    );
    let s = p.publish_step(&PublishEvent::CommitCreated { sha: "c1".to_string() });
    assert_eq!(s.output, out("commit", "c1"));
    assert_eq!(
        s.action,
        PublishAction::UpdateRef {
            git_ref: "heads/main".to_string(),
            sha: "c1".to_string(),
            force: true
        }
    );
    let s = p.publish_step(&PublishEvent::RefUpdated { sha: "c1".to_string() });
    assert_eq!(s.output, out("ref", "c1"));
    assert_eq!(
        s.action,
        PublishAction::UpdateLocal {
            args: vec!["pull".to_string(), "origin".to_string(), "refs/heads/main".to_string()]
        }
    );
}

#[test]
fn publish_empty_commit_reuses_head_tree() {
    let p = plan(false);
    let s = p.publish_step(&PublishEvent::BlobsReady { count: 0 });
    assert_eq!(s.output, out("tree", "t0"));
    assert_eq!(
        s.action,
        PublishAction::CreateCommit {
            tree: "t0".to_string(),
            parent: "c0".to_string(),
            message: "msg".to_string()
        }
    );
    let s = p.publish_step(&PublishEvent::RefUpdated { sha: "c9".to_string() });
    assert_eq!(s.output, out("ref", "c9"));
    assert_eq!(s.action, PublishAction::Finish);
}
