use gba_core::config::GitConfig;
use gba_core::git::{classify_commit, extract_id, replace_all, CommitOutcome, GitOps};

fn test_config() -> GitConfig {
    GitConfig {
        auto_commit: true,
        branch_pattern: "feat/{id}-{slug}".to_owned(),
        base_branch: "main".to_owned(),
    }
}

#[test]
fn test_should_compute_worktree_path() {
    let ops = GitOps::new("/repo".to_owned(), test_config());
    assert_eq!(ops.worktree_path("0001_feature"), "/repo/.trees/0001_feature");
}

#[test]
fn test_should_compute_branch_name_with_id() {
    let ops = GitOps::new("/repo".to_owned(), test_config());
    assert_eq!(ops.branch_name("0001_web_frontend"), "feat/0001-0001_web_frontend");
}

#[test]
fn test_should_compute_branch_name_without_numeric_prefix() {
    let ops = GitOps::new("/repo".to_owned(), test_config());
    assert_eq!(ops.branch_name("web_frontend"), "feat/web_frontend-web_frontend");
}

#[test]
fn test_should_extract_id_from_numbered_slug() {
    assert_eq!(extract_id("0001_feature"), "0001");
    assert_eq!(extract_id("0042_another"), "0042");
}

#[test]
fn test_should_return_full_slug_when_no_numeric_prefix() {
    assert_eq!(extract_id("feature"), "feature");
    assert_eq!(extract_id("abc_123"), "abc_123");
}

#[test]
fn test_should_use_custom_branch_pattern() {
    let config = GitConfig {
        auto_commit: true,
        branch_pattern: "feature/{slug}".to_owned(),
        base_branch: "develop".to_owned(),
    };
    let ops = GitOps::new("/repo".to_owned(), config);
    assert_eq!(ops.branch_name("0001_login"), "feature/0001_login");
}

#[test]
fn branch_templating_examples() {
    let ops = GitOps::new("/repo".to_owned(), test_config());
    assert_eq!(ops.branch_name("0007_auth"), "feat/0007-0007_auth");
    assert_eq!(ops.branch_name("auth"), "feat/auth-auth");
    assert_eq!(extract_id("2024"), "2024");
    assert_eq!(extract_id("_x"), "_x");
    assert_eq!(ops.branch_name("_x"), "feat/_x-_x");
}

#[test]
fn replace_all_replaces_every_occurrence() {
    assert_eq!(replace_all("{a}-{a}-b", "{a}", "x"), "x-x-b");
    assert_eq!(replace_all("aaa", "aa", "b"), "ba");
    assert_eq!(replace_all("", "x", "y"), "");
}

#[test]
fn worktree_path_with_trailing_separator() {
    let ops = GitOps::new("/repo/".to_owned(), test_config());
    assert_eq!(ops.worktree_path("s"), "/repo/.trees/s");
}

#[test]
fn commit_outcomes_are_classified() {
    assert_eq!(classify_commit(Ok("abc123".to_owned())), CommitOutcome::Committed("abc123".to_owned()));
    assert_eq!(
        classify_commit(Err("git commit failed: nothing to commit, working tree clean".to_owned())),
        CommitOutcome::NoChanges
    );
    assert_eq!(
        classify_commit(Err("fatal: not a git repository".to_owned())),
        CommitOutcome::Failed("fatal: not a git repository".to_owned())
    );
}
