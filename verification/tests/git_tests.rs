use redis_agent_worker::git::{GitCommand, GitError, GitRepo, LocalBranch};

#[test]
fn test_git_operations() {
    let (repo, clone) = GitRepo::clone("file:///tmp/remote.git", "/tmp/work/cloned", false).unwrap();
    assert_eq!(
        clone,
        GitCommand::Clone {
            url: "file:///tmp/remote.git".to_string(),
            path: "/tmp/work/cloned".to_string()
        }
    );
    assert_eq!(repo.path(), "/tmp/work/cloned");
    assert_eq!(
        repo.fetch(),
        GitCommand::Fetch {
            remote: "origin".to_string(),
            refspec: "refs/heads/*:refs/remotes/origin/*".to_string()
        }
    );
    assert_eq!(
        repo.checkout_branch("test-branch", LocalBranch::Missing, true),
        Ok(GitCommand::CheckoutRemote {
            revision: "origin/test-branch".to_string(),
            branch: "test-branch".to_string(),
            reference: "refs/heads/test-branch".to_string(),
        })
    );

    // One new file in the working tree.
    assert!(repo.has_changes(1), "Should detect changes");
    assert_eq!(repo.stage_all(), GitCommand::StageAll { pathspec: "*".to_string() });
    assert_eq!(
        repo.commit(
            "Add test file",
            "4b825dc642cb6eb9a060e54bf8d69288fbee4904",
            "d8329fc1cc938780ffdd9f94e0d364e0ea74f579"
        ),
        Ok(GitCommand::Commit {
            update_ref: "HEAD".to_string(),
            message: "Add test file".to_string()
        })
    );
    assert!(!repo.has_changes(0), "Should have no changes after commit");
}

#[test]
fn test_error_commit_without_changes() {
    let repo = GitRepo::open("/tmp/work/clone");
    let tree = "d8329fc1cc938780ffdd9f94e0d364e0ea74f579";
    let result = repo.commit("Empty commit", tree, tree);
    assert!(result.is_err(), "Should fail to commit with no changes");
    assert_eq!(result, Err(GitError::EmptyCommit));
}

#[test]
fn test_error_git_no_changes_detected() {
    let repo = GitRepo::open("/tmp/work/clone");
    assert!(!repo.has_changes(0), "Fresh clone should have no changes");
    assert!(repo.has_changes(3));
    assert!(repo.has_changes(usize::MAX));
}

#[test]
fn test_error_push_without_commit() {
    let repo = GitRepo::open("/tmp/work/clone");
    assert_eq!(
        repo.push("test-branch"),
        GitCommand::Push {
            remote: "origin".to_string(),
            refspec: "refs/heads/test-branch:refs/heads/test-branch".to_string()
        }
    );
}

#[test]
fn clone_refuses_a_directory_that_exists() {
    assert_eq!(
        GitRepo::clone("git@host:u/r.git", "/tmp/work/j1", true).unwrap_err(),
        GitError::PathExists
    );
}

#[test]
fn a_local_branch_is_checked_out_as_it_is() {
    let repo = GitRepo::open("/w");
    assert_eq!(
        repo.checkout_branch(
            "feature/x",
            LocalBranch::Found { reference: Some("refs/heads/feature/x".to_string()) },
            false
        ),
        Ok(GitCommand::CheckoutLocal { reference: "refs/heads/feature/x".to_string() })
    );
    assert_eq!(
        repo.checkout_branch("feature/x", LocalBranch::Found { reference: None }, true),
        Err(GitError::InvalidBranchName)
    );
}

#[test]
fn a_missing_branch_is_created_from_origin() {
    let repo = GitRepo::open("/w");
    assert_eq!(
        repo.checkout_branch("main", LocalBranch::Missing, true),
        Ok(GitCommand::CheckoutRemote {
            revision: "origin/main".to_string(),
            branch: "main".to_string(),
            reference: "refs/heads/main".to_string(),
        })
    );
}

#[test]
fn push_names_the_branch_on_both_sides() {
    let repo = GitRepo::open("/w");
    assert_eq!(
        repo.push("feature/test-branch-123"),
        GitCommand::Push {
            remote: "origin".to_string(),
            refspec: "refs/heads/feature/test-branch-123:refs/heads/feature/test-branch-123"
                .to_string()
        }
    );
    assert_eq!(
        repo.push(""),
        GitCommand::Push {
            remote: "origin".to_string(),
            refspec: "refs/heads/:refs/heads/".to_string()
        }
    );
}

#[test]
fn credentials_fall_back_to_git() {
    assert_eq!(GitRepo::credential_username(Some("deploy")), "deploy");
    assert_eq!(GitRepo::credential_username(None), "git");
    assert_eq!(GitRepo::credential_username(Some("")), "");
}

#[test]
fn test_error_checkout_nonexistent_branch() {
    let (repo, _) = GitRepo::clone("file:///tmp/remote.git", "/tmp/work/clone", false).unwrap();
    assert_eq!(
        GitRepo::remote_revision("nonexistent-branch-12345"),
        "origin/nonexistent-branch-12345"
    );
    let result = repo.checkout_branch("nonexistent-branch-12345", LocalBranch::Missing, false);
    assert!(result.is_err(), "Should fail to checkout nonexistent branch");
    assert_eq!(result, Err(GitError::BranchNotFound));
}

#[test]
fn test_error_invalid_repo_url_format() {
    // Whether a URL can be cloned is for git to say; the workspace hands it on as it is.
    for invalid_url in ["not-a-url", "http://", "git@"] {
        let (_, command) = GitRepo::clone(invalid_url, "/tmp/work/clone", false).unwrap();
        assert_eq!(
            command,
            GitCommand::Clone {
                url: invalid_url.to_string(),
                path: "/tmp/work/clone".to_string()
            }
        );
    }
}
