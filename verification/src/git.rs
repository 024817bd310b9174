//! The repository workspace of one job: which git operation each step
//! takes and what is refused before anything is done. Carrying the
//! operations out is left to the caller.

use vstd::prelude::*;

verus! {

/// A git operation to carry out on the workspace.
#[derive(Debug, PartialEq, Eq)]
pub enum GitCommand {
    /// Clone `url` into the directory `path`.
    Clone { url: String, path: String },
    /// Update the remote-tracking references of `remote` by `refspec`.
    Fetch { remote: String, refspec: String },
    /// Check out the tree that `reference` names and point HEAD at it.
    CheckoutLocal { reference: String },
    /// Create the local branch `branch` at the commit that `revision`
    /// names, check out its tree and point HEAD at `reference`.
    CheckoutRemote { revision: String, branch: String, reference: String },
    /// Add every path that matches `pathspec` to the index, by the
    /// default ignore rules.
    StageAll { pathspec: String },
    /// Write the index as a tree and commit it on top of HEAD, with the
    /// ambient signature, then move `update_ref` to the commit.
    Commit { update_ref: String, message: String },
    /// Push `refspec` to `remote`.
    Push { remote: String, refspec: String },
}

/// The mathematical value of a [`GitCommand`].
pub enum GitCommandView {
    Clone { url: Seq<char>, path: Seq<char> },
    Fetch { remote: Seq<char>, refspec: Seq<char> },
    CheckoutLocal { reference: Seq<char> },
    CheckoutRemote { revision: Seq<char>, branch: Seq<char>, reference: Seq<char> },
    StageAll { pathspec: Seq<char> },
    Commit { update_ref: Seq<char>, message: Seq<char> },
    Push { remote: Seq<char>, refspec: Seq<char> },
}

impl View for GitCommand {
    type V = GitCommandView;

    open spec fn view(&self) -> GitCommandView {
        match self {
            GitCommand::Clone { url, path } => GitCommandView::Clone { url: url@, path: path@ },
            GitCommand::Fetch { remote, refspec } => GitCommandView::Fetch {
                remote: remote@,
                refspec: refspec@,
            },
            GitCommand::CheckoutLocal { reference } => GitCommandView::CheckoutLocal {
                reference: reference@,
            },
            GitCommand::CheckoutRemote {
                revision,
                branch,
                reference,
            } => GitCommandView::CheckoutRemote {
                revision: revision@,
                branch: branch@,
                reference: reference@,
            },
            GitCommand::StageAll { pathspec } => GitCommandView::StageAll { pathspec: pathspec@ },
            GitCommand::Commit { update_ref, message } => GitCommandView::Commit {
                update_ref: update_ref@,
                message: message@,
            },
            GitCommand::Push { remote, refspec } => GitCommandView::Push {
                remote: remote@,
                refspec: refspec@,
            },
        }
    }
}

/// Why a step was refused.
#[derive(Debug, Clone, Copy, PartialEq, Eq, Structural)]
pub enum GitError {
    /// The directory to clone into exists. The workspace overwrites
    /// nothing: the directory has to be removed first.
    PathExists,
    /// The local branch has a name that is not valid text.
    InvalidBranchName,
    /// There is neither a local branch of the name nor one on `origin`.
    BranchNotFound,
    /// The index holds the tree of the parent commit: there is nothing to
    /// commit.
    EmptyCommit,
}

/// What was found when the local branches were searched for a name.
#[derive(Debug, PartialEq, Eq)]
pub enum LocalBranch {
    /// There is no local branch of that name.
    Missing,
    /// There is one; this is the full name of its reference, or `None`
    /// where that name is not valid text.
    Found { reference: Option<String> },
}

/// The refspec that pushes a branch to the branch of the same name.
pub open spec fn push_refspec(branch: Seq<char>) -> Seq<char> {
    "refs/heads/"@ + branch + ":refs/heads/"@ + branch
}

/// The revision that names a branch of `origin`.
pub open spec fn remote_revision_spec(branch: Seq<char>) -> Seq<char> {
    "origin/"@ + branch
}

/// The checkout of `branch`, given what the search for a local branch
/// found and whether `origin/<branch>` names a revision: a local branch is
/// checked out as it is; without one, the branch is created from
/// `origin/<branch>`; without either there is nothing to check out.
pub open spec fn checkout_spec(branch: Seq<char>, local: LocalBranch, on_origin: bool) -> Result<
    GitCommandView,
    GitError,
> {
    match local {
        LocalBranch::Found { reference: Some(reference) } => Ok(
            GitCommandView::CheckoutLocal { reference: reference@ },
        ),
        LocalBranch::Found { reference: None } => Err(GitError::InvalidBranchName),
        LocalBranch::Missing => if on_origin {
            Ok(
                GitCommandView::CheckoutRemote {
                    revision: remote_revision_spec(branch),
                    branch,
                    reference: "refs/heads/"@ + branch,
                },
            )
        } else {
            Err(GitError::BranchNotFound)
        },
    }
}

/// The workspace of one job: a clone in a directory of its own.
#[derive(Debug)]
pub struct GitRepo {
    repo_path: String,
}

impl GitRepo {
    /// The directory of the workspace.
    pub closed spec fn repo_path(&self) -> Seq<char> {
        self.repo_path@
    }

    /// The workspace for a clone of `repo_url` in `target_dir`, and the
    /// command that makes the clone. Refused where the directory exists.
    pub fn clone(repo_url: &str, target_dir: &str, target_exists: bool) -> (workspace: Result<
        (GitRepo, GitCommand),
        GitError,
    >)
        ensures
            target_exists ==> workspace == Err::<(GitRepo, GitCommand), GitError>(
                GitError::PathExists,
            ),
            !target_exists ==> (workspace matches Ok((repo, command)) && repo.repo_path()
                == target_dir@ && command@ == (GitCommandView::Clone {
                url: repo_url@,
                path: target_dir@,
            })),
    {
        if target_exists {
            Err(GitError::PathExists)
        } else {
            Ok(
                (
                    GitRepo { repo_path: target_dir.to_owned() },
                    GitCommand::Clone { url: repo_url.to_owned(), path: target_dir.to_owned() },
                ),
            )
        }
    }

    /// The workspace in the directory `repo_path`, which holds a clone.
    pub fn open(repo_path: &str) -> (repo: GitRepo)
        ensures
            repo.repo_path() == repo_path@,
    {
        GitRepo { repo_path: repo_path.to_owned() }
    }

    /// The directory of the workspace.
    pub fn path(&self) -> (path: &str)
        ensures
            path@ == self.repo_path(),
    {
        self.repo_path.as_str()
    }

    /// The user name to ask the key agent for: the one in the URL, or
    /// `git`.
    pub fn credential_username(username_from_url: Option<&str>) -> (name: String)
        ensures
            name@ == match username_from_url {
                Some(user) => user@,
                None => "git"@,
            },
    {
        match username_from_url {
            Some(user) => user.to_owned(),
            None => "git".to_owned(),
        }
    }

    /// The command that fetches every branch of `origin`.
    pub fn fetch(&self) -> (command: GitCommand)
        ensures
            command@ == (GitCommandView::Fetch {
                remote: "origin"@,
                refspec: "refs/heads/*:refs/remotes/origin/*"@,
            }),
    {
        GitCommand::Fetch {
            remote: "origin".to_owned(),
            refspec: "refs/heads/*:refs/remotes/origin/*".to_owned(),
        }
    }

    /// The revision to look for where there is no local branch of the
    /// name: `origin/<branch_name>`.
    pub fn remote_revision(branch_name: &str) -> (revision: String)
        ensures
            revision@ == remote_revision_spec(branch_name@),
    {
        "origin/".to_owned().concat(branch_name)
    }

    /// The command that checks `branch_name` out, given what the search
    /// for a local branch of that name found and whether
    /// `origin/<branch_name>` names a revision. Fails where neither
    /// exists.
    pub fn checkout_branch(&self, branch_name: &str, local: LocalBranch, on_origin: bool) -> (command:
        Result<GitCommand, GitError>)
        ensures
            match checkout_spec(branch_name@, local, on_origin) {
                Ok(expected) => command matches Ok(c) && c@ == expected,
                Err(error) => command == Err::<GitCommand, GitError>(error),
            },
    {
        match local {
            LocalBranch::Found { reference: Some(reference) } => Ok(
                GitCommand::CheckoutLocal { reference },
            ),
            LocalBranch::Found { reference: None } => Err(GitError::InvalidBranchName),
            LocalBranch::Missing => if on_origin {
                Ok(
                    GitCommand::CheckoutRemote {
                        revision: GitRepo::remote_revision(branch_name),
                        branch: branch_name.to_owned(),
                        reference: "refs/heads/".to_owned().concat(branch_name),
                    },
                )
            } else {
                Err(GitError::BranchNotFound)
            },
        }
    }

    /// Whether the working tree or the index differs from HEAD, given the
    /// number of entries that the status lists.
    pub fn has_changes(&self, status_entries: usize) -> (changed: bool)
        ensures
            changed == (status_entries > 0),
    {
        status_entries > 0
    }

    /// The command that stages every path of the working tree.
    pub fn stage_all(&self) -> (command: GitCommand)
        ensures
            command@ == (GitCommandView::StageAll { pathspec: "*"@ }),
    {
        GitCommand::StageAll { pathspec: "*".to_owned() }
    }

    /// The command that commits the index with `message`, given the tree
    /// that the index writes and the tree of the parent commit. Refused
    /// where the two are the same tree: no empty commit is made.
    pub fn commit(&self, message: &str, tree_id: &str, parent_tree_id: &str) -> (command: Result<
        GitCommand,
        GitError,
    >)
        ensures
            tree_id@ == parent_tree_id@ ==> command == Err::<GitCommand, GitError>(
                GitError::EmptyCommit,
            ),
            tree_id@ != parent_tree_id@ ==> (command matches Ok(c) && c@ == (
            GitCommandView::Commit { update_ref: "HEAD"@, message: message@ })),
    {
        if tree_id.to_owned() == parent_tree_id.to_owned() {
            Err(GitError::EmptyCommit)
        } else {
            Ok(GitCommand::Commit { update_ref: "HEAD".to_owned(), message: message.to_owned() })
        }
    }

    /// The command that pushes `branch_name` to the branch of the same
    /// name on `origin`.
    pub fn push(&self, branch_name: &str) -> (command: GitCommand)
        ensures
            command@ == (GitCommandView::Push {
                remote: "origin"@,
                refspec: push_refspec(branch_name@),
            }),
    {
        let mut refspec = "refs/heads/".to_owned();
        refspec.append(branch_name);
        refspec.append(":refs/heads/");
        refspec.append(branch_name);
        GitCommand::Push { remote: "origin".to_owned(), refspec }
    }
}

} // verus!
