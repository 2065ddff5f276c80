//! The command line's arguments, as plain values. Parsing them from the
//! process arguments is the program's business; the library only reads them.

use vstd::prelude::*;
use std::path::PathBuf;

verus! {

#[verifier::external_type_specification]
#[verifier::external_body]
pub struct ExPathBuf(PathBuf);

/// Options that every command takes.
#[derive(Debug)]
pub struct Global {
    /// Path to the repository root.
    pub repo_path: PathBuf,
    /// Don't print information.
    pub quiet: bool,
}

/// The branch subcommands.
#[derive(Debug)]
pub enum BranchCommand {
    Ls(BranchLs),
    Mv(BranchMv),
    New(BranchNew),
    Rename(BranchRename),
    Rm(BranchRm),
    Switch(BranchSwitch),
}

/// Operate on branches.
#[derive(Debug)]
pub struct Branch {
    pub command: BranchCommand,
}

/// List all branches.
#[derive(Debug)]
pub struct BranchLs {
    /// Include remote branches in the list.
    pub include_remote: bool,
}

/// Change what a branch points to.
#[derive(Debug)]
pub struct BranchMv {
    /// Branch to be moved.
    pub src_name: String,
    /// Label of the destination reference.
    pub dest_ref: String,
}

/// Create a new branch.
#[derive(Debug)]
pub struct BranchNew {
    /// Label of the commit the branch starts at.
    pub ref_name: String,
    /// Name of the new branch.
    pub name: String,
}

/// Rename a branch.
#[derive(Debug)]
pub struct BranchRename {
    /// Whether the branch is remote.
    pub is_remote: bool,
    /// Whether an existing branch with the destination name is overridden.
    pub force: bool,
    /// Branch to be renamed.
    pub src_name: String,
    /// New name of the branch.
    pub dest_name: String,
}

/// Remove a branch.
#[derive(Debug)]
pub struct BranchRm {
    /// Whether the branch is remote.
    pub is_remote: bool,
    /// Branch to be removed.
    pub name: String,
}

/// Switch to another branch.
#[derive(Debug)]
pub struct BranchSwitch {
    /// Branch to switch to.
    pub name: String,
    /// Leave uncommitted changes where they are.
    pub no_stash: bool,
}

/// Reset untracked modifications to files.
#[derive(Debug)]
pub struct Clean {
    /// Paths to clean.
    pub paths: Vec<String>,
}

/// Create a new commit.
#[derive(Debug)]
pub struct Commit {}

/// Print information about HEAD.
#[derive(Debug)]
pub struct Head {}

/// Ignore files or patterns.
#[derive(Debug)]
pub struct Ignore {
    /// Add the pattern to the ignore file unmodified.
    pub is_pattern: bool,
    /// The file or pattern to ignore.
    pub pattern: String,
}

/// Initialize a new repository.
#[derive(Debug)]
pub struct Init {
    /// Create a bare repository.
    pub bare: bool,
}

/// List the contents of a tree.
#[derive(Debug)]
pub struct Ls {
    /// Label of the commit to list.
    pub ref_name: String,
    /// Subtree path to list.
    pub tree_path: PathBuf,
}

/// Display the current committing user.
#[derive(Debug)]
pub struct Me {}

/// Dump the contents of an object into a file.
#[derive(Debug)]
pub struct Restore {
    /// Label of the object to read contents from.
    pub object_name: String,
    /// File path to write the object to.
    pub path: PathBuf,
}

/// Display the contents of an object.
#[derive(Debug)]
pub struct Show {
    /// Label of the object.
    pub name: String,
}

/// Stage files.
#[derive(Debug)]
pub struct Stage {
    /// Paths to stage.
    pub paths: Vec<String>,
}

/// Display the status of the working tree and the index.
#[derive(Debug)]
pub struct Status {
    /// Hide untracked files.
    pub hide_untracked: bool,
    /// Show ignored files.
    pub show_ignored: bool,
}

/// Create a new tag.
#[derive(Debug)]
pub struct Tag {
    /// Label of the object to tag.
    pub ref_name: String,
    /// Name of the created tag.
    pub tag_name: String,
}

/// Unstage files.
#[derive(Debug)]
pub struct Unstage {
    /// Paths to unstage.
    pub paths: Vec<String>,
}

/// Print the working tree location of a repository.
#[derive(Debug)]
pub struct Where {}

} // verus!
