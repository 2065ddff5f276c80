//! The object store's types and calls, as this library relies on them.
//! Each function here wraps a call into git2; its contract is what the
//! library assumes of that call.

use vstd::prelude::*;

verus! {

/// The kinds of object the store holds.
#[derive(Debug, Clone, Copy, PartialEq, Eq, Structural)]
pub enum ObjectKind {
    Blob,
    Tree,
    Commit,
    Tag,
}

#[verifier::external_type_specification]
#[verifier::external_body]
pub struct ExRepository(git2::Repository);

#[verifier::external_type_specification]
#[verifier::external_body]
pub struct ExObject<'repo>(git2::Object<'repo>);

#[verifier::external_type_specification]
#[verifier::external_body]
pub struct ExTree<'repo>(git2::Tree<'repo>);

#[verifier::external_type_specification]
#[verifier::external_body]
pub struct ExDiff<'repo>(git2::Diff<'repo>);

#[verifier::external_type_specification]
#[verifier::external_body]
pub struct ExIndex(git2::Index);

#[verifier::external_type_specification]
#[verifier::external_body]
pub struct ExOid(git2::Oid);

#[verifier::external_type_specification]
#[verifier::external_body]
pub struct ExOdb<'repo>(git2::Odb<'repo>);

#[verifier::external_type_specification]
#[verifier::external_body]
pub struct ExDiffOptions(git2::DiffOptions);

#[verifier::external_type_specification]
#[verifier::external_body]
pub struct ExError(git2::Error);

pub open spec fn is_hex_digit(c: char) -> bool {
    ('0' <= c && c <= '9') || ('a' <= c && c <= 'f') || ('A' <= c && c <= 'F')
}

/// Text that can stand for a (possibly abbreviated) SHA-1 object id: one to
/// forty hex digits.
pub open spec fn is_hex_id(s: Seq<char>) -> bool {
    &&& 1 <= s.len() <= 40
    &&& forall|i: int| 0 <= i < s.len() ==> is_hex_digit(#[trigger] s[i])
}

/// Relies on `Repository::refname_to_id`: the id a reference path points to.
#[verifier::external_body]
pub(crate) fn ref_target(repo: &git2::Repository, path: &str) -> (r: Result<git2::Oid, git2::Error>) {
    repo.refname_to_id(path)
}

/// Relies on `Repository::find_object`: the object of any kind with this id.
#[verifier::external_body]
pub(crate) fn object_by_id<'repo>(repo: &'repo git2::Repository, id: git2::Oid) -> (r: Result<git2::Object<'repo>, git2::Error>) {
    repo.find_object(id, Some(git2::ObjectType::Any))
}

/// Relies on `Repository::odb`: the repository's object database.
#[verifier::external_body]
pub(crate) fn open_odb<'repo>(repo: &'repo git2::Repository) -> (r: Result<git2::Odb<'repo>, git2::Error>) {
    repo.odb()
}

/// Relies on `Oid::from_str`, which fails on text that is empty, longer than
/// forty characters, or holds anything but hex digits.
#[verifier::external_body]
pub(crate) fn parse_short_id(text: &str) -> (r: Result<git2::Oid, git2::Error>)
    ensures
        r is Ok ==> is_hex_id(text@),
{
    git2::Oid::from_str(text)
}

/// Relies on `Odb::exists_prefix`: the full id of the one object whose id
/// starts with the first `len` hex digits of `short`.
#[verifier::external_body]
pub(crate) fn unique_id_with_prefix(odb: &git2::Odb, short: git2::Oid, len: usize) -> (r: Result<git2::Oid, git2::Error>) {
    odb.exists_prefix(short, len)
}

/// Relies on `Error::code`: whether the store reported an ambiguous id.
#[verifier::external_body]
pub(crate) fn is_ambiguous(e: &git2::Error) -> (r: bool) {
    matches!(e.code(), git2::ErrorCode::Ambiguous)
}

/// Relies on `Object::peel_to_tree`: follows tags and commits down to a tree.
#[verifier::external_body]
pub(crate) fn peel_tree<'repo>(obj: &git2::Object<'repo>) -> (r: Result<git2::Tree<'repo>, git2::Error>) {
    obj.peel_to_tree()
}

/// Relies on `Repository::index`: the repository's staging index.
#[verifier::external_body]
pub(crate) fn open_index(repo: &git2::Repository) -> (r: Result<git2::Index, git2::Error>) {
    repo.index()
}

/// Relies on `DiffOptions::new` and `DiffOptions::reverse`: default options,
/// flipping the sides of the diff when `reversed`.
#[verifier::external_body]
pub(crate) fn diff_options(reversed: bool) -> (r: git2::DiffOptions) {
    let mut options = git2::DiffOptions::new();
    options.reverse(reversed);
    options
}

/// Relies on `Repository::diff_tree_to_tree`: the changes from the tree
/// `old` to the tree `new`.
#[verifier::external_body]
pub(crate) fn tree_to_tree<'repo>(
    repo: &'repo git2::Repository,
    old: &git2::Tree,
    new: &git2::Tree,
    options: &mut git2::DiffOptions,
) -> (r: Result<git2::Diff<'repo>, git2::Error>) {
    repo.diff_tree_to_tree(Some(old), Some(new), Some(options))
}

/// Relies on `Repository::diff_tree_to_index`: the changes from the tree
/// `old` to the index.
#[verifier::external_body]
pub(crate) fn tree_to_index<'repo>(
    repo: &'repo git2::Repository,
    old: &git2::Tree,
    index: &git2::Index,
    options: &mut git2::DiffOptions,
) -> (r: Result<git2::Diff<'repo>, git2::Error>) {
    repo.diff_tree_to_index(Some(old), Some(index), Some(options))
}

/// Relies on `Repository::diff_tree_to_workdir`: the changes from the tree
/// `old` to the working directory, without consulting the index.
#[verifier::external_body]
pub(crate) fn tree_to_workdir<'repo>(
    repo: &'repo git2::Repository,
    old: &git2::Tree,
    options: &mut git2::DiffOptions,
) -> (r: Result<git2::Diff<'repo>, git2::Error>) {
    repo.diff_tree_to_workdir(Some(old), Some(options))
}

/// Relies on `Repository::diff_index_to_workdir`: the changes from the
/// index to the working directory.
#[verifier::external_body]
pub(crate) fn index_to_workdir<'repo>(
    repo: &'repo git2::Repository,
    index: &git2::Index,
    options: &mut git2::DiffOptions,
) -> (r: Result<git2::Diff<'repo>, git2::Error>) {
    repo.diff_index_to_workdir(Some(index), Some(options))
}

/// Relies on `Object::kind`: the kind of a stored object, `None` where the
/// store reports none of the four.
#[verifier::external_body]
pub(crate) fn object_kind(obj: &git2::Object) -> (r: Option<ObjectKind>) {
    match obj.kind() {
        Some(git2::ObjectType::Blob) => Some(ObjectKind::Blob),
        Some(git2::ObjectType::Tree) => Some(ObjectKind::Tree),
        Some(git2::ObjectType::Commit) => Some(ObjectKind::Commit),
        Some(git2::ObjectType::Tag) => Some(ObjectKind::Tag),
        _ => None,
    }
}

/// The names of a tree's entries, in the tree's order, with `None` for a name
/// that is not UTF-8. A tree object never changes, so neither do these.
pub uninterp spec fn tree_entry_names(tree: git2::Tree) -> Seq<Option<Seq<char>>>;

pub open spec fn name_view(n: Option<String>) -> Option<Seq<char>> {
    match n {
        Some(s) => Some(s@),
        None => None,
    }
}

/// Relies on `Tree::iter` and `TreeEntry::name`: each entry's name, in order.
#[verifier::external_body]
pub(crate) fn entry_names(tree: &git2::Tree) -> (r: Vec<Option<String>>)
    ensures
        r@.len() == tree_entry_names(*tree).len(),
        forall|i: int| 0 <= i < r@.len() ==> name_view(#[trigger] r@[i]) == tree_entry_names(*tree)[i],
{
    let mut names = Vec::new();
    for entry in tree.iter() {
        names.push(entry.name().ok().map(String::from));
    }
    names
}

/// Relies on `Tree::get` and `TreeEntry::id`: the id of the entry at a
/// position, which exists exactly below the number of entries.
#[verifier::external_body]
pub(crate) fn entry_id(tree: &git2::Tree, i: usize) -> (r: Option<git2::Oid>)
    ensures
        r is Some <==> i < tree_entry_names(*tree).len(),
{
    match tree.get(i) {
        Some(entry) => Some(entry.id()),
        None => None,
    }
}

} // verus!
