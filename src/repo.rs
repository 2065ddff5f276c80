//! Resolution of labels to objects and trees, and comparisons between diff
//! targets, on a git2 repository.

use vstd::prelude::*;
use vstd::string::*;
use crate::error::MilkError;
use crate::label::Lookup;
use crate::label::Query;
use crate::label::label_lookup;
use crate::label::parse_label;
use crate::store::ObjectKind;
use crate::store::diff_options;
use crate::store::entry_id;
use crate::store::entry_names;
use crate::store::index_to_workdir;
use crate::store::is_ambiguous;
use crate::store::is_hex_id;
use crate::store::name_view;
use crate::store::object_by_id;
use crate::store::object_kind;
use crate::store::open_index;
use crate::store::open_odb;
use crate::store::parse_short_id;
use crate::store::peel_tree;
use crate::store::ref_target;
use crate::store::tree_entry_names;
use crate::store::tree_to_index;
use crate::store::tree_to_tree;
use crate::store::tree_to_workdir;
use crate::store::unique_id_with_prefix;
use crate::target::DiffTarget;
use crate::target::TargetView;
use crate::target::degenerate;
use crate::target::plan_diff;
use crate::target::same_text;

verus! {

/// The ways in which resolving `label` to an object may fail: a failed
/// lookup reports `NotFound`, and only an abbreviated id can be `Ambiguous`;
/// `Store` when the object database cannot be opened.
pub open spec fn resolve_error(label: Seq<char>, e: MilkError) -> bool {
    ||| e == MilkError::NotFound
    ||| e == MilkError::Ambiguous && label_lookup(label) is Prefix
    ||| e == MilkError::Store && label_lookup(label) is Prefix
}

/// The ways in which resolving `label` to a tree may fail: those of
/// resolution, and `WrongKind` for an object that does not peel to a tree.
pub open spec fn tree_error(label: Seq<char>, e: MilkError) -> bool {
    resolve_error(label, e) || e == MilkError::WrongKind
}

/// A failure that a named side of a comparison can cause.
pub open spec fn side_error(t: TargetView, e: MilkError) -> bool {
    t matches TargetView::Name(n) && tree_error(n, e)
}

/// The error that a failed abbreviated-id lookup is reported as.
pub fn prefix_failure(ambiguous: bool) -> (e: MilkError)
    ensures
        e == (if ambiguous { MilkError::Ambiguous } else { MilkError::NotFound }),
{
    if ambiguous {
        MilkError::Ambiguous
    } else {
        MilkError::NotFound
    }
}

/// Finds the one object whose id starts with the hex digits `short`.
fn find_from_short_id<'repo>(repo: &'repo git2::Repository, short: &str) -> (r: Result<git2::Object<'repo>, MilkError>)
    ensures
        r matches Err(e) ==> e == MilkError::NotFound || e == MilkError::Ambiguous || e == MilkError::Store,
        r is Ok ==> is_hex_id(short@),
{
    let odb = match open_odb(repo) {
        Ok(odb) => odb,
        Err(_) => return Err(MilkError::Store),
    };
    let prefix = match parse_short_id(short) {
        Ok(id) => id,
        Err(_) => return Err(MilkError::NotFound),
    };
    let id = match unique_id_with_prefix(&odb, prefix, short.len()) {
        Ok(id) => id,
        Err(e) => return Err(prefix_failure(is_ambiguous(&e))),
    };
    match object_by_id(repo, id) {
        Ok(obj) => Ok(obj),
        Err(_) => Err(MilkError::NotFound),
    }
}

/// The error for an object of kind `found` where `wanted` is needed.
pub fn expect_kind(found: Option<ObjectKind>, wanted: ObjectKind) -> (r: Result<(), MilkError>)
    ensures
        r is Ok <==> found == Some(wanted),
        r matches Err(e) ==> e == MilkError::WrongKind,
{
    match found {
        Some(k) => if k == wanted {
            Ok(())
        } else {
            Err(MilkError::WrongKind)
        },
        None => Err(MilkError::WrongKind),
    }
}

pub open spec fn unreadable_name() -> Seq<char> {
    seq!['[', '?', '?', '?', ']']
}

/// How an entry's name reads when it is compared: a name that is not UTF-8
/// reads as `[???]`.
pub open spec fn shown_name(n: Option<Seq<char>>) -> Seq<char> {
    match n {
        Some(s) => s,
        None => unreadable_name(),
    }
}

/// The position of the first entry whose name reads as `name`.
pub fn find_entry(names: &Vec<Option<String>>, name: &str) -> (r: Option<usize>)
    ensures
        match r {
            Some(i) => i < names@.len() && shown_name(name_view(names@[i as int])) == name@
                && forall|j: int| 0 <= j < i ==> shown_name(name_view(#[trigger] names@[j])) != name@,
            None => forall|j: int| 0 <= j < names@.len() ==> shown_name(name_view(#[trigger] names@[j])) != name@,
        },
{
    let mut i: usize = 0;
    while i < names.len()
        invariant
            i <= names@.len(),
            forall|j: int| 0 <= j < i ==> shown_name(name_view(#[trigger] names@[j])) != name@,
        decreases names@.len() - i,
    {
        let same = match &names[i] {
            Some(s) => same_text(s.as_str(), name),
            None => {
                proof {
                    reveal_strlit("[???]");
                }
                assert("[???]"@ =~= unreadable_name());
                same_text("[???]", name)
            },
        };
        if same {
            return Some(i);
        }
        i = i + 1;
    }
    None
}

/// The id of the first entry of `tree` whose name reads as `name`.
pub fn find_subtree(tree: &git2::Tree, name: &str) -> (r: Option<git2::Oid>)
    ensures
        r is Some <==> exists|i: int| 0 <= i < tree_entry_names(*tree).len()
            && shown_name(#[trigger] tree_entry_names(*tree)[i]) == name@,
{
    let names = entry_names(tree);
    match find_entry(&names, name) {
        Some(i) => {
            assert(shown_name(tree_entry_names(*tree)[i as int]) == name@);
            entry_id(tree, i)
        },
        None => {
            assert forall|i: int| 0 <= i < tree_entry_names(*tree).len()
                implies shown_name(#[trigger] tree_entry_names(*tree)[i]) != name@ by {
                assert(name_view(names@[i]) == tree_entry_names(*tree)[i]);
            }
            None
        },
    }
}

/// Resolution of labels and comparisons of diff targets on a repository.
pub trait MilkRepo {
    /// Looks up the object that a reference path points to.
    fn find_from_refname<'repo>(&'repo self, path: &str) -> (r: Result<git2::Object<'repo>, MilkError>)
        ensures
            r matches Err(e) ==> e == MilkError::NotFound,;

    /// Resolves a label to the object it names: the label grammar picks a
    /// reference path or an abbreviated id, and the store is asked for it.
    fn find_from_name<'repo>(&'repo self, name: &str) -> (r: Result<git2::Object<'repo>, MilkError>)
        ensures
            r matches Err(e) ==> resolve_error(name@, e),
            r is Ok ==> (label_lookup(name@) matches Lookup::Prefix(h) ==> is_hex_id(h)),;

    /// Resolves a label to an object that must be of kind `kind`.
    fn find_kind_from_name<'repo>(&'repo self, name: &str, kind: ObjectKind) -> (r: Result<git2::Object<'repo>, MilkError>)
        ensures
            r matches Err(e) ==> resolve_error(name@, e) || e == MilkError::WrongKind,;

    /// Resolves a label to a tree, peeling tags and commits.
    fn name_to_tree<'repo>(&'repo self, name: &str) -> (r: Result<git2::Tree<'repo>, MilkError>)
        ensures
            r matches Err(e) ==> tree_error(name@, e),;

    /// Compares `old` with `new`. A pair of identical pseudo-targets is
    /// rejected; otherwise the store's primitive runs in its canonical
    /// direction, reversed when `old` comes after `new` in that direction.
    fn make_diff<'repo>(&'repo self, old: DiffTarget, new: DiffTarget) -> (r: Result<git2::Diff<'repo>, MilkError>)
        ensures
            degenerate(old@, new@) ==> r == Err::<git2::Diff<'repo>, MilkError>(MilkError::DegenerateComparison),
            r matches Err(e) ==> {
                ||| e == MilkError::DegenerateComparison && degenerate(old@, new@)
                ||| e == MilkError::Store
                ||| side_error(old@, e)
                ||| side_error(new@, e)
            },;
}

impl MilkRepo for git2::Repository {
    fn find_from_refname<'repo>(&'repo self, path: &str) -> (r: Result<git2::Object<'repo>, MilkError>) {
        match ref_target(self, path) {
            Ok(id) => match object_by_id(self, id) {
                Ok(obj) => Ok(obj),
                Err(_) => Err(MilkError::NotFound),
            },
            Err(_) => Err(MilkError::NotFound),
        }
    }

    fn find_from_name<'repo>(&'repo self, name: &str) -> (r: Result<git2::Object<'repo>, MilkError>) {
        match parse_label(name) {
            Query::RefName(path) => self.find_from_refname(path.as_str()),
            Query::ShortId(short) => find_from_short_id(self, short.as_str()),
        }
    }

    fn find_kind_from_name<'repo>(&'repo self, name: &str, kind: ObjectKind) -> (r: Result<git2::Object<'repo>, MilkError>) {
        let obj = self.find_from_name(name)?;
        expect_kind(object_kind(&obj), kind)?;
        Ok(obj)
    }

    fn name_to_tree<'repo>(&'repo self, name: &str) -> (r: Result<git2::Tree<'repo>, MilkError>) {
        let obj = self.find_from_name(name)?;
        match peel_tree(&obj) {
            Ok(tree) => Ok(tree),
            Err(_) => Err(MilkError::WrongKind),
        }
    }

    fn make_diff<'repo>(&'repo self, old: DiffTarget, new: DiffTarget) -> (r: Result<git2::Diff<'repo>, MilkError>) {
        let plan = match plan_diff(old, new) {
            Ok(plan) => plan,
            Err(e) => return Err(e),
        };
        let mut options = diff_options(plan.reversed);
        let diff = match (plan.from, plan.to) {
            (DiffTarget::Name(a), DiffTarget::Name(b)) => {
                let old_tree = self.name_to_tree(a)?;
                let new_tree = self.name_to_tree(b)?;
                tree_to_tree(self, &old_tree, &new_tree, &mut options)
            },
            (DiffTarget::Name(a), DiffTarget::Index) => {
                let tree = self.name_to_tree(a)?;
                let index = match open_index(self) {
                    Ok(index) => index,
                    Err(_) => return Err(MilkError::Store),
                };
                tree_to_index(self, &tree, &index, &mut options)
            },
            (DiffTarget::Name(a), DiffTarget::WorkingTree) => {
                let tree = self.name_to_tree(a)?;
                tree_to_workdir(self, &tree, &mut options)
            },
            (DiffTarget::Index, DiffTarget::WorkingTree) => {
                let index = match open_index(self) {
                    Ok(index) => index,
                    Err(_) => return Err(MilkError::Store),
                };
                index_to_workdir(self, &index, &mut options)
            },
            _ => {
                assert(false);
                return Err(MilkError::DegenerateComparison);
            },
        };
        match diff {
            Ok(d) => Ok(d),
            Err(_) => Err(MilkError::Store),
        }
    }
}

} // verus!
