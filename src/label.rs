//! The label grammar: how a user-typed label names a reference or an
//! abbreviated object id.

use vstd::prelude::*;
use vstd::string::*;

verus! {

/// What a label asks of the object store, as mathematical text.
pub enum Lookup {
    /// Look up a reference by its full path (`HEAD`, `refs/tags/v1`, ...).
    Ref(Seq<char>),
    /// Find the unique object whose id starts with these hex digits.
    Prefix(Seq<char>),
}

/// What a label asks of the object store.
#[derive(Debug, PartialEq, Eq)]
pub enum Query {
    /// Look up a reference by its full path.
    RefName(String),
    /// Find the unique object whose id starts with this abbreviated id.
    ShortId(String),
}

impl View for Query {
    type V = Lookup;

    open spec fn view(&self) -> Lookup {
        match self {
            Query::RefName(s) => Lookup::Ref(s@),
            Query::ShortId(s) => Lookup::Prefix(s@),
        }
    }
}

pub open spec fn head_path() -> Seq<char> {
    seq!['H', 'E', 'A', 'D']
}

pub open spec fn tags_dir() -> Seq<char> {
    seq!['r', 'e', 'f', 's', '/', 't', 'a', 'g', 's', '/']
}

pub open spec fn heads_dir() -> Seq<char> {
    seq!['r', 'e', 'f', 's', '/', 'h', 'e', 'a', 'd', 's', '/']
}

/// The grammar: the first character of a label picks how the rest is read.
/// The empty label and a lone `@` name `HEAD`; `#t` names the tag `t`; `@b`
/// names the branch `b`; `/p` names the reference path `p`; anything else is
/// an abbreviated object id, taken whole.
pub open spec fn label_lookup(label: Seq<char>) -> Lookup {
    if label.len() == 0 {
        Lookup::Ref(head_path())
    } else if label[0] == '#' {
        Lookup::Ref(tags_dir() + label.drop_first())
    } else if label[0] == '@' {
        if label.len() == 1 {
            Lookup::Ref(head_path())
        } else {
            Lookup::Ref(heads_dir() + label.drop_first())
        }
    } else if label[0] == '/' {
        Lookup::Ref(label.drop_first())
    } else {
        Lookup::Prefix(label)
    }
}

/// Reads a label according to the grammar.
pub fn parse_label(label: &str) -> (q: Query)
    ensures
        q@ == label_lookup(label@),
{
    let n = label.unicode_len();
    if n == 0 {
        return Query::RefName(head_name());
    }
    let first = label.get_char(0);
    let rest = label.substring_char(1, n);
    assert(rest@ == label@.drop_first());
    if first == '#' {
        let mut path = String::from_str("refs/tags/");
        proof {
            reveal_strlit("refs/tags/");
        }
        assert(path@ =~= tags_dir());
        path.append(rest);
        Query::RefName(path)
    } else if first == '@' {
        if n == 1 {
            Query::RefName(head_name())
        } else {
            let mut path = String::from_str("refs/heads/");
            proof {
                reveal_strlit("refs/heads/");
            }
            assert(path@ =~= heads_dir());
            path.append(rest);
            Query::RefName(path)
        }
    } else if first == '/' {
        Query::RefName(String::from_str(rest))
    } else {
        Query::ShortId(String::from_str(label))
    }
}

fn head_name() -> (s: String)
    ensures
        s@ == head_path(),
{
    let s = String::from_str("HEAD");
    proof {
        reveal_strlit("HEAD");
    }
    assert(s@ =~= head_path());
    s
}

/// A leading `/` is transparent: `/p` looks up exactly the reference path `p`.
pub proof fn lemma_slash_is_transparent(path: Seq<char>)
    ensures
        label_lookup(seq!['/'] + path) == Lookup::Ref(path),
{
    assert((seq!['/'] + path).drop_first() =~= path);
}

/// The empty label, `@` and `/HEAD` are three spellings of the same lookup.
pub proof fn lemma_head_spellings()
    ensures
        label_lookup(Seq::empty()) == label_lookup(seq!['@']),
        label_lookup(seq!['@']) == label_lookup(seq!['/'] + head_path()),
{
    lemma_slash_is_transparent(head_path());
}

/// `#t` looks up the reference `refs/tags/t`, and `@b`, for a non-empty `b`,
/// looks up `refs/heads/b`.
pub proof fn lemma_tag_and_branch(tag: Seq<char>, branch: Seq<char>)
    requires
        branch.len() > 0,
    ensures
        label_lookup(seq!['#'] + tag) == Lookup::Ref(tags_dir() + tag),
        label_lookup(seq!['@'] + branch) == Lookup::Ref(heads_dir() + branch),
{
    assert((seq!['#'] + tag).drop_first() =~= tag);
    assert((seq!['@'] + branch).drop_first() =~= branch);
}

/// A non-empty label that starts with none of `#`, `@`, `/` is always an
/// abbreviated object id, taken whole, and never a reference name.
pub proof fn lemma_bare_label_is_prefix(label: Seq<char>)
    requires
        label.len() > 0,
        label[0] != '#',
        label[0] != '@',
        label[0] != '/',
    ensures
        label_lookup(label) == Lookup::Prefix(label),
{
}

} // verus!
