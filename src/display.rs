//! What the commands show: status words, tree entry decorations, diff line
//! markers and prompts, as plain values. Painting them on a terminal is the
//! program's business.

use vstd::prelude::*;
use vstd::string::*;
use crate::store::ObjectKind;
use crate::target::same_text;

verus! {

/// A color the terminal front-end paints a piece of text with.
#[derive(Debug, Clone, Copy, PartialEq, Eq, Structural)]
pub enum Tint {
    Plain,
    White,
    Cyan,
    Green,
    Red,
    Blue,
    BrightBlack,
    BrightCyan,
    BrightGreen,
    BrightRed,
    BrightBlue,
}

/// The state of one file, as the store reports it.
#[derive(Debug, Clone, Copy, PartialEq, Eq, Structural)]
pub struct FileStatus {
    pub index_new: bool,
    pub index_modified: bool,
    pub index_deleted: bool,
    pub index_renamed: bool,
    pub index_typechange: bool,
    pub wt_new: bool,
    pub wt_modified: bool,
    pub wt_deleted: bool,
    pub wt_renamed: bool,
    pub wt_typechange: bool,
    pub ignored: bool,
    pub conflicted: bool,
}

/// How a file changed on one side (index or working tree).
#[derive(Debug, Clone, Copy, PartialEq, Eq, Structural)]
pub enum Change {
    New,
    Modified,
    Deleted,
    Renamed,
    Typechange,
    Unchanged,
}

/// The status column of one file.
#[derive(Debug, Clone, Copy, PartialEq, Eq, Structural)]
pub enum StatusLabel {
    Ignored,
    Conflicted,
    Changes { index: Change, worktree: Change },
}

/// The first change that applies, in the order new, modified, deleted,
/// renamed, type change.
pub open spec fn first_change(new: bool, modified: bool, deleted: bool, renamed: bool, typechange: bool) -> Change {
    if new {
        Change::New
    } else if modified {
        Change::Modified
    } else if deleted {
        Change::Deleted
    } else if renamed {
        Change::Renamed
    } else if typechange {
        Change::Typechange
    } else {
        Change::Unchanged
    }
}

/// An ignored file shows as ignored, else a conflicted one as conflicted,
/// else each side shows its change.
pub open spec fn status_label_of(s: FileStatus) -> StatusLabel {
    if s.ignored {
        StatusLabel::Ignored
    } else if s.conflicted {
        StatusLabel::Conflicted
    } else {
        StatusLabel::Changes {
            index: first_change(s.index_new, s.index_modified, s.index_deleted, s.index_renamed, s.index_typechange),
            worktree: first_change(s.wt_new, s.wt_modified, s.wt_deleted, s.wt_renamed, s.wt_typechange),
        }
    }
}

fn pick_change(new: bool, modified: bool, deleted: bool, renamed: bool, typechange: bool) -> (c: Change)
    ensures
        c == first_change(new, modified, deleted, renamed, typechange),
{
    if new {
        Change::New
    } else if modified {
        Change::Modified
    } else if deleted {
        Change::Deleted
    } else if renamed {
        Change::Renamed
    } else if typechange {
        Change::Typechange
    } else {
        Change::Unchanged
    }
}

/// The status column of a file.
pub fn status_label(s: FileStatus) -> (r: StatusLabel)
    ensures
        r == status_label_of(s),
{
    if s.ignored {
        StatusLabel::Ignored
    } else if s.conflicted {
        StatusLabel::Conflicted
    } else {
        StatusLabel::Changes {
            index: pick_change(s.index_new, s.index_modified, s.index_deleted, s.index_renamed, s.index_typechange),
            worktree: pick_change(s.wt_new, s.wt_modified, s.wt_deleted, s.wt_renamed, s.wt_typechange),
        }
    }
}

pub open spec fn change_word(c: Change) -> Seq<char> {
    match c {
        Change::New => seq!['n', 'e', 'w'],
        Change::Modified => seq!['m', 'o', 'd'],
        Change::Deleted => seq!['d', 'e', 'l'],
        Change::Renamed => seq!['r', 'e', 'n'],
        Change::Typechange => seq!['t', 'y', 'p'],
        Change::Unchanged => seq![' ', ' ', ' '],
    }
}

/// The tint of a change in the index column; the working-tree column uses
/// the bright variant of the same color.
pub open spec fn change_tint(c: Change, worktree: bool) -> Tint {
    match c {
        Change::New => if worktree { Tint::BrightCyan } else { Tint::Cyan },
        Change::Modified => if worktree { Tint::BrightGreen } else { Tint::Green },
        Change::Deleted => if worktree { Tint::BrightRed } else { Tint::Red },
        Change::Renamed | Change::Typechange => if worktree { Tint::BrightBlue } else { Tint::Blue },
        Change::Unchanged => Tint::Plain,
    }
}

impl Change {
    /// The three-letter word that shows this change.
    pub fn word(&self) -> (r: &'static str)
        ensures
            r@ == change_word(*self),
    {
        proof {
            reveal_strlit("new");
            reveal_strlit("mod");
            reveal_strlit("del");
            reveal_strlit("ren");
            reveal_strlit("typ");
            reveal_strlit("   ");
        }
        match self {
            Change::New => {
                assert("new"@ =~= seq!['n', 'e', 'w']);
                "new"
            },
            Change::Modified => {
                assert("mod"@ =~= seq!['m', 'o', 'd']);
                "mod"
            },
            Change::Deleted => {
                assert("del"@ =~= seq!['d', 'e', 'l']);
                "del"
            },
            Change::Renamed => {
                assert("ren"@ =~= seq!['r', 'e', 'n']);
                "ren"
            },
            Change::Typechange => {
                assert("typ"@ =~= seq!['t', 'y', 'p']);
                "typ"
            },
            Change::Unchanged => {
                assert("   "@ =~= seq![' ', ' ', ' ']);
                "   "
            },
        }
    }

    /// The tint of this change, in the working-tree column when `worktree`.
    pub fn tint(&self, worktree: bool) -> (r: Tint)
        ensures
            r == change_tint(*self, worktree),
    {
        match self {
            Change::New => if worktree { Tint::BrightCyan } else { Tint::Cyan },
            Change::Modified => if worktree { Tint::BrightGreen } else { Tint::Green },
            Change::Deleted => if worktree { Tint::BrightRed } else { Tint::Red },
            Change::Renamed | Change::Typechange => if worktree { Tint::BrightBlue } else { Tint::Blue },
            Change::Unchanged => Tint::Plain,
        }
    }
}

pub open spec fn kind_word(kind: Option<ObjectKind>) -> Seq<char> {
    match kind {
        Some(ObjectKind::Blob) => seq!['b', 'l', 'o', 'b'],
        Some(ObjectKind::Tree) => seq!['t', 'r', 'e', 'e'],
        Some(ObjectKind::Commit) => seq!['c', 'o', 'm', 'm', 'i', 't'],
        Some(ObjectKind::Tag) => seq!['t', 'a', 'g'],
        None => seq!['u', 'n', 'k', 'n', 'o', 'w', 'n'],
    }
}

/// The word that heads the display of an object of this kind.
pub fn kind_name(kind: Option<ObjectKind>) -> (r: &'static str)
    ensures
        r@ == kind_word(kind),
{
    proof {
        reveal_strlit("blob");
        reveal_strlit("tree");
        reveal_strlit("commit");
        reveal_strlit("tag");
        reveal_strlit("unknown");
    }
    match kind {
        Some(ObjectKind::Blob) => {
            assert("blob"@ =~= kind_word(kind));
            "blob"
        },
        Some(ObjectKind::Tree) => {
            assert("tree"@ =~= kind_word(kind));
            "tree"
        },
        Some(ObjectKind::Commit) => {
            assert("commit"@ =~= kind_word(kind));
            "commit"
        },
        Some(ObjectKind::Tag) => {
            assert("tag"@ =~= kind_word(kind));
            "tag"
        },
        None => {
            assert("unknown"@ =~= kind_word(kind));
            "unknown"
        },
    }
}

/// How a tree entry's name is decorated: a sigil before it, a slash after
/// it, and its tint.
#[derive(Debug, Clone, Copy, PartialEq, Eq, Structural)]
pub struct EntryStyle {
    pub sigil: Option<char>,
    pub slash: bool,
    pub tint: Tint,
}

/// Subtrees end in `/`, submodule commits start with `@`, tags with `#`.
pub fn entry_style(kind: Option<ObjectKind>) -> (r: EntryStyle)
    ensures
        r == (match kind {
            Some(ObjectKind::Tree) => EntryStyle { sigil: None, slash: true, tint: Tint::Blue },
            Some(ObjectKind::Commit) => EntryStyle { sigil: Some('@'), slash: false, tint: Tint::BrightRed },
            Some(ObjectKind::Tag) => EntryStyle { sigil: Some('#'), slash: false, tint: Tint::BrightCyan },
            _ => EntryStyle { sigil: None, slash: false, tint: Tint::Plain },
        }),
{
    match kind {
        Some(ObjectKind::Tree) => EntryStyle { sigil: None, slash: true, tint: Tint::Blue },
        Some(ObjectKind::Commit) => EntryStyle { sigil: Some('@'), slash: false, tint: Tint::BrightRed },
        Some(ObjectKind::Tag) => EntryStyle { sigil: Some('#'), slash: false, tint: Tint::BrightCyan },
        _ => EntryStyle { sigil: None, slash: false, tint: Tint::Plain },
    }
}

/// How one line of a patch is shown: an optional marker with its tint, and
/// the tint of the line's content.
#[derive(Debug, Clone, Copy, PartialEq, Eq, Structural)]
pub struct LineStyle {
    pub marker: Option<char>,
    pub marker_tint: Tint,
    pub tint: Tint,
}

/// Added lines are green after a `+`, removed lines red after a `-`,
/// context lines white after a space, and anything else cyan.
pub fn line_style(origin: char) -> (r: LineStyle)
    ensures
        r == (if origin == '+' {
            LineStyle { marker: Some('+'), marker_tint: Tint::Green, tint: Tint::Green }
        } else if origin == '-' {
            LineStyle { marker: Some('-'), marker_tint: Tint::Red, tint: Tint::Red }
        } else if origin == ' ' {
            LineStyle { marker: Some(' '), marker_tint: Tint::Plain, tint: Tint::White }
        } else {
            LineStyle { marker: None, marker_tint: Tint::Plain, tint: Tint::Cyan }
        }),
{
    if origin == '+' {
        LineStyle { marker: Some('+'), marker_tint: Tint::Green, tint: Tint::Green }
    } else if origin == '-' {
        LineStyle { marker: Some('-'), marker_tint: Tint::Red, tint: Tint::Red }
    } else if origin == ' ' {
        LineStyle { marker: Some(' '), marker_tint: Tint::Plain, tint: Tint::White }
    } else {
        LineStyle { marker: None, marker_tint: Tint::Plain, tint: Tint::Cyan }
    }
}

/// Whether a branch is listed: remote branches only when asked for.
pub fn lists_branch(is_remote: bool, include_remote: bool) -> (r: bool)
    ensures
        r == (!is_remote || include_remote),
{
    !is_remote || include_remote
}

/// The listing line of a branch: `*` marks the current one, then a space
/// and the name.
pub fn branch_line(name: &str, is_head: bool) -> (r: String)
    ensures
        r@ == seq![if is_head { '*' } else { ' ' }, ' '] + name@,
{
    let mut line = if is_head {
        proof {
            reveal_strlit("* ");
        }
        String::from_str("* ")
    } else {
        proof {
            reveal_strlit("  ");
        }
        String::from_str("  ")
    };
    assert(line@ =~= seq![if is_head { '*' } else { ' ' }, ' ']);
    line.append(name);
    line
}

/// Whether a commit's committer is shown beside its author: when the two
/// differ in name or in email.
pub fn shows_committer(author_name: &str, author_email: &str, committer_name: &str, committer_email: &str) -> (r: bool)
    ensures
        r == (author_name@ != committer_name@ || author_email@ != committer_email@),
{
    !same_text(author_name, committer_name) || !same_text(author_email, committer_email)
}

/// The option characters, separated by slashes.
pub open spec fn slashed(s: Seq<char>) -> Seq<char>
    decreases s.len(),
{
    if s.len() <= 1 {
        s
    } else {
        slashed(s.drop_last()) + seq!['/', s.last()]
    }
}

/// The options of a prompt as shown to the user: `"Yn?"` shows as `Y/n/?`.
pub fn option_display(options: &str) -> (r: String)
    ensures
        r@ == slashed(options@),
{
    let n = options.unicode_len();
    let mut shown = String::new();
    let mut i: usize = 0;
    while i < n
        invariant
            n == options@.len(),
            i <= n,
            shown@ == slashed(options@.subrange(0, i as int)),
        decreases n - i,
    {
        let one = options.substring_char(i, i + 1);
        let ghost before = options@.subrange(0, i as int);
        let ghost after = options@.subrange(0, i + 1);
        assert(after.drop_last() =~= before);
        assert(one@ =~= seq![after.last()]);
        let ghost prev = shown@;
        if i > 0 {
            proof {
                reveal_strlit("/");
            }
            shown.append("/");
            assert("/"@ =~= seq!['/']);
        }
        shown.append(one);
        proof {
            if i == 0 {
                assert(shown@ =~= after);
            } else {
                assert(shown@ =~= prev + seq!['/', after.last()]);
            }
        }
        i = i + 1;
    }
    assert(options@.subrange(0, n as int) =~= options@);
    shown
}

} // verus!
