//! Which files of the project tree are pushed, and under what name.
use vstd::prelude::*;
use crate::text::{opt_text, ends_with, starts_with, text_eq, text_ends_with, text_starts_with};

verus! {

/// The project root, relative to the bridge's working directory.
pub const PROJECT_ROOT: &'static str = "..";

/// The directory of the bridge itself, whose files are never pushed.
pub const SELF_DIR: &'static str = "file-manager";

/// The suffix of the script files that are pushed.
pub const SCRIPT_SUFFIX: &'static str = ".js";

/// What to do with one entry of the walk over the project tree.
pub enum EntryAction {
    /// Do not descend into this directory.
    SkipDir,
    /// Push this file under the given name.
    Push(String),
    /// Neither: go on with the walk.
    Ignore,
}

/// The name of the file at `path` relative to `root`: the root and the
/// separator after it taken off, the rest kept as it is.
pub open spec fn relative_name(root: Seq<char>, path: Seq<char>) -> Option<Seq<char>> {
    if !starts_with(path, root) {
        None
    } else {
        let rest = path.subrange(root.len() as int, path.len() as int);
        let name = if rest.len() > 0 && rest[0] == '/' {
            rest.drop_first()
        } else {
            rest
        };
        if name.len() == 0 {
            None
        } else {
            Some(name)
        }
    }
}

/// What to do with a walk entry at `path`, whose last component is
/// `file_name`.
pub open spec fn entry_action(
    root: Seq<char>,
    path: Seq<char>,
    file_name: Seq<char>,
    is_dir: bool,
    is_file: bool,
) -> Option<Option<Seq<char>>> {
    if is_dir && file_name == SELF_DIR@ {
        None
    } else if is_file && ends_with(file_name, SCRIPT_SUFFIX@) {
        Some(relative_name(root, path))
    } else {
        Some(None)
    }
}

impl EntryAction {
    /// `None` to skip a directory, else the name to push under, if any.
    pub open spec fn spec_view(self) -> Option<Option<Seq<char>>> {
        match self {
            EntryAction::SkipDir => None,
            EntryAction::Push(n) => Some(Some(n@)),
            EntryAction::Ignore => Some(None),
        }
    }
}

/// The name of the file at `path` relative to `root`; `None` when `path`
/// does not lie below `root`.
pub fn push_name(root: &str, path: &str) -> (r: Option<String>)
    ensures
        opt_text(r) == relative_name(root@, path@),
{
    if !text_starts_with(path, root) {
        return None;
    }
    let n = path.unicode_len();
    let k = root.unicode_len();
    let mut start = k;
    if k < n && path.get_char(k) == '/' {
        start = k + 1;
    }
    if start >= n {
        return None;
    }
    let name = path.substring_char(start, n);
    proof {
        let rest = path@.subrange(k as int, n as int);
        if start == k + 1 {
            assert(rest.drop_first() =~= name@);
        } else {
            assert(rest =~= name@);
        }
    }
    Some(String::from_str(name))
}

/// What to do with a walk entry at `path` below `root`, whose last
/// component is `file_name`: skip the bridge's own directory, push each
/// script file under its name relative to the root, ignore the rest.
pub fn classify_entry(root: &str, path: &str, file_name: &str, is_dir: bool, is_file: bool) -> (r: EntryAction)
    ensures
        r.spec_view() == entry_action(root@, path@, file_name@, is_dir, is_file),
{
    if is_dir && text_eq(file_name, SELF_DIR) {
        EntryAction::SkipDir
    } else if is_file && text_ends_with(file_name, SCRIPT_SUFFIX) {
        match push_name(root, path) {
            Some(n) => EntryAction::Push(n),
            None => EntryAction::Ignore,
        }
    } else {
        EntryAction::Ignore
    }
}

} // verus!
