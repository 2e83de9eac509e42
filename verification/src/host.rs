//! What the monitor reads of the machine: file paths, and the running
//! processes by name.
use vstd::prelude::*;
use std::path::PathBuf;
use crate::text::{chars_of, same_ignoring_ascii_case, same_ignoring_case};

verus! {

/// A file path, carried through unchanged.
#[verifier::external_type_specification]
#[verifier::external_body]
pub struct ExPathBuf(PathBuf);

/// `PathBuf::clone`: an equal path.
#[verifier::external_body]
pub fn clone_path(p: &PathBuf) -> (r: PathBuf)
    ensures
        r == *p,
{
    p.clone()
}

/// A copy of an optional path.
pub fn clone_optional_path(p: &Option<PathBuf>) -> (r: Option<PathBuf>)
    ensures
        r == *p,
{
    match p {
        Some(path) => Some(clone_path(path)),
        None => None,
    }
}

/// The first path, or else the second.
pub fn select_path(first: Option<PathBuf>, fallback: Option<PathBuf>) -> (r: Option<PathBuf>)
    ensures
        r == (if first is Some {
            first
        } else {
            fallback
        }),
{
    match first {
        Some(p) => Some(p),
        None => fallback,
    }
}

/// A running process: its name, and the file that it offers where that file
/// exists (its executable, or a file beside it).
#[derive(Debug, Clone)]
pub struct ProcessEntry {
    pub name: String,
    pub path: Option<PathBuf>,
}

/// The process is called `name`, ignoring ASCII case.
pub open spec fn is_named(e: ProcessEntry, name: Seq<char>) -> bool {
    same_ignoring_ascii_case(e.name@, name)
}

/// Scanning up from `i`, the file of the first process called `name` that
/// offers one.
pub open spec fn first_named_path(ps: Seq<ProcessEntry>, name: Seq<char>, i: int) -> Option<PathBuf>
    decreases ps.len() - i,
{
    if i < 0 || i >= ps.len() {
        None
    } else if is_named(ps[i], name) && ps[i].path is Some {
        ps[i].path
    } else {
        first_named_path(ps, name, i + 1)
    }
}

/// Some process is called `name`.
pub open spec fn any_named(ps: Seq<ProcessEntry>, name: Seq<char>) -> bool {
    exists|i: int| 0 <= i < ps.len() && is_named(#[trigger] ps[i], name)
}

/// The file of the first process called `name` that offers one.
pub fn first_path_named(processes: &Vec<ProcessEntry>, name: &str) -> (r: Option<PathBuf>)
    ensures
        r == first_named_path(processes@, name@, 0),
{
    let wanted = chars_of(name);
    let mut i: usize = 0;
    while i < processes.len()
        invariant
            i <= processes.len(),
            wanted@ == name@,
            first_named_path(processes@, name@, 0) == first_named_path(processes@, name@, i as int),
        decreases processes.len() - i,
    {
        let e = &processes[i];
        let n = chars_of(e.name.as_str());
        if same_ignoring_case(&n, &wanted) && e.path.is_some() {
            return clone_optional_path(&e.path);
        }
        i = i + 1;
    }
    None
}

/// Whether some process is called `name`.
pub fn is_running(processes: &Vec<ProcessEntry>, name: &str) -> (r: bool)
    ensures
        r == any_named(processes@, name@),
{
    let wanted = chars_of(name);
    let mut i: usize = 0;
    while i < processes.len()
        invariant
            i <= processes.len(),
            wanted@ == name@,
            forall|j: int| 0 <= j < i ==> !is_named(#[trigger] processes@[j], name@),
        decreases processes.len() - i,
    {
        let n = chars_of(processes[i].name.as_str());
        if same_ignoring_case(&n, &wanted) {
            assert(is_named(processes@[i as int], name@));
            return true;
        }
        i = i + 1;
    }
    false
}

} // verus!
