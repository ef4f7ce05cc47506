//! Local files: the name under which a file is attached, and what the
//! loader hands on once a file was read.

use vstd::prelude::*;
use crate::text::{chars_of, slice_of, string_of};

verus! {

/// What became of the attempt to read one local file.
#[derive(Debug, PartialEq, Eq)]
pub enum FileOutcome {
    /// The file is missing or could not be read.
    Unreadable,
    /// The file was read; these are its bytes.
    Available(Vec<u8>),
}

impl View for FileOutcome {
    type V = Option<Seq<u8>>;

    open spec fn view(&self) -> Option<Seq<u8>> {
        match self {
            FileOutcome::Unreadable => None,
            FileOutcome::Available(content) => Some(content@),
        }
    }
}

/// Why a local file cannot be attached.
#[derive(Clone, Copy, Debug, PartialEq, Eq, Structural)]
pub enum FileError {
    /// The file is missing or could not be read.
    Unreadable,
    /// The path names no file: it is empty, or ends in `/`, `.` or `..`
    /// with nothing before that could be a name.
    NoFileName,
}

/// Where the last component of `path` begins: behind the last `/`, or at 0.
pub open spec fn component_start(path: Seq<char>) -> int
    decreases path.len(),
{
    if path.len() == 0 || path.last() == '/' {
        path.len() as int
    } else {
        component_start(path.drop_last())
    }
}

/// The last component begins inside the path, behind a `/` or at 0, and
/// holds no `/`.
pub proof fn lemma_component_start(path: Seq<char>)
    ensures
        0 <= component_start(path) <= path.len(),
        component_start(path) == 0 || path[component_start(path) - 1] == '/',
        forall|k: int| component_start(path) <= k < path.len() ==> path[k] != '/',
        path.len() > 0 && path.last() != '/' ==> component_start(path) < path.len(),
    decreases path.len(),
{
    if path.len() == 0 || path.last() == '/' {
    } else {
        let shorter = path.drop_last();
        lemma_component_start(shorter);
        assert forall|k: int| component_start(path) <= k < path.len() implies path[k] != '/' by {
            if k < shorter.len() {
                assert(shorter[k] != '/');
            }
        }
    }
}

/// The base file name of `path`, with `/` as the separator: the last
/// component, where trailing separators and trailing `.` components do not
/// count. There is none where nothing is left, or where `..` is left last.
pub open spec fn file_name(path: Seq<char>) -> Option<Seq<char>>
    decreases path.len(),
    via file_name_decreases
{
    if path.len() == 0 {
        None
    } else if path.last() == '/' {
        file_name(path.drop_last())
    } else {
        let start = component_start(path);
        let last = path.skip(start);
        if last == seq!['.', '.'] {
            None
        } else if last == seq!['.'] {
            file_name(path.take(start))
        } else {
            Some(last)
        }
    }
}

#[via_fn]
proof fn file_name_decreases(path: Seq<char>) {
    if path.len() > 0 && path.last() != '/' {
        lemma_component_start(path);
    }
}

/// A base file name is a component of its path: it is not empty, holds no
/// separator, is neither `.` nor `..`, and stands in the path.
pub proof fn lemma_file_name_is_a_component(path: Seq<char>)
    requires
        file_name(path) is Some,
    ensures
        ({
            let name = file_name(path)->0;
            &&& name.len() > 0
            &&& forall|k: int| 0 <= k < name.len() ==> name[k] != '/'
            &&& name != seq!['.']
            &&& name != seq!['.', '.']
            &&& crate::text::contains(path, name)
        }),
    decreases path.len(),
{
    let name = file_name(path)->0;
    if path.last() == '/' {
        let shorter = path.drop_last();
        lemma_file_name_is_a_component(shorter);
        let at = choose|at: int| crate::text::occurs_at(shorter, name, at);
        assert(path.subrange(at, at + name.len()) =~= shorter.subrange(at, at + name.len()));
        assert(crate::text::occurs_at(path, name, at));
    } else {
        lemma_component_start(path);
        let start = component_start(path);
        let last = path.skip(start);
        if last == seq!['.'] {
            let shorter = path.take(start);
            lemma_file_name_is_a_component(shorter);
            let at = choose|at: int| crate::text::occurs_at(shorter, name, at);
            assert(path.subrange(at, at + name.len()) =~= shorter.subrange(at, at + name.len()));
            assert(crate::text::occurs_at(path, name, at));
        } else {
            assert(name == last);
            assert forall|k: int| 0 <= k < name.len() implies name[k] != '/' by {
                assert(name[k] == path[start + k]);
            }
            assert(path.subrange(start, start + name.len()) =~= name);
            assert(crate::text::occurs_at(path, name, start));
        }
    }
}

/// The base file name of `path`, as `file_name` defines it.
pub fn base_name(path: &Vec<char>) -> (name: Option<Vec<char>>)
    ensures
        match name {
            Some(chars) => file_name(path@) == Some(chars@),
            None => file_name(path@) is None,
        },
{
    let mut end: usize = path.len();
    proof {
        assert(path@.take(end as int) =~= path@);
    }
    loop
        invariant
            end <= path.len(),
            file_name(path@.take(end as int)) == file_name(path@),
        decreases end,
    {
        let ghost head = path@.take(end as int);
        if end == 0 {
            return None;
        }
        if path[end - 1] == '/' {
            proof {
                assert(head.last() == '/');
                assert(head.drop_last() =~= path@.take(end - 1));
            }
            end -= 1;
            continue;
        }
        let mut start: usize = end;
        while start > 0 && path[start - 1] != '/'
            invariant
                start <= end <= path.len(),
                head == path@.take(end as int),
                component_start(path@.take(start as int)) == component_start(head),
            decreases start,
        {
            proof {
                let cur = path@.take(start as int);
                assert(cur.last() != '/');
                assert(cur.drop_last() =~= path@.take(start - 1));
            }
            start -= 1;
        }
        proof {
            let cur = path@.take(start as int);
            assert(start > 0 ==> cur.last() == '/');
            assert(component_start(head) == start);
            assert(head.skip(start as int) =~= path@.subrange(start as int, end as int));
            assert(head.last() != '/');
            assert(head.take(start as int) =~= path@.take(start as int));
        }
        let ghost last = path@.subrange(start as int, end as int);
        if end - start == 1 && path[start] == '.' {
            proof {
                assert(last =~= seq!['.']);
            }
            end = start;
            continue;
        }
        if end - start == 2 && path[start] == '.' && path[start + 1] == '.' {
            proof {
                assert(last =~= seq!['.', '.']);
            }
            return None;
        }
        proof {
            assert(last != seq!['.']) by {
                if last == seq!['.'] {
                    assert(last.len() == 1 && last[0] == '.');
                }
            }
            assert(last != seq!['.', '.']) by {
                if last == seq!['.', '.'] {
                    assert(last.len() == 2 && last[0] == '.' && last[1] == '.');
                }
            }
        }
        return Some(slice_of(path, start, end));
    }
}

/// What the loader hands on for the file at `path`, given what reading it
/// gave: the bytes together with the base file name.
pub open spec fn loaded_file(path: Seq<char>, outcome: Option<Seq<u8>>) -> Result<
    (Seq<u8>, Seq<char>),
    FileError,
> {
    match outcome {
        None => Err(FileError::Unreadable),
        Some(content) => match file_name(path) {
            None => Err(FileError::NoFileName),
            Some(name) => Ok((content, name)),
        },
    }
}

/// The mathematical content of what the loader hands on.
pub open spec fn loaded_view(loaded: Result<(Vec<u8>, String), FileError>) -> Result<
    (Seq<u8>, Seq<char>),
    FileError,
> {
    match loaded {
        Ok((content, name)) => Ok((content@, name@)),
        Err(fault) => Err(fault),
    }
}

/// Pairs the bytes read from the file at `path` with the file's base name.
/// Reading the file is the caller's part; `outcome` says how it went.
pub fn get_file_content_with_name(path: &str, outcome: FileOutcome) -> (loaded: Result<
    (Vec<u8>, String),
    FileError,
>)
    ensures
        loaded_view(loaded) == loaded_file(path@, outcome@),
{
    match outcome {
        FileOutcome::Unreadable => Err(FileError::Unreadable),
        FileOutcome::Available(content) => {
            let chars = chars_of(path);
            match base_name(&chars) {
                None => Err(FileError::NoFileName),
                Some(name) => Ok((content, string_of(&name))),
            }
        },
    }
}

} // verus!
