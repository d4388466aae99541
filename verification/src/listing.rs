//! Directory entries and the selection of regular files.
//!
//! The caller reads the source directory and hands over one [`DirEntry`]
//! per entry it saw: the entry's path and what kind of entry it is. Only
//! regular files take part in a run; directories, special files, and
//! entries whose type could not be determined are skipped.

use vstd::prelude::*;

verus! {

/// What kind of directory entry was found.
#[derive(Clone, Copy, PartialEq, Eq, Structural, Debug)]
pub enum EntryKind {
    /// A regular file.
    File,
    /// A directory, symlink, socket, device, or other non-file entry.
    NonFile,
    /// The entry's type could not be determined.
    Unknown,
}

/// One entry of the source directory, as the caller saw it.
#[derive(Debug)]
pub struct DirEntry {
    /// The entry's path.
    pub path: String,
    /// The entry's kind.
    pub kind: EntryKind,
}

/// The paths of the regular files among `entries`, in listing order.
pub open spec fn regular_file_paths(entries: Seq<DirEntry>) -> Seq<Seq<char>>
    decreases entries.len(),
{
    if entries.len() == 0 {
        Seq::empty()
    } else {
        let rest = regular_file_paths(entries.drop_last());
        if entries.last().kind is File {
            rest.push(entries.last().path@)
        } else {
            rest
        }
    }
}

/// A directory holding regular files and nothing else loses no entry to
/// the filter: every path is kept, in listing order, so a listing of N
/// regular files always yields exactly N files to pair.
pub proof fn lemma_all_files_are_kept(entries: Seq<DirEntry>)
    requires
        forall|k: int| 0 <= k < entries.len() ==> (#[trigger] entries[k]).kind is File,
    ensures
        regular_file_paths(entries).len() == entries.len(),
        forall|k: int|
            0 <= k < entries.len() ==> regular_file_paths(entries)[k] == (#[trigger] entries[k]).path@,
    decreases entries.len(),
{
    if entries.len() > 0 {
        assert forall|k: int|
            0 <= k < entries.drop_last().len() implies (#[trigger] entries.drop_last()[k]).kind
            is File by {
            assert(entries.drop_last()[k] == entries[k]);
        }
        lemma_all_files_are_kept(entries.drop_last());
        let rest = regular_file_paths(entries.drop_last());
        assert forall|k: int|
            0 <= k < entries.len() implies regular_file_paths(entries)[k] == (#[trigger] entries[k]).path@ by {
            if k < entries.len() - 1 {
                assert(entries.drop_last()[k] == entries[k]);
                assert(rest[k] == entries.drop_last()[k].path@);
            } else {
                assert(regular_file_paths(entries)[k] == entries.last().path@);
            }
        }
    }
}

/// Keep exactly the regular files of `entries`, in order, dropping every
/// other kind of entry.
pub fn filter_regular_files(entries: &Vec<DirEntry>) -> (files: Vec<String>)
    ensures
        files.deep_view() == regular_file_paths(entries@),
{
    let mut files: Vec<String> = Vec::new();
    let n = entries.len();
    proof {
        assert(files.deep_view() =~= regular_file_paths(entries@.take(0)));
    }
    for i in 0..n
        invariant
            n == entries@.len(),
            files.deep_view() == regular_file_paths(entries@.take(i as int)),
    {
        let ghost prev = files.deep_view();
        match entries[i].kind {
            EntryKind::File => {
                files.push(entries[i].path.clone());
                proof {
                    assert(files.deep_view() =~= prev.push(entries@[i as int].path@));
                }
            },
            EntryKind::NonFile => {},
            EntryKind::Unknown => {},
        }
        proof {
            assert(entries@.take(i + 1).drop_last() =~= entries@.take(i as int));
            assert(entries@.take(i + 1).last() == entries@[i as int]);
        }
    }
    proof {
        assert(entries@.take(n as int) =~= entries@);
    }
    files
}

} // verus!
