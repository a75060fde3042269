//! Where the engine's resources live, and the choice of a resource file among the
//! entries of a directory walk.

use vstd::prelude::*;

verus! {

/// Whether two texts are equal, character for character.
pub fn same_text(a: &str, b: &str) -> (same: bool)
    ensures
        same == (a@ == b@),
{
    a.to_owned() == b.to_owned()
}

/// An entry met while walking the resource directory. `name` is the entry's file name,
/// or the empty text where that name is not valid Unicode.
pub struct DirEntry {
    pub name: String,
    pub is_dir: bool,
}

/// Whether `entry` is a file (not a directory) called `file_name`.
pub open spec fn names_file(entry: DirEntry, file_name: Seq<char>) -> bool {
    !entry.is_dir && entry.name@ == file_name
}

pub struct FileSystem {}

impl FileSystem {
    /// The name of the resource directory, relative to the working directory.
    pub fn res_path() -> (path: String)
        ensures
            path@ == seq!['r', 'e', 's'],
    {
        let path = "res".to_owned();
        proof {
            reveal_strlit("res");
        }
        path
    }

    /// The entry, among those of a walk of the resource directory in walk order, that
    /// names the requested file: the first file (not directory) whose name equals
    /// `file_name`. `None` where there is none; finding no file is an error for the caller.
    pub fn find_file(file_name: &str, entries: &Vec<DirEntry>) -> (found: Option<usize>)
        ensures
            match found {
                Some(i) => i < entries@.len() && names_file(entries@[i as int], file_name@)
                    && forall|j: int| 0 <= j < i ==> !names_file(#[trigger] entries@[j], file_name@),
                None => forall|j: int|
                    0 <= j < entries@.len() ==> !names_file(#[trigger] entries@[j], file_name@),
            },
    {
        let mut i: usize = 0;
        while i < entries.len()
            invariant
                i <= entries@.len(),
                forall|j: int| 0 <= j < i ==> !names_file(#[trigger] entries@[j], file_name@),
            decreases entries@.len() - i,
        {
            let entry = &entries[i];
            if !entry.is_dir && same_text(file_name, entry.name.as_str()) {
                return Some(i);
            }
            i = i + 1;
        }
        None
    }
}

} // verus!
