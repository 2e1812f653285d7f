//! Classification of directory entries for the embedded explorer.
//!
//! The explorer lists a directory and shows each entry according to its
//! kind: directories become expandable nodes, markdown files become
//! clickable labels, and every other file is listed but inert. The listing
//! itself is a file-system call made by the shell; this module classifies
//! the raw entries the shell hands back.

use vstd::prelude::*;
use crate::paths::spec_has_md_suffix;
use crate::paths::has_md_suffix;

verus! {

/// The kind of a directory entry, as the explorer renders it.
#[derive(Debug, Clone, Copy, PartialEq, Eq, Structural)]
pub enum FileType {
    File,
    Directory,
    Markdown,
}

/// One classified entry of a directory listing.
#[derive(Debug, Clone)]
pub struct FileEntry {
    pub name: String,
    pub file_type: FileType,
}

/// One raw entry of a directory listing, as the file system reports it:
/// the entry's name and whether it is a directory.
#[derive(Debug, Clone)]
pub struct RawEntry {
    pub name: String,
    pub is_dir: bool,
}

/// The kind assigned to an entry: directories are `Directory`, files ending
/// in `.md` are `Markdown`, and every other file is `File`.
pub open spec fn spec_classify(name: Seq<char>, is_dir: bool) -> FileType {
    if is_dir {
        FileType::Directory
    } else if spec_has_md_suffix(name) {
        FileType::Markdown
    } else {
        FileType::File
    }
}

/// Classifies a single directory entry.
pub fn classify_entry(name: &str, is_dir: bool) -> (t: FileType)
    ensures
        t == spec_classify(name@, is_dir),
{
    if is_dir {
        FileType::Directory
    } else if has_md_suffix(name) {
        FileType::Markdown
    } else {
        FileType::File
    }
}

/// Classifies every entry of a directory listing, in order: the result has
/// one entry per raw entry, with the same name and its assigned kind.
pub fn classify_entries(raw: &Vec<RawEntry>) -> (out: Vec<FileEntry>)
    ensures
        out@.len() == raw@.len(),
        forall|i: int|
            0 <= i < raw@.len() ==> out@[i].name@ == raw@[i].name@ && out@[i].file_type
                == spec_classify(raw@[i].name@, raw@[i].is_dir),
{
    let mut out: Vec<FileEntry> = Vec::new();
    let mut i: usize = 0;
    while i < raw.len()
        invariant
            i <= raw.len(),
            out@.len() == i as nat,
            forall|j: int|
                0 <= j < i ==> out@[j].name@ == raw@[j].name@ && out@[j].file_type
                    == spec_classify(raw@[j].name@, raw@[j].is_dir),
        decreases raw.len() - i,
    {
        let entry = &raw[i];
        let t = classify_entry(entry.name.as_str(), entry.is_dir);
        out.push(FileEntry { name: entry.name.clone(), file_type: t });
        i = i + 1;
    }
    out
}

} // verus!
