//! A model of the files the editor touches.
//!
//! The shell's file-system calls are modelled as functions on a map from
//! paths to contents: a write inserts, a rename moves, a copy duplicates,
//! and a read yields the stored contents — or the empty body, since a
//! failed read is logged and replaced by an empty document. The lemmas
//! state what the editor's requests guarantee once the shell performs
//! them.

use vstd::prelude::*;
use crate::paths::spec_join;
use crate::paths::spec_md_filename;

verus! {

/// The files visible to the editor: each path holds its contents.
pub type FsModel = Map<Seq<char>, Seq<char>>;

/// The contents read at `path`: the stored contents when the file exists,
/// the empty body otherwise.
pub open spec fn read_file(fs: FsModel, path: Seq<char>) -> Seq<char> {
    if fs.dom().contains(path) {
        fs[path]
    } else {
        Seq::empty()
    }
}

/// Writing `contents` to `path` creates or truncates that file and leaves
/// every other file alone.
pub open spec fn write_file(fs: FsModel, path: Seq<char>, contents: Seq<char>) -> FsModel {
    fs.insert(path, contents)
}

/// Renaming `from` to `to` moves the file when it exists and changes
/// nothing when it does not.
pub open spec fn rename_file(fs: FsModel, from: Seq<char>, to: Seq<char>) -> FsModel {
    if fs.dom().contains(from) {
        fs.remove(from).insert(to, fs[from])
    } else {
        fs
    }
}

/// Copying `from` to `to` duplicates the file's contents when it exists
/// and changes nothing when it does not.
pub open spec fn copy_file(fs: FsModel, from: Seq<char>, to: Seq<char>) -> FsModel {
    if fs.dom().contains(from) {
        fs.insert(to, fs[from])
    } else {
        fs
    }
}

/// Saving a body under a title and then reading `{title}.md` in the same
/// directory yields exactly that body.
pub proof fn lemma_save_round_trip(fs: FsModel, body: Seq<char>, title: Seq<char>, dir: Seq<char>)
    ensures
        read_file(
            write_file(fs, spec_join(dir, spec_md_filename(title)), body),
            spec_join(dir, spec_md_filename(title)),
        ) == body,
{
}

/// Renaming from a filename that does not exist changes no file at all —
/// the request is performed, fails, and is ignored.
pub proof fn lemma_rename_missing_source(fs: FsModel, from: Seq<char>, to: Seq<char>)
    requires
        !fs.dom().contains(from),
    ensures
        rename_file(fs, from, to) == fs,
{
}

/// Copying a file picked outside the workspace to
/// `{working_dir}/{file_name}` puts its contents there byte for byte:
/// reading the workspace copy yields exactly the source's contents.
pub proof fn lemma_copy_into_workspace(fs: FsModel, source: Seq<char>, dir: Seq<char>, name: Seq<char>)
    requires
        fs.dom().contains(source),
    ensures
        read_file(copy_file(fs, source, spec_join(dir, name)), spec_join(dir, name)) == fs[source],
{
}

} // verus!
