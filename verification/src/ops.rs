//! File operations of the editor, as data.
//!
//! Every operation the editor performs on disk — renaming a document after
//! a title edit, overwriting it after a body edit, copying a picked file
//! into the workspace — is computed here as a request value holding the
//! exact paths and contents involved. The GUI shell performs each request
//! with a file-system call, logs a failure, and continues; nothing here
//! touches the disk.

use vstd::prelude::*;
use crate::paths::spec_join;
use crate::paths::spec_md_filename;
use crate::paths::spec_title_of;
use crate::paths::join;
use crate::paths::markdown_filename;
use crate::paths::title_from_filename;

verus! {

/// A request to rename the file at `from` to `to`.
#[derive(Debug, Clone)]
pub struct RenameRequest {
    pub from: String,
    pub to: String,
}

/// A request to write `contents` to the file at `path`, creating or
/// truncating it.
#[derive(Debug, Clone)]
pub struct WriteRequest {
    pub path: String,
    pub contents: String,
}

/// A request to copy the file at `from` to `to`.
#[derive(Debug, Clone)]
pub struct CopyRequest {
    pub from: String,
    pub to: String,
}

/// What an open operation yields: the loaded body, the title to show, the
/// filename the document is persisted under, and the working directory the
/// editor switches to.
#[derive(Debug, Clone)]
pub struct FileData {
    pub new_body_text: String,
    pub new_title_text_short: String,
    pub new_old_title_text_short: String,
    pub new_working_dir: String,
}

/// Computes the filename for an edited title and the rename that moves the
/// document there. The new filename `{new_title}.md` is returned
/// unconditionally: whether the rename itself succeeds is the shell's
/// affair and never blocks the title change.
pub fn change_title(previous_filename: String, new_title: String) -> (r: (String, RenameRequest))
    ensures
        r.0@ == spec_md_filename(new_title@),
        r.1.from@ == previous_filename@,
        r.1.to@ == spec_md_filename(new_title@),
{
    let new_name = markdown_filename(new_title.as_str());
    let request = RenameRequest { from: previous_filename, to: new_name.clone() };
    (new_name, request)
}

/// Computes the write that saves `text` as the document titled `title`
/// inside `working_dir`: the full body is written to
/// `{working_dir}/{title}.md`.
pub fn save_file(text: String, title: String, working_dir: String) -> (req: WriteRequest)
    ensures
        req.path@ == spec_join(working_dir@, spec_md_filename(title@)),
        req.contents@ == text@,
{
    let filename = markdown_filename(title.as_str());
    let path = join(working_dir.as_str(), filename.as_str());
    WriteRequest { path, contents: text }
}

/// Computes the copy that brings a file picked outside the workspace into
/// it: the file at `source_path` is copied to `{working_dir}/{file_name}`,
/// keeping its original name.
pub fn copy_into_workspace(source_path: String, working_dir: &str, file_name: &str) -> (req:
    CopyRequest)
    ensures
        req.from@ == source_path@,
        req.to@ == spec_join(working_dir@, file_name@),
{
    let destination = join(working_dir, file_name);
    CopyRequest { from: source_path, to: destination }
}

/// Assembles the result of opening the file named `file_name` once the
/// shell has read `body` from it: the title is the filename with `.md`
/// stripped, the persisted filename is the filename itself, and the editor
/// keeps working in `working_dir`.
pub fn open_file(file_name: String, body: String, working_dir: String) -> (r: FileData)
    ensures
        r.new_body_text@ == body@,
        r.new_title_text_short@ == spec_title_of(file_name@),
        r.new_old_title_text_short@ == file_name@,
        r.new_working_dir@ == working_dir@,
{
    let title = title_from_filename(file_name.as_str());
    FileData {
        new_body_text: body,
        new_title_text_short: title,
        new_old_title_text_short: file_name,
        new_working_dir: working_dir,
    }
}

/// Assembles the result of clicking the markdown entry `file` inside the
/// explorer directory `working_dir`: the same load as [`open_file`], and
/// the working directory becomes the directory containing the clicked
/// entry.
pub fn explorer_open_file(working_dir: &str, file: String, body: String) -> (r: FileData)
    ensures
        r.new_body_text@ == body@,
        r.new_title_text_short@ == spec_title_of(file@),
        r.new_old_title_text_short@ == file@,
        r.new_working_dir@ == working_dir@,
{
    open_file(file, body, String::from_str(working_dir))
}

/// The explorer reaches an entry two directories below the workspace root
/// by joining each directory name in turn; the entry's parent directory is
/// `root/sub1/sub2`, and it is never the root itself.
pub proof fn lemma_descent_parent_dir(root: Seq<char>, sub1: Seq<char>, sub2: Seq<char>)
    ensures
        spec_join(spec_join(root, sub1), sub2) == root + seq!['/'] + sub1 + seq!['/'] + sub2,
        spec_join(spec_join(root, sub1), sub2) != root,
{
    assert(spec_join(spec_join(root, sub1), sub2) =~= root + seq!['/'] + sub1 + seq!['/'] + sub2);
    assert(spec_join(spec_join(root, sub1), sub2).len() > root.len());
}

} // verus!
