//! The editor's document state and its event transitions.
//!
//! The shell owns one [`Document`] and calls one method per UI event: a
//! title edit yields the rename request that moves the file, a body edit
//! yields the write request that saves it, and an open operation's result
//! overwrites the document. Each method says exactly how the state changes
//! and which file operation the shell must perform.

use vstd::prelude::*;
use crate::ops::FileData;
use crate::ops::RenameRequest;
use crate::ops::WriteRequest;
use crate::ops::change_title;
use crate::ops::save_file;
use crate::paths::spec_join;
use crate::paths::spec_md_filename;

verus! {

/// The current document: the body and title being edited, and the filename
/// the document was last persisted under, so that a title edit can locate
/// and rename the existing file.
#[derive(Debug, Clone)]
pub struct Document {
    pub body_text: String,
    pub title_text: String,
    pub old_name: String,
}

impl Default for Document {
    /// A fresh document: empty body, title `untitled`, persisted as
    /// `untitled.md`.
    fn default() -> (d: Document)
        ensures
            d.body_text@ == Seq::<char>::empty(),
            d.title_text@ == "untitled"@,
            d.old_name@ == spec_md_filename(d.title_text@),
    {
        let d = Document {
            body_text: String::new(),
            title_text: String::from_str("untitled"),
            old_name: String::from_str("untitled.md"),
        };
        proof {
            reveal_strlit("untitled");
            reveal_strlit("untitled.md");
            assert(d.old_name@ =~= spec_md_filename(d.title_text@));
        }
        d
    }
}

impl Document {
    /// The title was edited: the persisted filename becomes
    /// `{title}.md`, and the returned request renames the file from the
    /// previously persisted name to the new one. Title and body are
    /// untouched.
    pub fn on_title_changed(&mut self) -> (req: RenameRequest)
        ensures
            final(self).body_text@ == old(self).body_text@,
            final(self).title_text@ == old(self).title_text@,
            final(self).old_name@ == spec_md_filename(old(self).title_text@),
            req.from@ == old(self).old_name@,
            req.to@ == final(self).old_name@,
    {
        let (new_name, request) = change_title(self.old_name.clone(), self.title_text.clone());
        self.old_name = new_name;
        request
    }

    /// The body was edited: the returned request writes the full body to
    /// `{working_dir}/{title}.md`. The document itself is unchanged.
    pub fn on_body_changed(&self, working_dir: &str) -> (req: WriteRequest)
        ensures
            req.path@ == spec_join(working_dir@, spec_md_filename(self.title_text@)),
            req.contents@ == self.body_text@,
    {
        save_file(self.body_text.clone(), self.title_text.clone(), String::from_str(working_dir))
    }

    /// An open operation finished: its result overwrites the document, and
    /// the working directory it carries is handed back for the shell to
    /// adopt.
    pub fn apply_load(&mut self, data: FileData) -> (dir: String)
        ensures
            final(self).body_text@ == data.new_body_text@,
            final(self).title_text@ == data.new_title_text_short@,
            final(self).old_name@ == data.new_old_title_text_short@,
            dir@ == data.new_working_dir@,
    {
        self.body_text = data.new_body_text;
        self.title_text = data.new_title_text_short;
        self.old_name = data.new_old_title_text_short;
        data.new_working_dir
    }
}

} // verus!
