//! Core of a minimal markdown note editor.
//!
//! A document is one plain-text file named `{title}.md` inside a working
//! directory. This crate holds the editor's logic: building paths and
//! filenames, deriving a title from a filename, classifying directory
//! entries for the embedded explorer, and turning editor events into
//! file-system requests. A thin GUI shell owns the window and performs the
//! dialog and file-system calls that these functions describe.

pub mod editor;
pub mod entries;
pub mod fsmodel;
pub mod ops;
pub mod paths;
