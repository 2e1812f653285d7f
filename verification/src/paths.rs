//! Paths and filenames, modelled as character sequences.
//!
//! The editor addresses every file by a string path: a working directory,
//! a `/` separator, and an entry name. A markdown filename is a title with
//! the `.md` suffix appended; the title shown for a file is its name with
//! that suffix stripped, or the name unchanged when the suffix is absent.

use vstd::prelude::*;

verus! {

/// The path that addresses entry `name` inside directory `dir`.
pub open spec fn spec_join(dir: Seq<char>, name: Seq<char>) -> Seq<char> {
    dir + seq!['/'] + name
}

/// The filename under which a document titled `title` is persisted.
pub open spec fn spec_md_filename(title: Seq<char>) -> Seq<char> {
    title + seq!['.', 'm', 'd']
}

/// Whether `name` ends in the markdown suffix `.md`.
pub open spec fn spec_has_md_suffix(name: Seq<char>) -> bool {
    &&& name.len() >= 3
    &&& name[name.len() - 3] == '.'
    &&& name[name.len() - 2] == 'm'
    &&& name[name.len() - 1] == 'd'
}

/// The title shown for a file named `name`: the name with a trailing `.md`
/// stripped, or the name unchanged when it has no such suffix.
pub open spec fn spec_title_of(name: Seq<char>) -> Seq<char> {
    if spec_has_md_suffix(name) {
        name.subrange(0, name.len() - 3)
    } else {
        name
    }
}

/// Joins a directory and an entry name with a `/` separator.
pub fn join(dir: &str, name: &str) -> (r: String)
    ensures
        r@ == spec_join(dir@, name@),
{
    let r = String::from_str(dir).concat("/").concat(name);
    proof {
        reveal_strlit("/");
        assert(r@ =~= spec_join(dir@, name@));
    }
    r
}

/// Appends the `.md` suffix to a title, yielding the document's filename.
pub fn markdown_filename(title: &str) -> (r: String)
    ensures
        r@ == spec_md_filename(title@),
{
    let r = String::from_str(title).concat(".md");
    proof {
        reveal_strlit(".md");
        assert(r@ =~= spec_md_filename(title@));
    }
    r
}

/// Reports whether a filename ends in `.md`.
pub fn has_md_suffix(name: &str) -> (b: bool)
    ensures
        b == spec_has_md_suffix(name@),
{
    let len = name.unicode_len();
    if len < 3 {
        return false;
    }
    let c0 = name.get_char(len - 3);
    let c1 = name.get_char(len - 2);
    let c2 = name.get_char(len - 1);
    c0 == '.' && c1 == 'm' && c2 == 'd'
}

/// Derives the displayed title from a filename: strips a trailing `.md`,
/// and leaves any other name unchanged.
pub fn title_from_filename(name: &str) -> (r: String)
    ensures
        r@ == spec_title_of(name@),
{
    if has_md_suffix(name) {
        let len = name.unicode_len();
        let stem = name.substring_char(0, len - 3);
        String::from_str(stem)
    } else {
        String::from_str(name)
    }
}

/// Deriving a title from the filename built for that title gives the title
/// back: `.md` round-trips through `spec_md_filename` and `spec_title_of`.
pub proof fn lemma_title_of_md_filename(title: Seq<char>)
    ensures
        spec_title_of(spec_md_filename(title)) == title,
{
    let name = spec_md_filename(title);
    assert(spec_has_md_suffix(name));
    assert(name.subrange(0, name.len() - 3) =~= title);
}

} // verus!
