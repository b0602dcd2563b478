//! Splitting a path into directory, stem and extension, and picking the
//! files of a listing by their extension.
use vstd::prelude::*;
use crate::error::{WikitError, WikitResult};
use crate::text::views;

verus! {

/// What `Path::parent` gives for the path `p`, as text.
pub uninterp spec fn parent_of(p: Seq<char>) -> Option<Seq<char>>;

/// What `Path::file_stem` gives for the path `p`, as text.
pub uninterp spec fn stem_of(p: Seq<char>) -> Option<Seq<char>>;

/// What `Path::extension` gives for the path `p`, as text.
pub uninterp spec fn extension_of(p: Seq<char>) -> Option<Seq<char>>;

/// Relies on `Path::parent`: the directory that holds `p`, if any. A part of
/// a `str` path is valid UTF-8, so it converts back to text.
#[verifier::external_body]
fn path_parent(p: &str) -> (r: Option<String>)
    ensures
        r matches Some(d) ==> parent_of(p@) == Some(d@),
        r is None ==> parent_of(p@) is None,
{
    std::path::Path::new(p).parent().and_then(|d| d.to_str()).map(|d| d.to_string())
}

/// Relies on `Path::file_stem`: the file name without its extension, if any.
#[verifier::external_body]
fn path_stem(p: &str) -> (r: Option<String>)
    ensures
        r matches Some(d) ==> stem_of(p@) == Some(d@),
        r is None ==> stem_of(p@) is None,
{
    std::path::Path::new(p).file_stem().and_then(|d| d.to_str()).map(|d| d.to_string())
}

/// Relies on `Path::extension`: the text after the last dot of the file
/// name, if any.
#[verifier::external_body]
fn path_extension(p: &str) -> (r: Option<String>)
    ensures
        r matches Some(d) ==> extension_of(p@) == Some(d@),
        r is None ==> extension_of(p@) is None,
{
    std::path::Path::new(p).extension().and_then(|d| d.to_str()).map(|d| d.to_string())
}

/// The message of the error for a path that lacks one of its parts.
pub open spec fn missing_part_message(p: Seq<char>) -> Seq<char> {
    if parent_of(p) is None {
        "cannot get parent directory of "@ + p
    } else if stem_of(p) is None {
        "cannot get file stem from ["@ + p + "]"@
    } else {
        "cannot get extension of ["@ + p + "]"@
    }
}

/// Splits the (canonical) path `path` into its directory, file stem and
/// extension; a plain error names the first of them that is missing.
pub fn split_path(path: &str) -> (r: WikitResult<(String, String, String)>)
    ensures
        r is Ok <==> parent_of(path@) is Some && stem_of(path@) is Some && extension_of(
            path@,
        ) is Some,
        r matches Ok(t) ==> parent_of(path@) == Some(t.0@) && stem_of(path@) == Some(t.1@)
            && extension_of(path@) == Some(t.2@),
        r matches Err(e) ==> e matches WikitError::Plain(m) && m@ == missing_part_message(path@),
{
    let parent = match path_parent(path) {
        Some(d) => d,
        None => {
            return Err(
                WikitError::Plain(String::from_str("cannot get parent directory of ").concat(path)),
            );
        },
    };
    let stem = match path_stem(path) {
        Some(s) => s,
        None => {
            return Err(
                WikitError::Plain(
                    String::from_str("cannot get file stem from [").concat(path).concat("]"),
                ),
            );
        },
    };
    let ext = match path_extension(path) {
        Some(e) => e,
        None => {
            return Err(
                WikitError::Plain(
                    String::from_str("cannot get extension of [").concat(path).concat("]"),
                ),
            );
        },
    };
    Ok((parent, stem, ext))
}

/// The paths of `paths`, in order, whose extension is `ext`.
pub open spec fn with_extension(paths: Seq<Seq<char>>, ext: Seq<char>) -> Seq<Seq<char>>
    decreases paths.len(),
{
    if paths.len() == 0 {
        Seq::empty()
    } else if extension_of(paths.last()) == Some(ext) {
        with_extension(paths.drop_last(), ext).push(paths.last())
    } else {
        with_extension(paths.drop_last(), ext)
    }
}

/// The entries of a directory listing whose extension is `suffix`, in the
/// order of the listing; `None` when there is none.
pub fn filter_file_by_suffix(entries: &Vec<String>, suffix: &str) -> (r: Option<Vec<String>>)
    ensures
        r is None <==> with_extension(views(entries@), suffix@).len() == 0,
        r matches Some(v) ==> views(v@) == with_extension(views(entries@), suffix@),
{
    let wanted = String::from_str(suffix);
    let mut out: Vec<String> = Vec::new();
    let mut i: usize = 0;
    while i < entries.len()
        invariant
            i <= entries.len(),
            wanted@ == suffix@,
            views(out@) == with_extension(views(entries@).take(i as int), suffix@),
        decreases entries.len() - i,
    {
        let ghost before = views(entries@).take(i as int);
        assert(views(entries@).take(i + 1).drop_last() =~= before);
        assert(views(entries@).take(i + 1).last() == entries@[i as int]@);
        let keep = match path_extension(entries[i].as_str()) {
            Some(e) => e == wanted,
            None => false,
        };
        if keep {
            out.push(entries[i].clone());
            assert(views(out@) =~= with_extension(before, suffix@).push(entries@[i as int]@));
        }
        i = i + 1;
    }
    assert(views(entries@).take(entries.len() as int) =~= views(entries@));
    if out.len() == 0 {
        None
    } else {
        Some(out)
    }
}

} // verus!
