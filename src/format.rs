//! Which tag format a file holds, told by its extension.

use vstd::prelude::*;
use vstd::string::StrSliceExecFns;
use crate::names::{equal_ignoring_case, equals_ignoring_case, folded};

verus! {

/// The tag formats that the library reads and writes.
#[derive(PartialEq, Eq, Structural, Clone, Copy, Debug)]
pub enum FileExtension {
    Mp3,
    M4a,
}

/// The errors that end an edit.
#[derive(PartialEq, Eq, Structural, Clone, Copy, Debug)]
pub enum TagError {
    /// The file's extension names no supported format.
    UnsupportedExtension,
    /// The file's existing tag could not be read.
    ParseFailure,
    /// A value cannot be stored in the field asked for (a year that is not a
    /// number, in a format that keeps years as numbers).
    InvalidFieldValue,
    /// A profile was asked for, but no configuration could be loaded.
    ConfigurationMissing,
}

/// The characters after the last `.` of `path`, or `None` where it holds no `.`.
pub open spec fn extension_of(path: Seq<char>) -> Option<Seq<char>>
    decreases path.len(),
{
    if path.len() == 0 {
        None
    } else if path.last() == '.' {
        Some(Seq::empty())
    } else {
        match extension_of(path.drop_last()) {
            Some(e) => Some(e.push(path.last())),
            None => None,
        }
    }
}

pub open spec fn mp3_word() -> Seq<char> {
    seq!['m', 'p', '3']
}

pub open spec fn m4a_word() -> Seq<char> {
    seq!['m', '4', 'a']
}

/// The format that an extension names, in any case of its letters.
pub open spec fn format_named(ext: Seq<char>) -> Option<FileExtension> {
    if equal_ignoring_case(ext, mp3_word()) {
        Some(FileExtension::Mp3)
    } else if equal_ignoring_case(ext, m4a_word()) {
        Some(FileExtension::M4a)
    } else {
        None
    }
}

/// The format of the file at `path`, or the error that reports it unsupported.
pub open spec fn detected(path: Seq<char>) -> Result<FileExtension, TagError> {
    match extension_of(path) {
        Some(ext) => match format_named(ext) {
            Some(f) => Ok(f),
            None => Err(TagError::UnsupportedExtension),
        },
        None => Err(TagError::UnsupportedExtension),
    }
}

proof fn lemma_extension_step(path: Seq<char>, i: int)
    requires
        0 < i <= path.len(),
        path[i - 1] != '.',
    ensures
        extension_of(path.take(i)) == match extension_of(path.take(i - 1)) {
            Some(e) => Some(e.push(path[i - 1])),
            None => None::<Seq<char>>,
        },
{
    assert(path.take(i).drop_last() =~= path.take(i - 1));
}

/// The extension of `path`: the text after its last `.`.
pub fn extension(path: &str) -> (r: Option<&str>)
    ensures
        match r {
            Some(e) => extension_of(path@) == Some(e@),
            None => extension_of(path@) is None,
        },
{
    let n = path.unicode_len();
    let mut i: usize = n;
    assert(path@.take(n as int) =~= path@);
    while i > 0
        invariant
            n == path@.len(),
            i <= n,
            extension_of(path@) == match extension_of(path@.take(i as int)) {
                Some(e) => Some(e + path@.subrange(i as int, n as int)),
                None => None::<Seq<char>>,
            },
        decreases i,
    {
        let c = path.get_char(i - 1);
        if c == '.' {
            assert(path@.take(i as int).last() == '.');
            assert(Seq::<char>::empty() + path@.subrange(i as int, n as int)
                =~= path@.subrange(i as int, n as int));
            return Some(path.substring_char(i, n));
        }
        proof {
            lemma_extension_step(path@, i as int);
            if let Some(e) = extension_of(path@.take(i - 1)) {
                assert(e.push(c) + path@.subrange(i as int, n as int)
                    =~= e + path@.subrange(i - 1, n as int));
            }
        }
        i = i - 1;
    }
    assert(path@.take(0) =~= Seq::<char>::empty());
    None
}

/// The format of the file at `path`, told by its extension in any letter case.
pub fn get_extension(path: &str) -> (r: Result<FileExtension, TagError>)
    ensures
        r == detected(path@),
{
    match extension(path) {
        Some(ext) => {
            let mp3 = "mp3";
            let m4a = "m4a";
            proof {
                reveal_strlit("mp3");
                reveal_strlit("m4a");
                assert(mp3@ =~= mp3_word());
                assert(m4a@ =~= m4a_word());
            }
            if equals_ignoring_case(ext, mp3) {
                Ok(FileExtension::Mp3)
            } else if equals_ignoring_case(ext, m4a) {
                Ok(FileExtension::M4a)
            } else {
                Err(TagError::UnsupportedExtension)
            }
        },
        None => Err(TagError::UnsupportedExtension),
    }
}

/// Every letter casing of a supported extension gives its format, and any
/// other extension, or none, is reported unsupported.
pub proof fn lemma_detection_ignores_case(path: Seq<char>, ext: Seq<char>)
    requires
        extension_of(path) == Some(ext),
    ensures
        equal_ignoring_case(ext, mp3_word()) ==> detected(path) == Ok::<FileExtension, TagError>(FileExtension::Mp3),
        equal_ignoring_case(ext, m4a_word()) ==> detected(path) == Ok::<FileExtension, TagError>(FileExtension::M4a),
        !equal_ignoring_case(ext, mp3_word()) && !equal_ignoring_case(ext, m4a_word())
            ==> detected(path) == Err::<FileExtension, TagError>(TagError::UnsupportedExtension),
{
    if equal_ignoring_case(ext, m4a_word()) {
        assert(folded(ext[1]) == folded(m4a_word()[1]));
        assert(!equal_ignoring_case(ext, mp3_word())) by {
            assert(folded(mp3_word()[1]) != folded(m4a_word()[1]));
        }
    }
}

} // verus!
