//! The commands that a profile or the command line can ask for.

use vstd::prelude::*;
use crate::names::{equal_ignoring_case, equals_ignoring_case, folded};

verus! {

/// A field of the tag that can be written.
#[derive(PartialEq, Eq, Structural, Clone, Copy, Debug, Hash)]
pub enum WriteCommands {
    Artist,
    Title,
    Year,
}

/// A step applied to the tag before any field is written.
#[derive(PartialEq, Eq, Structural, Clone, Copy, Debug, Hash)]
pub enum PreprocessCommands {
    /// Remove every value the tag holds.
    Clear,
}

pub open spec fn artist_word() -> Seq<char> {
    seq!['a', 'r', 't', 'i', 's', 't']
}

pub open spec fn title_word() -> Seq<char> {
    seq!['t', 'i', 't', 'l', 'e']
}

pub open spec fn year_word() -> Seq<char> {
    seq!['y', 'e', 'a', 'r']
}

pub open spec fn clear_word() -> Seq<char> {
    seq!['c', 'l', 'e', 'a', 'r']
}

/// The write command that `name` spells, in any case of its letters.
pub open spec fn write_command_named(name: Seq<char>) -> Option<WriteCommands> {
    if equal_ignoring_case(name, artist_word()) {
        Some(WriteCommands::Artist)
    } else if equal_ignoring_case(name, title_word()) {
        Some(WriteCommands::Title)
    } else if equal_ignoring_case(name, year_word()) {
        Some(WriteCommands::Year)
    } else {
        None
    }
}

/// The preprocessing command that `name` spells, in any case of its letters.
pub open spec fn preprocess_command_named(name: Seq<char>) -> Option<PreprocessCommands> {
    if equal_ignoring_case(name, clear_word()) {
        Some(PreprocessCommands::Clear)
    } else {
        None
    }
}

impl WriteCommands {
    /// The write command that `cmd` names, ignoring letter case; `None` for a
    /// name that is no command.
    pub fn get_write_command(cmd: &str) -> (r: Option<Self>)
        ensures
            r == write_command_named(cmd@),
    {
        let artist = "artist";
        let title = "title";
        let year = "year";
        proof {
            reveal_strlit("artist");
            reveal_strlit("title");
            reveal_strlit("year");
            assert(artist@ =~= artist_word());
            assert(title@ =~= title_word());
            assert(year@ =~= year_word());
        }
        if equals_ignoring_case(cmd, artist) {
            Some(Self::Artist)
        } else if equals_ignoring_case(cmd, title) {
            Some(Self::Title)
        } else if equals_ignoring_case(cmd, year) {
            Some(Self::Year)
        } else {
            None
        }
    }
}

impl PreprocessCommands {
    /// The preprocessing command that `cmd` names, ignoring letter case; `None`
    /// for a name that is no command.
    pub fn get_preprocess_command(cmd: &str) -> (r: Option<Self>)
        ensures
            r == preprocess_command_named(cmd@),
    {
        let clear = "clear";
        proof {
            reveal_strlit("clear");
            assert(clear@ =~= clear_word());
        }
        if equals_ignoring_case(cmd, clear) {
            Some(Self::Clear)
        } else {
            None
        }
    }
}

/// Two spellings of one name that differ only in letter case resolve to the
/// same command, in both vocabularies.
pub proof fn lemma_resolution_ignores_case(a: Seq<char>, b: Seq<char>)
    requires
        equal_ignoring_case(a, b),
    ensures
        write_command_named(a) == write_command_named(b),
        preprocess_command_named(a) == preprocess_command_named(b),
{
    assert forall|w: Seq<char>| equal_ignoring_case(a, w) <==> equal_ignoring_case(b, w) by {
        if equal_ignoring_case(a, w) {
            crate::names::lemma_equal_ignoring_case_transitive(b, a, w);
            crate::names::lemma_equal_ignoring_case_transitive(a, b, a);
        }
        if equal_ignoring_case(b, w) {
            crate::names::lemma_equal_ignoring_case_transitive(a, b, w);
        }
    }
}

/// Every spelling of `artist`, `title` and `year` resolves to its command and
/// of `clear` to clearing; a name that spells none of them resolves to no
/// command.
pub proof fn lemma_vocabulary(name: Seq<char>)
    ensures
        equal_ignoring_case(name, artist_word()) ==> write_command_named(name) == Some(WriteCommands::Artist),
        equal_ignoring_case(name, title_word()) ==> write_command_named(name) == Some(WriteCommands::Title),
        equal_ignoring_case(name, year_word()) ==> write_command_named(name) == Some(WriteCommands::Year),
        equal_ignoring_case(name, clear_word()) ==> preprocess_command_named(name) == Some(PreprocessCommands::Clear),
        !equal_ignoring_case(name, artist_word()) && !equal_ignoring_case(name, title_word())
            && !equal_ignoring_case(name, year_word()) ==> write_command_named(name) is None,
        !equal_ignoring_case(name, clear_word()) ==> preprocess_command_named(name) is None,
        equal_ignoring_case(name, clear_word()) ==> write_command_named(name) is None,
{
    if equal_ignoring_case(name, title_word()) {
        assert(!equal_ignoring_case(name, artist_word()));
    }
    if equal_ignoring_case(name, year_word()) {
        assert(!equal_ignoring_case(name, artist_word()));
        assert(!equal_ignoring_case(name, title_word()));
    }
    if equal_ignoring_case(name, clear_word()) {
        assert(!equal_ignoring_case(name, artist_word()));
        assert(!equal_ignoring_case(name, year_word()));
        assert(folded(name[0]) == folded(clear_word()[0]));
        assert(folded(title_word()[0]) != folded(clear_word()[0]));
    }
}

} // verus!
