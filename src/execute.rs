//! Applies a resolved plan to a tag: preprocessing first, then the writes.

use vstd::prelude::*;
use crate::command::{PreprocessCommands, WriteCommands};
use crate::format::{FileExtension, TagError};
use crate::plan::WritePlan;
use crate::tags::{stored_text, AudioTag};

verus! {

/// Whether the format refuses a value of the plan: only a year can be refused.
pub open spec fn refused(kind: FileExtension, writes: WritePlan) -> bool {
    match writes.field(WriteCommands::Year) {
        Some(v) => stored_text(kind, WriteCommands::Year, v) is None,
        None => false,
    }
}

/// The text a field holds after the plan's write, over the text `before` it
/// held.
pub open spec fn written(
    kind: FileExtension,
    writes: WritePlan,
    cmd: WriteCommands,
    before: Option<Seq<char>>,
) -> Option<Seq<char>> {
    match writes.field(cmd) {
        Some(v) => stored_text(kind, cmd, v),
        None => before,
    }
}

/// Writes each planned value into its field. The year goes first, so that a
/// refused year leaves every field as it was.
pub fn execute_write_cmds(writes: &WritePlan, tag: &mut AudioTag) -> (r: Result<(), TagError>)
    ensures
        final(tag).kind() == old(tag).kind(),
        final(tag).spec_path() == old(tag).spec_path(),
        refused(old(tag).kind(), *writes) ==> r == Err::<(), TagError>(TagError::InvalidFieldValue)
            && forall|cmd: WriteCommands| #[trigger] final(tag).field(cmd) == old(tag).field(cmd),
        !refused(old(tag).kind(), *writes) ==> r is Ok && forall|cmd: WriteCommands|
            #[trigger] final(tag).field(cmd) == written(old(tag).kind(), *writes, cmd, old(tag).field(cmd)),
{
    match &writes.year {
        Some(v) => {
            let res = tag.set(WriteCommands::Year, v.clone());
            if res.is_err() {
                return res;
            }
        },
        None => {},
    }
    match &writes.title {
        Some(v) => {
            let _ = tag.set(WriteCommands::Title, v.clone());
        },
        None => {},
    }
    match &writes.artist {
        Some(v) => {
            let _ = tag.set(WriteCommands::Artist, v.clone());
        },
        None => {},
    }
    Ok(())
}

/// Applies the preprocessing steps in order, then the writes. A clear empties
/// every field before any value is written.
pub fn execute(
    preprocess: &Vec<PreprocessCommands>,
    writes: &WritePlan,
    tag: &mut AudioTag,
) -> (r: Result<(), TagError>)
    ensures
        final(tag).kind() == old(tag).kind(),
        final(tag).spec_path() == old(tag).spec_path(),
        refused(old(tag).kind(), *writes) ==> r == Err::<(), TagError>(TagError::InvalidFieldValue),
        !refused(old(tag).kind(), *writes) ==> r is Ok && forall|cmd: WriteCommands|
            #[trigger] final(tag).field(cmd) == written(
                old(tag).kind(),
                *writes,
                cmd,
                if preprocess@.contains(PreprocessCommands::Clear) {
                    None
                } else {
                    old(tag).field(cmd)
                },
            ),
{
    let ghost start = *tag;
    let mut i: usize = 0;
    while i < preprocess.len()
        invariant
            i <= preprocess@.len(),
            tag.kind() == start.kind(),
            tag.spec_path() == start.spec_path(),
            i == 0 ==> *tag == start,
            i > 0 ==> forall|cmd: WriteCommands| (#[trigger] tag.field(cmd)) is None,
        decreases preprocess@.len() - i,
    {
        match preprocess[i] {
            PreprocessCommands::Clear => tag.clear(),
        }
        i = i + 1;
    }
    proof {
        if preprocess@.len() > 0 {
            assert(preprocess@[0] == PreprocessCommands::Clear);
            assert(preprocess@.contains(PreprocessCommands::Clear));
        }
    }
    execute_write_cmds(writes, tag)
}

} // verus!
