//! Resolves the command line and a saved profile into one plan of edits.

use vstd::prelude::*;
use crate::cli::Args;
use crate::command::{
    preprocess_command_named, write_command_named, PreprocessCommands, WriteCommands,
};
use crate::config::{profile_named, Config, Profile};
use crate::format::TagError;
use crate::names::text_of;
use crate::numbers::{decimal, year_text};

verus! {

/// The value to write into each field, where one is to be written.
pub struct WritePlan {
    pub artist: Option<String>,
    pub title: Option<String>,
    pub year: Option<String>,
}

/// Something worth reporting that does not stop the edit.
pub enum Diagnostic {
    /// The profile asked for is not in the configuration; no defaults apply.
    ProfileNotFound { profile: String },
    /// An entry of the profile names no command; it was skipped.
    UnrecognizedCommandKey { profile: String, key: String },
}

/// What to do to the tag: the preprocessing steps in order, then the writes.
pub struct Plan {
    /// Steps applied before any write, each at most once.
    pub preprocess: Vec<PreprocessCommands>,
    pub writes: WritePlan,
    /// Whether to start from an empty tag rather than the file's existing one.
    pub clear_tag: bool,
    pub diagnostics: Vec<Diagnostic>,
}

impl WritePlan {
    /// The text planned for the field that `cmd` writes.
    pub open spec fn field(&self, cmd: WriteCommands) -> Option<Seq<char>> {
        match cmd {
            WriteCommands::Artist => text_of(self.artist),
            WriteCommands::Title => text_of(self.title),
            WriteCommands::Year => text_of(self.year),
        }
    }
}

/// The value that `entries` give the field of `cmd`: that of the last entry
/// naming it.
pub open spec fn profile_value(entries: Seq<(String, String)>, cmd: WriteCommands) -> Option<String>
    decreases entries.len(),
{
    if entries.len() == 0 {
        None
    } else if write_command_named(entries.last().0@) == Some(cmd) {
        Some(entries.last().1)
    } else {
        profile_value(entries.drop_last(), cmd)
    }
}

/// Whether an entry asks for clearing (its name is no write command, but the
/// clearing command).
pub open spec fn profile_clears(entries: Seq<(String, String)>) -> bool
    decreases entries.len(),
{
    if entries.len() == 0 {
        false
    } else {
        let name = entries.last().0@;
        (write_command_named(name) is None && preprocess_command_named(name)
            == Some(PreprocessCommands::Clear)) || profile_clears(entries.drop_last())
    }
}

/// A warning for each entry, in order, whose name is no command at all.
pub open spec fn unrecognized(profile: String, entries: Seq<(String, String)>) -> Seq<Diagnostic>
    decreases entries.len(),
{
    if entries.len() == 0 {
        Seq::empty()
    } else {
        let rest = unrecognized(profile, entries.drop_last());
        let key = entries.last().0;
        if write_command_named(key@) is None && preprocess_command_named(key@) is None {
            rest.push(Diagnostic::UnrecognizedCommandKey { profile, key })
        } else {
            rest
        }
    }
}

/// The profile that supplies defaults: the one asked for, where the
/// configuration holds it.
pub open spec fn selected_profile(config: Option<Config>, args: Args) -> Option<Profile> {
    match (args.spec_profile(), config) {
        (Some(name), Some(c)) => profile_named(c.profile@, name@),
        _ => None,
    }
}

pub open spec fn selected_entries(config: Option<Config>, args: Args) -> Seq<(String, String)> {
    match selected_profile(config, args) {
        Some(p) => p.entries@,
        None => Seq::empty(),
    }
}

/// The value given on the command line for the field of `cmd`.
pub open spec fn override_value(args: Args, cmd: WriteCommands) -> Option<Seq<char>> {
    match cmd {
        WriteCommands::Artist => text_of(args.spec_artist()),
        WriteCommands::Title => text_of(args.spec_title()),
        WriteCommands::Year => match args.spec_year() {
            Some(y) => Some(decimal(y as int)),
            None => None,
        },
    }
}

/// The planned value of a field: the command line's where it gives one, else
/// the profile's.
pub open spec fn planned_value(
    entries: Seq<(String, String)>,
    args: Args,
    cmd: WriteCommands,
) -> Option<Seq<char>> {
    match override_value(args, cmd) {
        Some(v) => Some(v),
        None => text_of(profile_value(entries, cmd)),
    }
}

/// The preprocessing steps: clearing, once, where the profile or the command
/// line asks for it.
pub open spec fn planned_preprocess(entries: Seq<(String, String)>, args: Args) -> Seq<PreprocessCommands> {
    if profile_clears(entries) || args.spec_clear() {
        seq![PreprocessCommands::Clear]
    } else {
        Seq::empty()
    }
}

/// Whether to start from an empty tag: the command line or the
/// configuration's default asks for it.
pub open spec fn planned_clear_tag(config: Option<Config>, args: Args) -> bool {
    args.spec_clear() || match config {
        Some(c) => c.clear == Some(true),
        None => false,
    }
}

pub open spec fn planned_diagnostics(config: Option<Config>, args: Args) -> Seq<Diagnostic> {
    match (args.spec_profile(), config) {
        (Some(name), Some(c)) => match profile_named(c.profile@, name@) {
            Some(p) => unrecognized(name, p.entries@),
            None => seq![Diagnostic::ProfileNotFound { profile: name }],
        },
        _ => Seq::empty(),
    }
}

/// Whether resolution fails: a profile was asked for with no configuration.
pub open spec fn configuration_missing(config: Option<Config>, args: Args) -> bool {
    args.spec_profile() is Some && config is None
}

/// Adds `c` to the end of `list` unless it is there already.
pub fn add_preprocess(list: &mut Vec<PreprocessCommands>, c: PreprocessCommands)
    ensures
        final(list)@ == if old(list)@.contains(c) {
            old(list)@
        } else {
            old(list)@.push(c)
        },
{
    let mut i: usize = 0;
    while i < list.len()
        invariant
            i <= list@.len(),
            list@ == old(list)@,
            forall|j: int| 0 <= j < i ==> list@[j] != c,
        decreases list@.len() - i,
    {
        if list[i] == c {
            return;
        }
        i = i + 1;
    }
    list.push(c);
}

proof fn lemma_take_step(entries: Seq<(String, String)>, i: int)
    requires
        0 <= i < entries.len(),
    ensures
        entries.take(i + 1).drop_last() == entries.take(i),
        entries.take(i + 1).last() == entries[i],
{
    assert(entries.take(i + 1).drop_last() =~= entries.take(i));
}

/// Applies the entries of the profile `name`, in order, to an empty plan.
fn apply_profile(
    name: &String,
    profile: &Profile,
    writes: &mut WritePlan,
    preprocess: &mut Vec<PreprocessCommands>,
    diagnostics: &mut Vec<Diagnostic>,
)
    requires
        old(writes).artist is None,
        old(writes).title is None,
        old(writes).year is None,
        old(preprocess)@.len() == 0,
        old(diagnostics)@.len() == 0,
    ensures
        forall|cmd: WriteCommands| #[trigger] final(writes).field(cmd)
            == text_of(profile_value(profile.entries@, cmd)),
        final(preprocess)@ == if profile_clears(profile.entries@) {
            seq![PreprocessCommands::Clear]
        } else {
            Seq::empty()
        },
        final(diagnostics)@ == unrecognized(*name, profile.entries@),
{
    let entries = &profile.entries;
    let mut i: usize = 0;
    assert(entries@.take(0) =~= Seq::<(String, String)>::empty());
    while i < entries.len()
        invariant
            i <= entries@.len(),
            forall|cmd: WriteCommands| #[trigger] writes.field(cmd)
                == text_of(profile_value(entries@.take(i as int), cmd)),
            preprocess@ == if profile_clears(entries@.take(i as int)) {
                seq![PreprocessCommands::Clear]
            } else {
                Seq::empty()
            },
            diagnostics@ == unrecognized(*name, entries@.take(i as int)),
        decreases entries@.len() - i,
    {
        let entry = &entries[i];
        proof {
            lemma_take_step(entries@, i as int);
        }
        let key = entry.0.as_str();
        let ghost before = *writes;
        proof {
            if preprocess@.len() == 1 {
                assert(preprocess@[0] == PreprocessCommands::Clear);
                assert(preprocess@.contains(PreprocessCommands::Clear));
            }
        }
        match WriteCommands::get_write_command(key) {
            Some(cmd) => {
                let value = entry.1.clone();
                match cmd {
                    WriteCommands::Artist => writes.artist = Some(value),
                    WriteCommands::Title => writes.title = Some(value),
                    WriteCommands::Year => writes.year = Some(value),
                }
            },
            None => match PreprocessCommands::get_preprocess_command(key) {
                Some(c) => add_preprocess(preprocess, c),
                None => diagnostics.push(
                    Diagnostic::UnrecognizedCommandKey { profile: name.clone(), key: entry.0.clone() },
                ),
            },
        }
        proof {
            let taken = entries@.take(i + 1);
            assert(taken.last() == *entry);
            assert forall|cmd: WriteCommands| #[trigger] writes.field(cmd)
                == text_of(profile_value(taken, cmd)) by {
                if write_command_named(entry.0@) != Some(cmd) {
                    assert(writes.field(cmd) == before.field(cmd));
                }
            }
            assert(preprocess@ =~= if profile_clears(taken) {
                seq![PreprocessCommands::Clear]
            } else {
                Seq::<PreprocessCommands>::empty()
            });
        }
        i = i + 1;
    }
    assert(entries@.take(entries@.len() as int) =~= entries@);
}

/// Resolves the plan for `args`: the selected profile's values first, then the
/// command line's values over them, clearing where either source asks for it.
pub fn resolve(config: &Option<Config>, args: &Args) -> (r: Result<Plan, TagError>)
    ensures
        configuration_missing(*config, *args) ==> r == Err::<Plan, TagError>(TagError::ConfigurationMissing),
        !configuration_missing(*config, *args) ==> r is Ok,
        r matches Ok(plan) ==> {
            let entries = selected_entries(*config, *args);
            &&& forall|cmd: WriteCommands| #[trigger] plan.writes.field(cmd)
                == planned_value(entries, *args, cmd)
            &&& plan.preprocess@ == planned_preprocess(entries, *args)
            &&& plan.clear_tag == planned_clear_tag(*config, *args)
            &&& plan.diagnostics@ == planned_diagnostics(*config, *args)
        },
{
    let mut writes = WritePlan { artist: None, title: None, year: None };
    let mut preprocess: Vec<PreprocessCommands> = Vec::new();
    let mut diagnostics: Vec<Diagnostic> = Vec::new();
    let ghost entries = selected_entries(*config, *args);
    match args.profile() {
        Some(name) => match config {
            None => {
                return Err(TagError::ConfigurationMissing);
            },
            Some(c) => match c.find_profile(name) {
                Some(p) => {
                    apply_profile(name, p, &mut writes, &mut preprocess, &mut diagnostics);
                },
                None => {
                    diagnostics.push(Diagnostic::ProfileNotFound { profile: name.clone() });
                    assert(diagnostics@ =~= planned_diagnostics(*config, *args));
                },
            },
        },
        None => {},
    }
    assert(forall|cmd: WriteCommands| #[trigger] writes.field(cmd)
        == text_of(profile_value(entries, cmd)));
    assert(preprocess@ == if profile_clears(entries) {
        seq![PreprocessCommands::Clear]
    } else {
        Seq::<PreprocessCommands>::empty()
    });
    if *args.clear() {
        proof {
            if preprocess@.len() == 1 {
                assert(preprocess@[0] == PreprocessCommands::Clear);
                assert(preprocess@.contains(PreprocessCommands::Clear));
            }
        }
        add_preprocess(&mut preprocess, PreprocessCommands::Clear);
        assert(preprocess@ =~= seq![PreprocessCommands::Clear]);
    }
    let ghost base = writes;
    // Values given on the command line always take precedence over the profile.
    match args.title() {
        Some(t) => writes.title = Some(t.clone()),
        None => {},
    }
    match args.year() {
        Some(y) => writes.year = Some(year_text(*y)),
        None => {},
    }
    match args.artist() {
        Some(a) => writes.artist = Some(a.clone()),
        None => {},
    }
    let config_clear = match config {
        Some(c) => match c.clear {
            Some(b) => b,
            None => false,
        },
        None => false,
    };
    let clear_tag = *args.clear() || config_clear;
    assert forall|cmd: WriteCommands| #[trigger] writes.field(cmd)
        == planned_value(entries, *args, cmd) by {
        assert(base.field(cmd) == text_of(profile_value(entries, cmd)));
        match cmd {
            WriteCommands::Artist => {},
            WriteCommands::Title => {},
            WriteCommands::Year => {},
        }
    }
    Ok(Plan { preprocess, writes, clear_tag, diagnostics })
}

/// A value given on the command line is the planned value of its field,
/// whatever the profile gives that field.
pub proof fn lemma_command_line_takes_precedence(
    entries: Seq<(String, String)>,
    args: Args,
    cmd: WriteCommands,
)
    requires
        override_value(args, cmd) is Some,
    ensures
        planned_value(entries, args, cmd) == override_value(args, cmd),
{
}

/// A field the command line leaves alone gets the profile's value for it.
pub proof fn lemma_profile_supplies_defaults(
    entries: Seq<(String, String)>,
    args: Args,
    cmd: WriteCommands,
)
    requires
        override_value(args, cmd) is None,
    ensures
        planned_value(entries, args, cmd) == text_of(profile_value(entries, cmd)),
{
}

/// The tag is cleared where either the command line or the configuration's
/// default asks for it, and only then.
pub proof fn lemma_clear_when_either_asks(config: Config, args: Args)
    ensures
        planned_clear_tag(Some(config), args) == (args.spec_clear() || config.clear == Some(true)),
        !args.spec_clear() && config.clear == Some(true) ==> planned_clear_tag(Some(config), args),
        args.spec_clear() && config.clear != Some(true) ==> planned_clear_tag(Some(config), args),
{
}

/// Clearing is listed at most once, however many sources ask for it, and
/// exactly once where any does.
pub proof fn lemma_clear_listed_once(entries: Seq<(String, String)>, args: Args)
    ensures
        planned_preprocess(entries, args).len() <= 1,
        profile_clears(entries) || args.spec_clear() ==> planned_preprocess(entries, args)
            == seq![PreprocessCommands::Clear],
{
}

/// A profile missing from a loaded configuration is no failure: no defaults
/// apply, and one warning names the profile.
pub proof fn lemma_missing_profile_warns(config: Config, args: Args)
    requires
        args.spec_profile() is Some,
        profile_named(config.profile@, args.spec_profile()->Some_0@) is None,
    ensures
        !configuration_missing(Some(config), args),
        selected_entries(Some(config), args) == Seq::<(String, String)>::empty(),
        planned_diagnostics(Some(config), args) == seq![
            Diagnostic::ProfileNotFound { profile: args.spec_profile()->Some_0 },
        ],
        forall|cmd: WriteCommands| #[trigger] planned_value(
            selected_entries(Some(config), args),
            args,
            cmd,
        ) == override_value(args, cmd),
{
    assert forall|cmd: WriteCommands| #[trigger] planned_value(
        selected_entries(Some(config), args),
        args,
        cmd,
    ) == override_value(args, cmd) by {
        assert(profile_value(Seq::<(String, String)>::empty(), cmd) is None);
    }
}

/// With no configuration at all, asking for a profile fails.
pub proof fn lemma_profile_without_configuration(args: Args)
    requires
        args.spec_profile() is Some,
    ensures
        configuration_missing(None, args),
{
}

} // verus!
