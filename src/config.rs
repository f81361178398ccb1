//! Saved defaults: named profiles of values, and whether to clear by default.

use vstd::prelude::*;

verus! {

/// A named set of default values: each entry pairs a command name with the
/// value to give it, in the order they were written.
pub struct Profile {
    pub name: String,
    pub entries: Vec<(String, String)>,
}

/// The loaded configuration.
pub struct Config {
    /// The profiles, looked up by name; where two share a name the first counts.
    pub profile: Vec<Profile>,
    /// Whether tags are cleared before writing when the command line does not ask.
    pub clear: Option<bool>,
}

/// The first profile in `ps` called `name`.
pub open spec fn profile_named(ps: Seq<Profile>, name: Seq<char>) -> Option<Profile>
    decreases ps.len(),
{
    if ps.len() == 0 {
        None
    } else if ps[0].name@ == name {
        Some(ps[0])
    } else {
        profile_named(ps.drop_first(), name)
    }
}

impl Config {
    /// The profile called `name`, if the configuration holds one.
    pub fn find_profile(&self, name: &String) -> (r: Option<&Profile>)
        ensures
            match r {
                Some(p) => profile_named(self.profile@, name@) == Some(*p),
                None => profile_named(self.profile@, name@) is None,
            },
    {
        let mut i: usize = 0;
        assert(self.profile@.skip(0) =~= self.profile@);
        while i < self.profile.len()
            invariant
                i <= self.profile@.len(),
                profile_named(self.profile@, name@)
                    == profile_named(self.profile@.skip(i as int), name@),
            decreases self.profile@.len() - i,
        {
            let p = &self.profile[i];
            assert(self.profile@.skip(i as int)[0] == *p);
            assert(self.profile@.skip(i as int).drop_first() =~= self.profile@.skip(i + 1));
            if p.name == *name {
                return Some(p);
            }
            i = i + 1;
        }
        None
    }
}

} // verus!
