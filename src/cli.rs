//! What the user asked for on the command line.

use vstd::prelude::*;

verus! {

/// The target file and the values given for this one edit.
pub struct Args {
    file: String,
    artist: Option<String>,
    year: Option<i32>,
    title: Option<String>,
    profile: Option<String>,
    clear: bool,
}

impl Args {
    pub closed spec fn spec_file(&self) -> String {
        self.file
    }

    pub closed spec fn spec_artist(&self) -> Option<String> {
        self.artist
    }

    pub closed spec fn spec_year(&self) -> Option<i32> {
        self.year
    }

    pub closed spec fn spec_title(&self) -> Option<String> {
        self.title
    }

    pub closed spec fn spec_profile(&self) -> Option<String> {
        self.profile
    }

    pub closed spec fn spec_clear(&self) -> bool {
        self.clear
    }

    /// Arguments for the file at `file`, with the given values.
    pub fn new(
        file: String,
        artist: Option<String>,
        year: Option<i32>,
        title: Option<String>,
        profile: Option<String>,
        clear: bool,
    ) -> (r: Self)
        ensures
            r.spec_file() == file,
            r.spec_artist() == artist,
            r.spec_year() == year,
            r.spec_title() == title,
            r.spec_profile() == profile,
            r.spec_clear() == clear,
    {
        Args { file, artist, year, title, profile, clear }
    }

    /// The path of the audio file to edit.
    pub fn file(&self) -> (r: &String)
        ensures
            *r == self.spec_file(),
    {
        &self.file
    }

    /// The artist given on the command line, if any.
    pub fn artist(&self) -> (r: &Option<String>)
        ensures
            *r == self.spec_artist(),
    {
        &self.artist
    }

    /// The year given on the command line, if any.
    pub fn year(&self) -> (r: &Option<i32>)
        ensures
            *r == self.spec_year(),
    {
        &self.year
    }

    /// The title given on the command line, if any.
    pub fn title(&self) -> (r: &Option<String>)
        ensures
            *r == self.spec_title(),
    {
        &self.title
    }

    /// The name of the profile whose values serve as defaults, if any.
    pub fn profile(&self) -> (r: &Option<String>)
        ensures
            *r == self.spec_profile(),
    {
        &self.profile
    }

    /// Whether the existing tag is to be cleared before writing.
    pub fn clear(&self) -> (r: &bool)
        ensures
            *r == self.spec_clear(),
    {
        &self.clear
    }
}

} // verus!
