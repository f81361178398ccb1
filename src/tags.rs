//! The tag of an audio file, over the two formats: ID3 frames for MP3 and
//! metadata items for M4A, behind one interface of artist, title and year.

use vstd::prelude::*;
use id3::TagLike;
use crate::command::WriteCommands;
use crate::format::{FileExtension, TagError};
use crate::names::text_of;
use crate::numbers::{
    decimal, padded_year, parse_year, parsed_i32, without_leading_zeros, year_text,
};

verus! {

#[verifier::external_type_specification]
#[verifier::external_body]
pub struct ExId3Tag(id3::Tag);

#[verifier::external_type_specification]
#[verifier::external_body]
pub struct ExMp4Tag(mp4ameta::Tag);

/// What an ID3 tag holds, as far as this library reads it: for each frame
/// identifier, the text of the first frame with that identifier, where that
/// frame holds text.
pub uninterp spec fn id3_texts(tag: id3::Tag) -> Map<Seq<char>, Seq<char>>;

/// What an MP4 tag holds, as far as this library reads it: for each four-byte
/// item identifier, the first string among the data of the first metadata item
/// with that identifier, where it has one.
pub uninterp spec fn mp4_strings(tag: mp4ameta::Tag) -> Map<Seq<u8>, Seq<char>>;

/// An ID3 tag with no text frames.
pub open spec fn no_texts() -> Map<Seq<char>, Seq<char>> {
    Map::empty()
}

/// An MP4 tag with no strings.
pub open spec fn no_strings() -> Map<Seq<u8>, Seq<char>> {
    Map::empty()
}

/// The value that `m` gives `k`, if any.
pub open spec fn entry<K, V>(m: Map<K, V>, k: K) -> Option<V> {
    if m.dom().contains(k) {
        Some(m[k])
    } else {
        None
    }
}

/// The ID3 frame that holds the field of `cmd`: TPE1, TIT2 or TYER.
pub open spec fn id3_frame(cmd: WriteCommands) -> Seq<char> {
    match cmd {
        WriteCommands::Artist => seq!['T', 'P', 'E', '1'],
        WriteCommands::Title => seq!['T', 'I', 'T', '2'],
        WriteCommands::Year => seq!['T', 'Y', 'E', 'R'],
    }
}

/// The MP4 item that holds the field of `cmd`: `©ART`, `©nam` or `©day`.
pub open spec fn mp4_item(cmd: WriteCommands) -> Seq<u8> {
    match cmd {
        WriteCommands::Artist => seq![0xa9u8, 0x41u8, 0x52u8, 0x54u8],
        WriteCommands::Title => seq![0xa9u8, 0x6eu8, 0x61u8, 0x6du8],
        WriteCommands::Year => seq![0xa9u8, 0x64u8, 0x61u8, 0x79u8],
    }
}

/// The year that an ID3 tag reports: the TYER text, without leading zeros,
/// read as a number.
pub open spec fn id3_year_number(texts: Map<Seq<char>, Seq<char>>) -> Option<i32> {
    match entry(texts, id3_frame(WriteCommands::Year)) {
        Some(t) => parsed_i32(without_leading_zeros(t)),
        None => None,
    }
}

/// Relies on id3's `Tag::new`: a tag with no frames.
#[verifier::external_body]
fn id3_new() -> (r: id3::Tag)
    ensures
        id3_texts(r) == no_texts(),
{
    id3::Tag::new()
}

/// Relies on id3's `TagLike::artist`: the text of the first TPE1 frame.
#[verifier::external_body]
fn id3_artist(tag: &id3::Tag) -> (r: Option<String>)
    ensures
        text_of(r) == entry(id3_texts(*tag), id3_frame(WriteCommands::Artist)),
{
    tag.artist().map(|s| s.to_string())
}

/// Relies on id3's `TagLike::title`: the text of the first TIT2 frame.
#[verifier::external_body]
fn id3_title(tag: &id3::Tag) -> (r: Option<String>)
    ensures
        text_of(r) == entry(id3_texts(*tag), id3_frame(WriteCommands::Title)),
{
    tag.title().map(|s| s.to_string())
}

/// Relies on id3's `TagLike::year`: the text of the first TYER frame, with its
/// leading zeros trimmed, parsed as an `i32`.
#[verifier::external_body]
fn id3_year(tag: &id3::Tag) -> (r: Option<i32>)
    ensures
        r == id3_year_number(id3_texts(*tag)),
{
    tag.year()
}

/// Relies on id3's `TagLike::remove_artist`, which drops every TPE1 frame, and
/// `TagLike::set_artist`, which then appends one TPE1 text frame.
#[verifier::external_body]
fn id3_set_artist(tag: &mut id3::Tag, artist: String)
    ensures
        id3_texts(*final(tag)) == id3_texts(*old(tag)).insert(id3_frame(WriteCommands::Artist), artist@),
{
    tag.remove_artist();
    tag.set_artist(artist);
}

/// Relies on id3's `TagLike::remove_title`, which drops every TIT2 frame, and
/// `TagLike::set_title`, which then appends one TIT2 text frame.
#[verifier::external_body]
fn id3_set_title(tag: &mut id3::Tag, title: String)
    ensures
        id3_texts(*final(tag)) == id3_texts(*old(tag)).insert(id3_frame(WriteCommands::Title), title@),
{
    tag.remove_title();
    tag.set_title(title);
}

/// Relies on id3's `TagLike::remove_year`, which drops every TYER frame, and
/// `TagLike::set_year`, which then appends one TYER text frame holding the year
/// formatted as `{:04}`.
#[verifier::external_body]
fn id3_set_year(tag: &mut id3::Tag, year: i32)
    ensures
        id3_texts(*final(tag)) == id3_texts(*old(tag)).insert(
            id3_frame(WriteCommands::Year),
            padded_year(year as int),
        ),
{
    tag.remove_year();
    tag.set_year(year);
}

/// Relies on mp4ameta's `Tag::default`: a tag with no metadata items.
#[verifier::external_body]
fn mp4_new() -> (r: mp4ameta::Tag)
    ensures
        mp4_strings(r) == no_strings(),
{
    mp4ameta::Tag::default()
}

/// Relies on mp4ameta's `Userdata::artist`: the first string of the `©ART` item.
#[verifier::external_body]
fn mp4_artist(tag: &mp4ameta::Tag) -> (r: Option<String>)
    ensures
        text_of(r) == entry(mp4_strings(*tag), mp4_item(WriteCommands::Artist)),
{
    tag.artist().map(|s| s.to_string())
}

/// Relies on mp4ameta's `Userdata::title`: the first string of the `©nam` item.
#[verifier::external_body]
fn mp4_title(tag: &mp4ameta::Tag) -> (r: Option<String>)
    ensures
        text_of(r) == entry(mp4_strings(*tag), mp4_item(WriteCommands::Title)),
{
    tag.title().map(|s| s.to_string())
}

/// Relies on mp4ameta's `Userdata::year`: the first string of the `©day` item.
#[verifier::external_body]
fn mp4_year(tag: &mp4ameta::Tag) -> (r: Option<String>)
    ensures
        text_of(r) == entry(mp4_strings(*tag), mp4_item(WriteCommands::Year)),
{
    tag.year().map(|s| s.to_string())
}

/// Relies on mp4ameta's `Userdata::set_artist`: the first `©ART` item's data
/// becomes this one string, or a new item holds it.
#[verifier::external_body]
fn mp4_set_artist(tag: &mut mp4ameta::Tag, artist: String)
    ensures
        mp4_strings(*final(tag)) == mp4_strings(*old(tag)).insert(mp4_item(WriteCommands::Artist), artist@),
{
    tag.set_artist(artist);
}

/// Relies on mp4ameta's `Userdata::set_title`: the first `©nam` item's data
/// becomes this one string, or a new item holds it.
#[verifier::external_body]
fn mp4_set_title(tag: &mut mp4ameta::Tag, title: String)
    ensures
        mp4_strings(*final(tag)) == mp4_strings(*old(tag)).insert(mp4_item(WriteCommands::Title), title@),
{
    tag.set_title(title);
}

/// Relies on mp4ameta's `Userdata::set_year`: the first `©day` item's data
/// becomes this one string, or a new item holds it.
#[verifier::external_body]
fn mp4_set_year(tag: &mut mp4ameta::Tag, year: String)
    ensures
        mp4_strings(*final(tag)) == mp4_strings(*old(tag)).insert(mp4_item(WriteCommands::Year), year@),
{
    tag.set_year(year);
}

/// Relies on mp4ameta's `Userdata::clear`: every metadata item is removed.
#[verifier::external_body]
fn mp4_clear(tag: &mut mp4ameta::Tag)
    ensures
        mp4_strings(*final(tag)) == no_strings(),
{
    tag.clear();
}

/// The three fields sit in three distinct frames and three distinct items.
proof fn lemma_fields_apart()
    ensures
        forall|a: WriteCommands, b: WriteCommands| a != b ==> #[trigger] id3_frame(a) != #[trigger] id3_frame(b),
        forall|a: WriteCommands, b: WriteCommands| a != b ==> #[trigger] mp4_item(a) != #[trigger] mp4_item(b),
{
    assert(id3_frame(WriteCommands::Artist)[1] != id3_frame(WriteCommands::Title)[1]);
    assert(id3_frame(WriteCommands::Artist)[1] != id3_frame(WriteCommands::Year)[1]);
    assert(id3_frame(WriteCommands::Title)[1] != id3_frame(WriteCommands::Year)[1]);
    assert(mp4_item(WriteCommands::Artist)[1] != mp4_item(WriteCommands::Title)[1]);
    assert(mp4_item(WriteCommands::Artist)[1] != mp4_item(WriteCommands::Year)[1]);
    assert(mp4_item(WriteCommands::Title)[1] != mp4_item(WriteCommands::Year)[1]);
}

/// An MP3 file's tag, with the path it is written back to.
pub struct Id3Tag {
    tag: id3::Tag,
    path: String,
}

impl Id3Tag {
    pub closed spec fn texts(&self) -> Map<Seq<char>, Seq<char>> {
        id3_texts(self.tag)
    }

    pub closed spec fn spec_path(&self) -> Seq<char> {
        self.path@
    }

    pub closed spec fn spec_tag(&self) -> id3::Tag {
        self.tag
    }

    /// An empty tag for the file at `file`.
    pub fn new(file: String) -> (r: Self)
        ensures
            r.texts() == no_texts(),
            r.spec_path() == file@,
    {
        Id3Tag { tag: id3_new(), path: file }
    }

    /// The tag `tag`, read from the file at `file`.
    pub fn from_tag(tag: id3::Tag, file: String) -> (r: Self)
        ensures
            r.spec_tag() == tag,
            r.texts() == id3_texts(tag),
            r.spec_path() == file@,
    {
        Id3Tag { tag, path: file }
    }

    /// The ID3 tag as it stands.
    pub fn tag(&self) -> (r: &id3::Tag)
        ensures
            *r == self.spec_tag(),
            id3_texts(*r) == self.texts(),
    {
        &self.tag
    }

    /// The path the tag is written back to.
    pub fn path(&self) -> (r: &String)
        ensures
            r@ == self.spec_path(),
    {
        &self.path
    }

    pub fn artist(&self) -> (r: Option<String>)
        ensures
            text_of(r) == entry(self.texts(), id3_frame(WriteCommands::Artist)),
    {
        id3_artist(&self.tag)
    }

    pub fn title(&self) -> (r: Option<String>)
        ensures
            text_of(r) == entry(self.texts(), id3_frame(WriteCommands::Title)),
    {
        id3_title(&self.tag)
    }

    /// The year, in decimal, where the TYER frame reads as a number.
    pub fn year(&self) -> (r: Option<String>)
        ensures
            text_of(r) == match id3_year_number(self.texts()) {
                Some(y) => Some(decimal(y as int)),
                None => None,
            },
    {
        match id3_year(&self.tag) {
            Some(y) => Some(year_text(y)),
            None => None,
        }
    }

    pub fn set_artist(&mut self, artist: String)
        ensures
            final(self).texts() == old(self).texts().insert(id3_frame(WriteCommands::Artist), artist@),
            final(self).spec_path() == old(self).spec_path(),
    {
        id3_set_artist(&mut self.tag, artist);
    }

    pub fn set_title(&mut self, title: String)
        ensures
            final(self).texts() == old(self).texts().insert(id3_frame(WriteCommands::Title), title@),
            final(self).spec_path() == old(self).spec_path(),
    {
        id3_set_title(&mut self.tag, title);
    }

    /// Stores `year` as a number; a year that does not read as an `i32` is
    /// refused and the tag left as it was.
    pub fn set_year(&mut self, year: String) -> (r: Result<(), TagError>)
        ensures
            final(self).spec_path() == old(self).spec_path(),
            match parsed_i32(year@) {
                Some(y) => r is Ok && final(self).texts() == old(self).texts().insert(
                    id3_frame(WriteCommands::Year),
                    padded_year(y as int),
                ),
                None => r == Err::<(), TagError>(TagError::InvalidFieldValue) && final(self).texts()
                    == old(self).texts(),
            },
    {
        match parse_year(year.as_str()) {
            Some(y) => {
                id3_set_year(&mut self.tag, y);
                Ok(())
            },
            None => Err(TagError::InvalidFieldValue),
        }
    }

    /// Removes every frame: the tag starts over empty.
    pub fn clear(&mut self)
        ensures
            final(self).texts() == no_texts(),
            final(self).spec_path() == old(self).spec_path(),
    {
        self.tag = id3_new();
    }
}

/// An M4A file's tag, with the path it is written back to.
pub struct M4aTag {
    tag: mp4ameta::Tag,
    path: String,
}

impl M4aTag {
    pub closed spec fn strings(&self) -> Map<Seq<u8>, Seq<char>> {
        mp4_strings(self.tag)
    }

    pub closed spec fn spec_path(&self) -> Seq<char> {
        self.path@
    }

    pub closed spec fn spec_tag(&self) -> mp4ameta::Tag {
        self.tag
    }

    /// An empty tag for the file at `file`.
    pub fn new(file: String) -> (r: Self)
        ensures
            r.strings() == no_strings(),
            r.spec_path() == file@,
    {
        M4aTag { tag: mp4_new(), path: file }
    }

    /// The tag `tag`, read from the file at `file`.
    pub fn from_tag(tag: mp4ameta::Tag, file: String) -> (r: Self)
        ensures
            r.spec_tag() == tag,
            r.strings() == mp4_strings(tag),
            r.spec_path() == file@,
    {
        M4aTag { tag, path: file }
    }

    /// The MP4 tag as it stands.
    pub fn tag(&self) -> (r: &mp4ameta::Tag)
        ensures
            *r == self.spec_tag(),
            mp4_strings(*r) == self.strings(),
    {
        &self.tag
    }

    /// The path the tag is written back to.
    pub fn path(&self) -> (r: &String)
        ensures
            r@ == self.spec_path(),
    {
        &self.path
    }

    pub fn artist(&self) -> (r: Option<String>)
        ensures
            text_of(r) == entry(self.strings(), mp4_item(WriteCommands::Artist)),
    {
        mp4_artist(&self.tag)
    }

    pub fn title(&self) -> (r: Option<String>)
        ensures
            text_of(r) == entry(self.strings(), mp4_item(WriteCommands::Title)),
    {
        mp4_title(&self.tag)
    }

    pub fn year(&self) -> (r: Option<String>)
        ensures
            text_of(r) == entry(self.strings(), mp4_item(WriteCommands::Year)),
    {
        mp4_year(&self.tag)
    }

    pub fn set_artist(&mut self, artist: String)
        ensures
            final(self).strings() == old(self).strings().insert(mp4_item(WriteCommands::Artist), artist@),
            final(self).spec_path() == old(self).spec_path(),
    {
        mp4_set_artist(&mut self.tag, artist);
    }

    pub fn set_title(&mut self, title: String)
        ensures
            final(self).strings() == old(self).strings().insert(mp4_item(WriteCommands::Title), title@),
            final(self).spec_path() == old(self).spec_path(),
    {
        mp4_set_title(&mut self.tag, title);
    }

    /// Stores `year` as it is written: M4A keeps the year as free text.
    pub fn set_year(&mut self, year: String)
        ensures
            final(self).strings() == old(self).strings().insert(mp4_item(WriteCommands::Year), year@),
            final(self).spec_path() == old(self).spec_path(),
    {
        mp4_set_year(&mut self.tag, year);
    }

    /// Removes every metadata item.
    pub fn clear(&mut self)
        ensures
            final(self).strings() == no_strings(),
            final(self).spec_path() == old(self).spec_path(),
    {
        mp4_clear(&mut self.tag);
    }
}

/// The text a field holds once `value` is written to it in a tag of the given
/// format; `None` where the format refuses the value (a year that is not a
/// number, for MP3).
pub open spec fn stored_text(kind: FileExtension, cmd: WriteCommands, value: Seq<char>) -> Option<Seq<char>> {
    match (kind, cmd) {
        (FileExtension::Mp3, WriteCommands::Year) => match parsed_i32(value) {
            Some(y) => Some(padded_year(y as int)),
            None => None,
        },
        _ => Some(value),
    }
}

/// The tag of one audio file, in whichever format it has.
pub enum AudioTag {
    Mp3(Id3Tag),
    M4a(M4aTag),
}

impl AudioTag {
    pub open spec fn kind(&self) -> FileExtension {
        match self {
            AudioTag::Mp3(_) => FileExtension::Mp3,
            AudioTag::M4a(_) => FileExtension::M4a,
        }
    }

    /// The text stored for the field of `cmd`, if any.
    pub open spec fn field(&self, cmd: WriteCommands) -> Option<Seq<char>> {
        match self {
            AudioTag::Mp3(t) => entry(t.texts(), id3_frame(cmd)),
            AudioTag::M4a(t) => entry(t.strings(), mp4_item(cmd)),
        }
    }

    pub open spec fn spec_path(&self) -> Seq<char> {
        match self {
            AudioTag::Mp3(t) => t.spec_path(),
            AudioTag::M4a(t) => t.spec_path(),
        }
    }

    /// A tag of format `kind` with no values, for the file at `file`.
    pub fn empty(kind: FileExtension, file: String) -> (r: Self)
        ensures
            r.kind() == kind,
            r.spec_path() == file@,
            forall|cmd: WriteCommands| (#[trigger] r.field(cmd)) is None,
    {
        match kind {
            FileExtension::Mp3 => AudioTag::Mp3(Id3Tag::new(file)),
            FileExtension::M4a => AudioTag::M4a(M4aTag::new(file)),
        }
    }

    pub fn format(&self) -> (r: FileExtension)
        ensures
            r == self.kind(),
    {
        match self {
            AudioTag::Mp3(_) => FileExtension::Mp3,
            AudioTag::M4a(_) => FileExtension::M4a,
        }
    }

    /// The path the tag is written back to.
    pub fn path(&self) -> (r: &String)
        ensures
            r@ == self.spec_path(),
    {
        match self {
            AudioTag::Mp3(t) => t.path(),
            AudioTag::M4a(t) => t.path(),
        }
    }

    pub fn artist(&self) -> (r: Option<String>)
        ensures
            text_of(r) == self.field(WriteCommands::Artist),
    {
        match self {
            AudioTag::Mp3(t) => t.artist(),
            AudioTag::M4a(t) => t.artist(),
        }
    }

    pub fn title(&self) -> (r: Option<String>)
        ensures
            text_of(r) == self.field(WriteCommands::Title),
    {
        match self {
            AudioTag::Mp3(t) => t.title(),
            AudioTag::M4a(t) => t.title(),
        }
    }

    /// The year: for MP3 the number the TYER frame holds, in decimal; for M4A
    /// the text stored.
    pub fn year(&self) -> (r: Option<String>)
        ensures
            text_of(r) == match self {
                AudioTag::Mp3(t) => match id3_year_number(t.texts()) {
                    Some(y) => Some(decimal(y as int)),
                    None => None,
                },
                AudioTag::M4a(_) => self.field(WriteCommands::Year),
            },
    {
        match self {
            AudioTag::Mp3(t) => t.year(),
            AudioTag::M4a(t) => t.year(),
        }
    }

    /// Writes `value` into the field of `cmd`; the other fields keep their values.
    pub fn set(&mut self, cmd: WriteCommands, value: String) -> (r: Result<(), TagError>)
        ensures
            final(self).kind() == old(self).kind(),
            final(self).spec_path() == old(self).spec_path(),
            match stored_text(old(self).kind(), cmd, value@) {
                Some(t) => r is Ok && forall|c: WriteCommands| #[trigger] final(self).field(c)
                    == if c == cmd {
                        Some(t)
                    } else {
                        old(self).field(c)
                    },
                None => r == Err::<(), TagError>(TagError::InvalidFieldValue)
                    && forall|c: WriteCommands| #[trigger] final(self).field(c) == old(self).field(c),
            },
    {
        proof {
            lemma_fields_apart();
        }
        match self {
            AudioTag::Mp3(t) => match cmd {
                WriteCommands::Artist => {
                    t.set_artist(value);
                    Ok(())
                },
                WriteCommands::Title => {
                    t.set_title(value);
                    Ok(())
                },
                WriteCommands::Year => t.set_year(value),
            },
            AudioTag::M4a(t) => {
                match cmd {
                    WriteCommands::Artist => t.set_artist(value),
                    WriteCommands::Title => t.set_title(value),
                    WriteCommands::Year => t.set_year(value),
                }
                Ok(())
            },
        }
    }

    /// Removes every value the tag holds.
    pub fn clear(&mut self)
        ensures
            final(self).kind() == old(self).kind(),
            final(self).spec_path() == old(self).spec_path(),
            forall|cmd: WriteCommands| (#[trigger] final(self).field(cmd)) is None,
    {
        match self {
            AudioTag::Mp3(t) => t.clear(),
            AudioTag::M4a(t) => t.clear(),
        }
    }
}

} // verus!
