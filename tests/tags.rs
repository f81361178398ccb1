use audiotag::cli::Args;
use audiotag::command::{PreprocessCommands, WriteCommands};
use audiotag::execute::{execute, execute_write_cmds};
use audiotag::format::{FileExtension, TagError};
use audiotag::plan::{resolve, WritePlan};
use audiotag::tags::{AudioTag, Id3Tag, M4aTag};
use id3::TagLike;

fn s(text: &str) -> String {
    text.to_string()
}

fn mp3_with(artist: &str, title: &str) -> AudioTag {
    let mut tag = id3::Tag::new();
    tag.set_artist(artist);
    tag.set_title(title);
    AudioTag::Mp3(Id3Tag::from_tag(tag, s("song.mp3")))
}

fn m4a_with(artist: &str, title: &str, year: &str) -> AudioTag {
    let mut tag = mp4ameta::Tag::default();
    tag.set_artist(artist);
    tag.set_title(title);
    tag.set_year(year);
    AudioTag::M4a(M4aTag::from_tag(tag, s("song.m4a")))
}

#[test]
fn mp3_overrides_keep_other_fields() {
    let args = Args::new(s("song.mp3"), Some(s("New")), Some(1999), None, None, false);
    let plan = resolve(&None, &args).unwrap();
    assert!(!plan.clear_tag);
    let mut tag = mp3_with("Old", "Old");
    assert_eq!(execute(&plan.preprocess, &plan.writes, &mut tag), Ok(()));
    assert_eq!(tag.artist(), Some(s("New")));
    assert_eq!(tag.year(), Some(s("1999")));
    assert_eq!(tag.title(), Some(s("Old")));
    assert_eq!(tag.path(), "song.mp3");
    match &tag {
        AudioTag::Mp3(t) => assert_eq!(t.tag().get("TYER").and_then(|f| f.content().text()), Some("1999")),
        AudioTag::M4a(_) => panic!("format changed"),
    }
}

#[test]
fn m4a_clear_flag_empties_every_field() {
    let args = Args::new(s("song.m4a"), None, None, None, None, true);
    let plan = resolve(&None, &args).unwrap();
    assert!(plan.clear_tag);
    assert_eq!(plan.preprocess, vec![PreprocessCommands::Clear]);

    let mut existing = m4a_with("A", "T", "2001");
    assert_eq!(execute(&plan.preprocess, &plan.writes, &mut existing), Ok(()));
    assert_eq!(existing.artist(), None);
    assert_eq!(existing.title(), None);
    assert_eq!(existing.year(), None);

    let mut fresh = AudioTag::empty(FileExtension::M4a, s("song.m4a"));
    assert_eq!(execute(&plan.preprocess, &plan.writes, &mut fresh), Ok(()));
    assert_eq!(fresh.artist(), None);
    assert_eq!(fresh.title(), None);
    assert_eq!(fresh.year(), None);
}

#[test]
fn mp3_clear_then_write() {
    let mut tag = mp3_with("Old", "Old");
    let writes = WritePlan { artist: None, title: Some(s("New")), year: None };
    assert_eq!(execute(&vec![PreprocessCommands::Clear], &writes, &mut tag), Ok(()));
    assert_eq!(tag.artist(), None);
    assert_eq!(tag.title(), Some(s("New")));
    assert_eq!(tag.year(), None);
}

#[test]
fn mp3_rejects_non_numeric_year() {
    let mut tag = mp3_with("Old", "Old");
    let writes = WritePlan { artist: Some(s("New")), title: None, year: Some(s("nineteen")) };
    assert_eq!(execute_write_cmds(&writes, &mut tag), Err(TagError::InvalidFieldValue));
    assert_eq!(tag.artist(), Some(s("Old")));
    assert_eq!(tag.year(), None);
}

#[test]
fn m4a_keeps_year_as_text() {
    let mut tag = m4a_with("A", "T", "2001");
    let writes = WritePlan { artist: None, title: None, year: Some(s("Spring '99")) };
    assert_eq!(execute_write_cmds(&writes, &mut tag), Ok(()));
    assert_eq!(tag.year(), Some(s("Spring '99")));
    assert_eq!(tag.artist(), Some(s("A")));
}

#[test]
fn mp3_year_is_padded_to_four_digits() {
    let mut tag = Id3Tag::new(s("x.mp3"));
    assert_eq!(tag.set_year(s("+42")), Ok(()));
    assert_eq!(tag.tag().get("TYER").and_then(|f| f.content().text()), Some("0042"));
    assert_eq!(tag.year(), Some(s("42")));
    assert_eq!(tag.set_year(s("-5")), Ok(()));
    assert_eq!(tag.tag().get("TYER").and_then(|f| f.content().text()), Some("-005"));
    assert_eq!(tag.set_year(s("12 ")), Err(TagError::InvalidFieldValue));
    assert_eq!(tag.set_year(s("99999999999")), Err(TagError::InvalidFieldValue));
}

#[test]
fn empty_tags_hold_nothing() {
    for kind in [FileExtension::Mp3, FileExtension::M4a] {
        let tag = AudioTag::empty(kind, s("f"));
        assert_eq!(tag.format(), kind);
        assert_eq!(tag.artist(), None);
        assert_eq!(tag.title(), None);
        assert_eq!(tag.year(), None);
    }
}

#[test]
fn set_writes_one_field() {
    let mut tag = AudioTag::empty(FileExtension::M4a, s("f.m4a"));
    assert_eq!(tag.set(WriteCommands::Title, s("Hello")), Ok(()));
    assert_eq!(tag.title(), Some(s("Hello")));
    assert_eq!(tag.artist(), None);
    let mut tag = AudioTag::empty(FileExtension::Mp3, s("f.mp3"));
    assert_eq!(tag.set(WriteCommands::Artist, s("Me")), Ok(()));
    assert_eq!(tag.artist(), Some(s("Me")));
    assert_eq!(tag.title(), None);
}

#[test]
fn reading_existing_values() {
    let tag = m4a_with("Band", "Tune", "1987");
    assert_eq!(tag.artist(), Some(s("Band")));
    assert_eq!(tag.title(), Some(s("Tune")));
    assert_eq!(tag.year(), Some(s("1987")));
    let tag = mp3_with("Band", "Tune");
    assert_eq!(tag.artist(), Some(s("Band")));
    assert_eq!(tag.title(), Some(s("Tune")));
}
