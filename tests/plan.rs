use audiotag::cli::Args;
use audiotag::command::PreprocessCommands;
use audiotag::config::{Config, Profile};
use audiotag::format::TagError;
use audiotag::plan::{resolve, Diagnostic};

fn s(text: &str) -> String {
    text.to_string()
}

fn args(
    artist: Option<&str>,
    year: Option<i32>,
    title: Option<&str>,
    profile: Option<&str>,
    clear: bool,
) -> Args {
    Args::new(
        s("song.mp3"),
        artist.map(s),
        year,
        title.map(s),
        profile.map(s),
        clear,
    )
}

fn config(profiles: Vec<(&str, Vec<(&str, &str)>)>, clear: Option<bool>) -> Config {
    Config {
        profile: profiles
            .into_iter()
            .map(|(name, entries)| Profile {
                name: s(name),
                entries: entries.into_iter().map(|(k, v)| (s(k), s(v))).collect(),
            })
            .collect(),
        clear,
    }
}

#[test]
fn command_line_title_overrides_profile() {
    let cfg = Some(config(vec![("p", vec![("title", "A")])], None));
    let plan = resolve(&cfg, &args(None, None, Some("B"), Some("p"), false)).unwrap();
    assert_eq!(plan.writes.title, Some(s("B")));
}

#[test]
fn profile_title_used_without_override() {
    let cfg = Some(config(vec![("p", vec![("title", "A")])], None));
    let plan = resolve(&cfg, &args(None, None, None, Some("p"), false)).unwrap();
    assert_eq!(plan.writes.title, Some(s("A")));
}

#[test]
fn config_default_clear_or_flag() {
    let on = Some(config(vec![], Some(true)));
    let off = Some(config(vec![], Some(false)));
    assert!(resolve(&on, &args(None, None, None, None, false)).unwrap().clear_tag);
    assert!(resolve(&off, &args(None, None, None, None, true)).unwrap().clear_tag);
    assert!(!resolve(&off, &args(None, None, None, None, false)).unwrap().clear_tag);
    assert!(!resolve(&None, &args(None, None, None, None, false)).unwrap().clear_tag);
    assert!(resolve(&None, &args(None, None, None, None, true)).unwrap().clear_tag);
}

#[test]
fn clear_from_profile_and_flag_listed_once() {
    let cfg = Some(config(vec![("p", vec![("clear", "true"), ("CLEAR", "yes")])], None));
    let plan = resolve(&cfg, &args(None, None, None, Some("p"), true)).unwrap();
    assert_eq!(plan.preprocess, vec![PreprocessCommands::Clear]);
}

#[test]
fn no_clear_asked_means_no_preprocessing() {
    let cfg = Some(config(vec![("p", vec![("artist", "X")])], Some(true)));
    let plan = resolve(&cfg, &args(None, None, None, Some("p"), false)).unwrap();
    assert!(plan.preprocess.is_empty());
    assert!(plan.clear_tag);
}

#[test]
fn radio_profile_gives_artist_and_year_only() {
    let cfg = Some(config(
        vec![("other", vec![("title", "T")]), ("radio", vec![("artist", "Station"), ("year", "2020")])],
        None,
    ));
    let plan = resolve(&cfg, &args(None, None, None, Some("radio"), false)).unwrap();
    assert_eq!(plan.writes.artist, Some(s("Station")));
    assert_eq!(plan.writes.year, Some(s("2020")));
    assert_eq!(plan.writes.title, None);
    assert!(plan.preprocess.is_empty());
    assert!(plan.diagnostics.is_empty());
}

#[test]
fn missing_profile_warns_and_proceeds() {
    let cfg = Some(config(vec![("radio", vec![("artist", "Station")])], None));
    let plan = resolve(&cfg, &args(Some("Me"), None, None, Some("missing"), false)).unwrap();
    assert_eq!(plan.writes.artist, Some(s("Me")));
    assert_eq!(plan.writes.title, None);
    assert_eq!(plan.writes.year, None);
    assert_eq!(plan.diagnostics.len(), 1);
    assert!(matches!(&plan.diagnostics[0], Diagnostic::ProfileNotFound { profile } if profile == "missing"));
}

#[test]
fn profile_without_configuration_is_fatal() {
    let r = resolve(&None, &args(None, None, None, Some("radio"), false));
    assert!(matches!(r, Err(TagError::ConfigurationMissing)));
}

#[test]
fn no_profile_and_no_configuration_is_fine() {
    let plan = resolve(&None, &args(Some("New"), Some(1999), None, None, false)).unwrap();
    assert_eq!(plan.writes.artist, Some(s("New")));
    assert_eq!(plan.writes.year, Some(s("1999")));
    assert_eq!(plan.writes.title, None);
    assert!(plan.diagnostics.is_empty());
}

#[test]
fn unknown_profile_keys_are_skipped_with_warning() {
    let cfg = Some(config(vec![("p", vec![("album", "X"), ("Artist", "Y"), ("genre", "Z")])], None));
    let plan = resolve(&cfg, &args(None, None, None, Some("p"), false)).unwrap();
    assert_eq!(plan.writes.artist, Some(s("Y")));
    assert_eq!(plan.diagnostics.len(), 2);
    assert!(matches!(&plan.diagnostics[0],
        Diagnostic::UnrecognizedCommandKey { profile, key } if profile == "p" && key == "album"));
    assert!(matches!(&plan.diagnostics[1],
        Diagnostic::UnrecognizedCommandKey { profile, key } if profile == "p" && key == "genre"));
}

#[test]
fn last_profile_entry_for_a_field_wins() {
    let cfg = Some(config(vec![("p", vec![("artist", "First"), ("ARTIST", "Second")])], None));
    let plan = resolve(&cfg, &args(None, None, None, Some("p"), false)).unwrap();
    assert_eq!(plan.writes.artist, Some(s("Second")));
}

#[test]
fn first_profile_of_a_name_is_used() {
    let cfg = Some(config(vec![("p", vec![("artist", "A")]), ("p", vec![("artist", "B")])], None));
    let plan = resolve(&cfg, &args(None, None, None, Some("p"), false)).unwrap();
    assert_eq!(plan.writes.artist, Some(s("A")));
}

#[test]
fn year_override_is_written_in_decimal() {
    let cfg = Some(config(vec![("p", vec![("year", "2020")])], None));
    let plan = resolve(&cfg, &args(None, Some(-42), None, Some("p"), false)).unwrap();
    assert_eq!(plan.writes.year, Some(s("-42")));
    let plan = resolve(&None, &args(None, Some(7), None, None, false)).unwrap();
    assert_eq!(plan.writes.year, Some(s("7")));
}

#[test]
fn args_getters_return_what_was_given() {
    let a = args(Some("A"), Some(2001), Some("T"), Some("p"), true);
    assert_eq!(a.file(), "song.mp3");
    assert_eq!(a.artist(), &Some(s("A")));
    assert_eq!(a.year(), &Some(2001));
    assert_eq!(a.title(), &Some(s("T")));
    assert_eq!(a.profile(), &Some(s("p")));
    assert!(*a.clear());
}

#[test]
fn find_profile_by_exact_name() {
    let cfg = config(vec![("radio", vec![]), ("club", vec![("artist", "DJ")])], None);
    assert_eq!(cfg.find_profile(&s("club")).map(|p| p.entries.len()), Some(1));
    assert!(cfg.find_profile(&s("Radio")).is_none());
}
