use audiotag::command::{PreprocessCommands, WriteCommands};

#[test]
fn get_write_cmd() {
    let artist = "artist";
    let title = "title";
    let year = "year";

    assert_eq!(WriteCommands::get_write_command(artist).unwrap(), WriteCommands::Artist);
    assert_eq!(WriteCommands::get_write_command(title).unwrap(), WriteCommands::Title);
    assert_eq!(WriteCommands::get_write_command(year).unwrap(), WriteCommands::Year);
}

#[test]
fn get_write_cmd_case_insensitive() {
    let artist = "aRtiSt";
    let title = "tiTle";
    let year = "yeAr";

    assert_eq!(WriteCommands::get_write_command(artist).unwrap(), WriteCommands::Artist);
    assert_eq!(WriteCommands::get_write_command(title).unwrap(), WriteCommands::Title);
    assert_eq!(WriteCommands::get_write_command(year).unwrap(), WriteCommands::Year);
}

#[test]
fn get_none_when_no_match() {
    let foo = "foo";
    assert!(WriteCommands::get_write_command(foo).is_none());
}

#[test]
fn every_casing_of_artist_resolves_alike() {
    for name in ["artist", "ArTiSt", "ARTIST"] {
        assert_eq!(WriteCommands::get_write_command(name), Some(WriteCommands::Artist));
    }
}

#[test]
fn near_misses_are_no_command() {
    for name in ["", "artists", "artis", "tit le", "year ", "clear"] {
        assert_eq!(WriteCommands::get_write_command(name), None);
    }
}

#[test]
fn clear_resolves_in_any_casing() {
    for name in ["clear", "CLEAR", "cLeAr"] {
        assert_eq!(PreprocessCommands::get_preprocess_command(name), Some(PreprocessCommands::Clear));
    }
    assert_eq!(PreprocessCommands::get_preprocess_command("artist"), None);
    assert_eq!(PreprocessCommands::get_preprocess_command("clean"), None);
}

#[test]
fn non_ascii_letters_are_not_folded() {
    assert_eq!(WriteCommands::get_write_command("ÄRTIST"), None);
    assert_eq!(WriteCommands::get_write_command("tİtle"), None);
}
