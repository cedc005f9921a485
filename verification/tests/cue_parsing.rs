use romcomp::cue_sheet::cue_track_files;

#[test]
fn one_quoted_file_directive() {
    let sheet = "FILE \"game.bin\" BINARY\n  TRACK 01 MODE2/2352\n    INDEX 01 00:00:00\n";
    assert_eq!(cue_track_files(sheet), vec!["game.bin".to_string()]);
}

#[test]
fn several_file_directives_in_order() {
    let sheet = "FILE \"track one.bin\" BINARY\n  TRACK 01 MODE2/2352\n    INDEX 01 00:00:00\nFILE \"track two.bin\" BINARY\n  TRACK 02 AUDIO\n    INDEX 01 00:00:00\n";
    assert_eq!(
        cue_track_files(sheet),
        vec!["track one.bin".to_string(), "track two.bin".to_string()]
    );
}

#[test]
fn bare_file_names_run_to_the_next_blank() {
    let sheet = "FILE game.bin BINARY\n";
    assert_eq!(cue_track_files(sheet), vec!["game.bin".to_string()]);
}

#[test]
fn single_quotes_work_like_double_quotes() {
    let sheet = "FILE 'a game.bin' BINARY\n";
    assert_eq!(cue_track_files(sheet), vec!["a game.bin".to_string()]);
}

#[test]
fn keyword_is_case_insensitive_and_may_be_indented() {
    let sheet = "  file \"game.bin\" BINARY\n";
    assert_eq!(cue_track_files(sheet), vec!["game.bin".to_string()]);
}

#[test]
fn windows_line_endings_are_handled() {
    let sheet = "FILE \"game.bin\" BINARY\r\nTRACK 01 MODE1/2352\r\n";
    assert_eq!(cue_track_files(sheet), vec!["game.bin".to_string()]);
    let bare = "FILE game.bin BINARY\r\n";
    assert_eq!(cue_track_files(bare), vec!["game.bin".to_string()]);
}

#[test]
fn unclosed_quote_names_nothing() {
    let sheet = "FILE \"game.bin BINARY\n";
    assert_eq!(cue_track_files(sheet), Vec::<String>::new());
}

#[test]
fn sheet_without_file_directives_names_nothing() {
    let sheet = "REM COMMENT \"FILE inside a remark\"\nTRACK 01 AUDIO\n";
    assert_eq!(cue_track_files(sheet), Vec::<String>::new());
    assert_eq!(cue_track_files(""), Vec::<String>::new());
}

#[test]
fn keyword_must_stand_alone() {
    let sheet = "FILENAME \"game.bin\" BINARY\n";
    assert_eq!(cue_track_files(sheet), Vec::<String>::new());
    let bare = "FILE\n";
    assert_eq!(cue_track_files(bare), Vec::<String>::new());
}

#[test]
fn missing_final_newline_still_parses() {
    let sheet = "FILE \"game.bin\" BINARY";
    assert_eq!(cue_track_files(sheet), vec!["game.bin".to_string()]);
}
