use romcomp::rom_format::{
    RomFormat, BIN, FILE_FORMATS, ISO, N64, NDS, NINTENDO_64, NINTENDO_DS, NINTENDO_WII,
    PLAYSTATION_2, PLAYSTATION_PORTABLE, PLAYSTATION_X, V64, Z64,
};
use romcomp::search::{guess_file, CueFacts};

fn cue_facts(tracks: &[&str], exists: &[bool]) -> CueFacts {
    CueFacts {
        tracks: tracks.iter().map(|t| t.to_string()).collect(),
        exists: exists.to_vec(),
    }
}

#[test]
fn iso_is_recognized_for_every_disc_console() {
    let got = guess_file(&"roms/Game.iso".to_string(), true, None);
    assert_eq!(
        got,
        Some(RomFormat::from_bits(
            PLAYSTATION_X | PLAYSTATION_2 | PLAYSTATION_PORTABLE | NINTENDO_WII | ISO
        ))
    );
}

#[test]
fn extension_matching_ignores_ascii_case() {
    let got = guess_file(&"roms/GAME.ISO".to_string(), true, None);
    assert_eq!(
        got,
        Some(RomFormat::from_bits(
            PLAYSTATION_X | PLAYSTATION_2 | PLAYSTATION_PORTABLE | NINTENDO_WII | ISO
        ))
    );
    let got = guess_file(&"roms/game.NDS".to_string(), true, None);
    assert_eq!(got, Some(RomFormat::from_bits(NDS | NINTENDO_DS)));
}

#[test]
fn directories_are_never_recognized() {
    assert_eq!(guess_file(&"roms/Game.iso".to_string(), false, None), None);
}

#[test]
fn cartridge_variants_map_to_their_family() {
    assert_eq!(
        guess_file(&"r/a.n64".to_string(), true, None),
        Some(RomFormat::from_bits(N64 | NINTENDO_64))
    );
    assert_eq!(
        guess_file(&"r/a.v64".to_string(), true, None),
        Some(RomFormat::from_bits(V64 | NINTENDO_64))
    );
    assert_eq!(
        guess_file(&"r/a.z64".to_string(), true, None),
        Some(RomFormat::from_bits(Z64 | NINTENDO_64))
    );
    assert_eq!(
        guess_file(&"r/a.nds".to_string(), true, None),
        Some(RomFormat::from_bits(NDS | NINTENDO_DS))
    );
}

#[test]
fn unknown_extensions_are_not_recognized() {
    assert_eq!(guess_file(&"roms/readme.txt".to_string(), true, None), None);
    assert_eq!(guess_file(&"roms/game.bin".to_string(), true, None), None);
    assert_eq!(guess_file(&"roms/game".to_string(), true, None), None);
}

#[test]
fn cue_with_present_bin_tracks_is_raw_binary_playstation() {
    let facts = cue_facts(&["game.bin"], &[true]);
    let got = guess_file(&"roms/game.cue".to_string(), true, Some(&facts));
    assert_eq!(
        got,
        Some(RomFormat::from_bits(PLAYSTATION_X | PLAYSTATION_2 | BIN))
    );
}

#[test]
fn text_suffixed_cue_variant_is_recognized_too() {
    let facts = cue_facts(&["game.bin"], &[true]);
    let got = guess_file(&"roms/game.cue.txt".to_string(), true, Some(&facts));
    assert_eq!(
        got,
        Some(RomFormat::from_bits(PLAYSTATION_X | PLAYSTATION_2 | BIN))
    );
}

#[test]
fn cue_with_missing_track_file_is_not_recognized() {
    let facts = cue_facts(&["game.bin", "audio.bin"], &[true, false]);
    assert_eq!(
        guess_file(&"roms/game.cue".to_string(), true, Some(&facts)),
        None
    );
}

#[test]
fn cue_referencing_a_non_bin_file_is_not_recognized() {
    let facts = cue_facts(&["game.wav"], &[true]);
    assert_eq!(
        guess_file(&"roms/game.cue".to_string(), true, Some(&facts)),
        None
    );
}

#[test]
fn unreadable_cue_sheet_is_not_recognized() {
    assert_eq!(guess_file(&"roms/game.cue".to_string(), true, None), None);
}

#[test]
fn classification_is_deterministic() {
    let path = "roms/Game.iso".to_string();
    let first = guess_file(&path, true, None);
    let second = guess_file(&path, true, None);
    assert_eq!(first, second);
}

#[test]
fn narrowing_keeps_container_bits_and_sets_the_target() {
    let guess = RomFormat::from_bits(
        PLAYSTATION_X | PLAYSTATION_2 | PLAYSTATION_PORTABLE | NINTENDO_WII | ISO,
    );
    let narrowed = guess.narrow(PLAYSTATION_PORTABLE);
    assert_eq!(narrowed.bits, ISO | PLAYSTATION_PORTABLE);
    assert_eq!(guess.bits & FILE_FORMATS, ISO);
}

#[test]
fn union_and_intersection_follow_the_bit_masks() {
    let disc = RomFormat::from_bits(ISO);
    let platform = RomFormat::from_bits(PLAYSTATION_PORTABLE);
    let both = disc.union(platform);
    assert_eq!(both.bits, ISO | PLAYSTATION_PORTABLE);
    assert!(both.contains(disc));
    assert!(both.contains(platform));
    assert_eq!(both.intersect(RomFormat::from_bits(FILE_FORMATS)).bits, ISO);
}
