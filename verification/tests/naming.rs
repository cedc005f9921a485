use romcomp::convert::Converter;
use romcomp::rom_format::{
    RomFormat, BIN, ISO, N64, NDS, NINTENDO_64, NINTENDO_DS, NINTENDO_WII, PLAYSTATION_2,
    PLAYSTATION_PORTABLE, PLAYSTATION_X, Z64,
};

fn output_of(path: &str, bits: u16) -> Option<String> {
    Converter::get_output_file_name(&path.to_string(), RomFormat::from_bits(bits))
}

#[test]
fn playstation_disc_pair_maps_iso_and_cue_endings_to_chd() {
    assert_eq!(
        output_of("roms/game.iso", ISO | PLAYSTATION_X),
        Some("roms/game.chd".to_string())
    );
    assert_eq!(
        output_of("roms/game.cue", BIN | PLAYSTATION_2),
        Some("roms/game.chd".to_string())
    );
    assert_eq!(
        output_of("roms/game.cue.txt", BIN | PLAYSTATION_X | PLAYSTATION_2),
        Some("roms/game.chd".to_string())
    );
}

#[test]
fn suffix_replacement_ignores_ascii_case_but_keeps_the_rest() {
    assert_eq!(
        output_of("roms/GAME.ISO", ISO | PLAYSTATION_X),
        Some("roms/GAME.chd".to_string())
    );
}

#[test]
fn suffix_replacement_only_touches_the_ending() {
    assert_eq!(
        output_of("isolated/Poison.iso", ISO | PLAYSTATION_X),
        Some("isolated/Poison.chd".to_string())
    );
}

#[test]
fn psp_gets_a_cso_sibling() {
    assert_eq!(
        output_of("roms/game.iso", ISO | PLAYSTATION_PORTABLE),
        Some("roms/game.cso".to_string())
    );
}

#[test]
fn wii_gets_an_rvz_sibling() {
    assert_eq!(
        output_of("roms/game.iso", ISO | NINTENDO_WII),
        Some("roms/game.rvz".to_string())
    );
}

#[test]
fn cartridge_families_map_to_zip() {
    assert_eq!(
        output_of("r/a.n64", N64 | NINTENDO_64),
        Some("r/a.zip".to_string())
    );
    assert_eq!(
        output_of("r/a.z64", Z64 | NINTENDO_64),
        Some("r/a.zip".to_string())
    );
    assert_eq!(
        output_of("r/a.nds", NDS | NINTENDO_DS),
        Some("r/a.zip".to_string())
    );
}

#[test]
fn a_format_without_platform_bits_has_no_output() {
    assert_eq!(output_of("roms/game.iso", ISO), None);
}

#[test]
fn disc_pair_precedence_wins_over_other_platform_bits() {
    assert_eq!(
        output_of(
            "roms/game.iso",
            ISO | PLAYSTATION_X | PLAYSTATION_PORTABLE | NINTENDO_WII
        ),
        Some("roms/game.chd".to_string())
    );
}
