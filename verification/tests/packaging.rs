use romcomp::archive::package_archive;
use std::io::Read;

#[test]
fn the_archive_holds_one_entry_named_after_the_staged_file() {
    let data: Vec<u8> = b"cartridge image bytes".to_vec();
    let bytes = package_archive("/scratch/game.nds", &data).expect("packaging succeeds");

    let mut archive = zip::ZipArchive::new(std::io::Cursor::new(bytes)).expect("a valid archive");
    assert_eq!(archive.len(), 1);
    let mut entry = archive.by_index(0).unwrap();
    assert_eq!(entry.name(), "game.nds");
    let mut content = Vec::new();
    entry.read_to_end(&mut content).unwrap();
    assert_eq!(content, data);
}

#[test]
fn compressible_data_actually_shrinks() {
    let data: Vec<u8> = vec![0u8; 1 << 20];
    let bytes = package_archive("stage/big.z64", &data).unwrap();
    assert!(bytes.len() < data.len() / 100);
}

#[test]
fn packaging_is_deterministic() {
    let data: Vec<u8> = (0..=255u8).cycle().take(10_000).collect();
    let first = package_archive("stage/game.z64", &data).unwrap();
    let second = package_archive("stage/game.z64", &data).unwrap();
    assert_eq!(first, second);
}

#[test]
fn empty_input_still_produces_a_well_formed_archive() {
    let bytes = package_archive("stage/empty.nds", &Vec::new()).unwrap();
    let mut archive = zip::ZipArchive::new(std::io::Cursor::new(bytes)).unwrap();
    assert_eq!(archive.len(), 1);
    let mut entry = archive.by_index(0).unwrap();
    let mut content = Vec::new();
    entry.read_to_end(&mut content).unwrap();
    assert!(content.is_empty());
}
