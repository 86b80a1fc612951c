use std::collections::HashMap;

use wii_organizer::extract::plan_extraction;
use wii_organizer::extract::ArchiveEntry;
use wii_organizer::game::parse_game_folder_name;
use wii_organizer::paths::check_entry_path;
use wii_organizer::paths::entry_destination;
use wii_organizer::paths::join_path;

#[test]
fn traversal_entries_rejected() {
    let dir = b"/cache".as_slice();
    assert!(entry_destination(dir, b"../evil.png").is_none());
    assert!(entry_destination(dir, b"a/../b.png").is_none());
    assert!(entry_destination(dir, b"..").is_none());
    assert!(entry_destination(dir, b"a/..").is_none());
    assert!(entry_destination(dir, b"/etc/passwd").is_none());
    assert!(entry_destination(dir, b"a\\..\\b").is_none());
    assert!(entry_destination(dir, b"").is_none());
}

#[test]
fn safe_entries_land_under_destination() {
    let dir = b"/cache".as_slice();
    let dest = entry_destination(dir, b"wii/disc/US/ABCD01.png").unwrap();
    assert_eq!(dest, b"/cache/wii/disc/US/ABCD01.png".to_vec());
    // A name that merely contains dots is no traversal.
    assert!(entry_destination(dir, b"..a/b").is_some());
    assert!(entry_destination(dir, b"a/..b/c").is_some());
    assert!(entry_destination(dir, b"a..b").is_some());
}

#[test]
fn entry_path_checks() {
    assert!(check_entry_path(b"wii/disc/US/x.png"));
    assert!(check_entry_path(b"plain.txt"));
    assert!(!check_entry_path(b""));
    assert!(!check_entry_path(b"/abs"));
    assert!(!check_entry_path(b"nul\0byte"));
    assert!(!check_entry_path(b"back\\slash"));
    assert!(!check_entry_path(b"../up"));
    assert!(!check_entry_path(b"deep/../../up"));
}

#[test]
fn join_path_single_separator() {
    assert_eq!(join_path(b"/cache", b"discs.zip"), b"/cache/discs.zip".to_vec());
    assert_eq!(join_path(b"", b"x"), b"/x".to_vec());
}

// Applies an extraction plan to an in-memory destination, the way the
// binary applies it to the filesystem: write the payload at each resolved
// destination, overwriting, and skip refused entries.
fn apply(fs: &mut HashMap<Vec<u8>, Vec<u8>>, dir: &[u8], entries: &[ArchiveEntry]) {
    let names: Vec<Vec<u8>> = entries.iter().map(|e| e.name.clone()).collect();
    let plan = plan_extraction(dir, &names);
    for (slot, entry) in plan.into_iter().zip(entries.iter()) {
        if let Some(dest) = slot {
            fs.insert(dest, entry.data.clone());
        }
    }
}

fn entry(name: &[u8], data: &[u8]) -> ArchiveEntry {
    ArchiveEntry { name: name.to_vec(), data: data.to_vec() }
}

#[test]
fn extraction_idempotent() {
    // Extracting the same archive twice into the same destination yields
    // the same final file set and contents as extracting it once.
    let dir = b"/cache".as_slice();
    let entries: Vec<ArchiveEntry> = vec![
        entry(b"wii/disc/US/AAAA01.png", &[1, 2, 3]),
        entry(b"wii/disc/US/BBBB02.png", &[4, 5]),
        entry(b"../escape.png", &[6]),
        entry(b"wii/disc/US/AAAA01.png", &[7, 8]),
    ];
    let mut once: HashMap<Vec<u8>, Vec<u8>> = HashMap::new();
    apply(&mut once, dir, &entries);
    let mut twice = once.clone();
    apply(&mut twice, dir, &entries);
    assert_eq!(once, twice);
    // Later entries overwrite earlier ones at the same path; the unsafe
    // entry wrote nothing.
    assert_eq!(once.len(), 2);
    assert_eq!(once[&b"/cache/wii/disc/US/AAAA01.png".to_vec()], vec![7, 8]);
    assert_eq!(once[&b"/cache/wii/disc/US/BBBB02.png".to_vec()], vec![4, 5]);
}

#[test]
fn folder_name_parsing() {
    let parsed = parse_game_folder_name(b"Super Game [RABC01]").unwrap();
    assert_eq!(parsed.0, b"Super Game".to_vec());
    assert_eq!(parsed.1, b"RABC01".to_vec());

    let parsed = parse_game_folder_name(b"  padded \t[ID]").unwrap();
    assert_eq!(parsed.0, b"padded".to_vec());
    assert_eq!(parsed.1, b"ID".to_vec());

    let parsed = parse_game_folder_name(b"[X]").unwrap();
    assert_eq!(parsed.0, b"".to_vec());
    assert_eq!(parsed.1, b"X".to_vec());

    assert!(parse_game_folder_name(b"no brackets").is_none());
    assert!(parse_game_folder_name(b"open [only").is_none());
    assert!(parse_game_folder_name(b"closed ] only").is_none());
    assert!(parse_game_folder_name(b"] before [X]").is_none());
}
