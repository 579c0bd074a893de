use decky_file_server::error::SERVER_ERROR_STATUS;
use decky_file_server::{
    browse_response_at, collect_listing, requested_path, resolve_listing, target_dir,
    ActivityClock, Browse, DirectoryUnreadable, EntryFault, EntryProbe, Error, File,
};

fn file(name: &str, size: u64, isdir: bool, modified: u64) -> EntryProbe {
    Ok(File::new(name.to_string(), size, isdir, modified))
}

#[test]
fn all_readable_entries_are_listed() {
    let probes = vec![
        file("a.txt", 12, false, 1_700_000_000),
        file("sub", 4096, true, 1_700_000_100),
        file("empty", 0, false, 0),
    ];
    let listing = collect_listing(&probes);
    assert_eq!(listing.entries.len(), 3);
    assert!(listing.faults.is_empty());
    assert_eq!(listing.entries[0].name, "a.txt");
    assert_eq!(listing.entries[0].size, 12);
    assert!(!listing.entries[0].isdir);
    assert_eq!(listing.entries[1].name, "sub");
    assert!(listing.entries[1].isdir);
    assert_eq!(listing.entries[1].modified, 1_700_000_100);
    assert_eq!(listing.entries[2].size, 0);
}

#[test]
fn faulty_entries_are_dropped_and_reported() {
    let probes = vec![
        file("a", 1, false, 10),
        Err(EntryFault::MetadataUnreadable),
        file("b", 2, true, 20),
        Err(EntryFault::NameNotText),
        Err(EntryFault::ModifiedUnavailable),
    ];
    let r = resolve_listing(&Ok(probes));
    let listing = r.expect("a listing with faulty entries still succeeds");
    assert_eq!(listing.entries.len(), 2);
    assert_eq!(listing.entries[0].name, "a");
    assert_eq!(listing.entries[1].name, "b");
    assert_eq!(
        listing.faults,
        vec![EntryFault::MetadataUnreadable, EntryFault::NameNotText, EntryFault::ModifiedUnavailable]
    );
}

#[test]
fn empty_directory_gives_empty_listing() {
    let listing = resolve_listing(&Ok(vec![])).expect("an empty directory is no error");
    assert!(listing.entries.is_empty());
    assert!(listing.faults.is_empty());
}

#[test]
fn every_entry_faulty_is_still_success() {
    let probes = vec![Err(EntryFault::Unreadable), Err(EntryFault::Unreadable)];
    let listing = resolve_listing(&Ok(probes)).expect("no hard failure");
    assert!(listing.entries.is_empty());
    assert_eq!(listing.faults.len(), 2);
}

#[test]
fn unopenable_directory_is_hard_failure() {
    let r = resolve_listing(&Err(DirectoryUnreadable));
    assert!(matches!(r, Err(Error::Fail)));
    let e = Error::Fail;
    assert_eq!(e.status_code(), 500);
    assert_eq!(SERVER_ERROR_STATUS, 500);
    assert_eq!(e.body(), "UNHANDLED_SERVER_ERROR");
}

#[test]
fn error_body_holds_no_path() {
    let target = target_dir("/home/deck", "missing-subdir");
    let body = Error::Fail.body();
    assert!(!body.contains(&target));
    assert!(!body.contains('/'));
    assert!(!body.contains("missing-subdir"));
}

#[test]
fn target_dir_joins_with_separator() {
    assert_eq!(target_dir("/home/deck", "Music/rock"), "/home/deck/Music/rock");
    assert_eq!(target_dir("/home/deck", ""), "/home/deck/");
    assert_eq!(target_dir("/srv", "../etc"), "/srv/../etc");
}

#[test]
fn missing_query_means_root() {
    assert_eq!(requested_path(None), "");
    assert_eq!(requested_path(Some(Browse::new("Pictures".to_string()))), "Pictures");
}

#[test]
fn browse_touches_clock_on_failure() {
    let mut clock = ActivityClock::starting_at(100);
    let r = browse_response_at(&mut clock, 170, &Err(DirectoryUnreadable));
    assert!(matches!(r, Err(Error::Fail)));
    assert_eq!(clock.last_touch, 170);
    assert_eq!(clock.elapsed_at(170), 0);
}

#[test]
fn browse_touches_clock_on_success() {
    let mut clock = ActivityClock::starting_at(5);
    let probes = vec![file("x", 3, false, 9), Err(EntryFault::Unreadable)];
    let listing = browse_response_at(&mut clock, 42, &Ok(probes)).expect("listing");
    assert_eq!(clock.last_touch, 42);
    assert_eq!(listing.entries.len(), 1);
    assert_eq!(listing.faults.len(), 1);
}

#[test]
fn file_duplicate_keeps_value() {
    let f = File::new("n".to_string(), 7, true, 8);
    let g = f.duplicate();
    assert_eq!(g.name, "n");
    assert_eq!((g.size, g.isdir, g.modified), (7, true, 8));
}
