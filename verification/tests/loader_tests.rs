use bass_sys::loader::{
    default_library_name, first_library_candidate, set_library_name, set_library_search_paths,
    LibrarySettings, TargetOs,
};
use std::path::PathBuf;

#[test]
fn platform_names() {
    assert_eq!(default_library_name(TargetOs::Windows), "bass.dll");
    assert_eq!(default_library_name(TargetOs::Linux), "libbass.so");
    assert_eq!(default_library_name(TargetOs::MacOs), "libbass.dylib");
}

#[test]
fn fresh_settings_hold_nothing() {
    let s = LibrarySettings::new();
    assert!(s.name().is_none());
    assert!(s.search_paths().is_none());
}

#[test]
fn first_name_choice_wins() {
    let mut s = LibrarySettings::new();
    assert_eq!(set_library_name(&mut s, "custom.so".to_string()), Ok(()));
    assert_eq!(s.name().map(|n| n.as_str()), Some("custom.so"));
    assert_eq!(
        set_library_name(&mut s, "other.so".to_string()),
        Err("other.so".to_string())
    );
    assert_eq!(s.name().map(|n| n.as_str()), Some("custom.so"));
}

#[test]
fn first_search_paths_choice_wins() {
    let mut s = LibrarySettings::new();
    let first = vec![PathBuf::from("/opt/a"), PathBuf::from("/opt/b")];
    assert_eq!(set_library_search_paths(&mut s, first.clone()), Ok(()));
    assert_eq!(s.search_paths(), Some(&first));
    let later = vec![PathBuf::from("/usr/lib")];
    assert_eq!(set_library_search_paths(&mut s, later.clone()), Err(later));
    assert_eq!(s.search_paths(), Some(&first));
}

#[test]
fn choices_are_independent() {
    let mut s = LibrarySettings::new();
    assert_eq!(set_library_name(&mut s, "x.dll".to_string()), Ok(()));
    assert!(s.search_paths().is_none());
    let paths = vec![PathBuf::from("lib")];
    assert_eq!(set_library_search_paths(&mut s, paths.clone()), Ok(()));
    assert_eq!(s.name().map(|n| n.as_str()), Some("x.dll"));
    assert_eq!(s.search_paths(), Some(&paths));
}

#[test]
fn resolve_name_prefers_choice() {
    let mut s = LibrarySettings::new();
    assert_eq!(set_library_name(&mut s, "mine.so".to_string()), Ok(()));
    assert_eq!(s.resolve_name(TargetOs::Linux), "mine.so");
}

#[test]
fn resolve_name_falls_back_and_closes() {
    let mut s = LibrarySettings::new();
    assert_eq!(s.resolve_name(TargetOs::MacOs), "libbass.dylib");
    assert_eq!(s.name().map(|n| n.as_str()), Some("libbass.dylib"));
    assert_eq!(
        set_library_name(&mut s, "late.dylib".to_string()),
        Err("late.dylib".to_string())
    );
    assert_eq!(s.resolve_name(TargetOs::Windows), "libbass.dylib");
}

#[test]
fn resolve_search_paths_prefers_choice() {
    let mut s = LibrarySettings::new();
    let chosen = vec![PathBuf::from("/chosen")];
    assert_eq!(set_library_search_paths(&mut s, chosen.clone()), Ok(()));
    assert!(s.resolve_search_paths(Some(PathBuf::from("/exe"))));
    assert_eq!(s.search_paths(), Some(&chosen));
}

#[test]
fn resolve_search_paths_falls_back_to_exe_dir() {
    let mut s = LibrarySettings::new();
    assert!(s.resolve_search_paths(Some(PathBuf::from("/exe/dir"))));
    assert_eq!(s.search_paths(), Some(&vec![PathBuf::from("/exe/dir")]));
    let late = vec![PathBuf::from("/late")];
    assert_eq!(set_library_search_paths(&mut s, late.clone()), Err(late));
}

#[test]
fn resolve_search_paths_without_exe_dir_fails() {
    let mut s = LibrarySettings::new();
    assert!(!s.resolve_search_paths(None));
    assert!(s.search_paths().is_none());
    assert_eq!(set_library_search_paths(&mut s, vec![]), Ok(()));
}

#[test]
fn first_candidate_picks_first_existing() {
    assert_eq!(first_library_candidate(&vec![false, true, true]), Some(1));
    assert_eq!(first_library_candidate(&vec![true, false]), Some(0));
    assert_eq!(first_library_candidate(&vec![false, false, false]), None);
    assert_eq!(first_library_candidate(&vec![]), None);
}
