//! Which BASS library file gets loaded, and from where.
//!
//! The file name and the list of directories to search can each be chosen
//! once, before the library is first needed.  When it is needed, an unset
//! name falls back to the platform's file name and an unset list falls back
//! to the directory of the running executable; the fallback is then stored,
//! so that later attempts to choose fail as well.  The directories are tried
//! in order and the first that holds the file wins.

use crate::onecell::{
    name_cell_contents, name_cell_get, name_cell_new, name_cell_set, paths_cell_contents,
    paths_cell_get, paths_cell_new, paths_cell_set,
};
use once_cell::sync::OnceCell;
use std::path::PathBuf;
use vstd::prelude::*;

verus! {

/// The platforms on which the BASS library is distributed.
pub enum TargetOs {
    Windows,
    Linux,
    MacOs,
}

/// The file name under which BASS is distributed on each platform.
pub open spec fn platform_library_name(os: TargetOs) -> Seq<char> {
    match os {
        TargetOs::Windows => "bass.dll"@,
        TargetOs::Linux => "libbass.so"@,
        TargetOs::MacOs => "libbass.dylib"@,
    }
}

/// The file name of the BASS library on `os`.
pub fn default_library_name(os: TargetOs) -> (r: String)
    ensures
        r@ == platform_library_name(os),
{
    match os {
        TargetOs::Windows => "bass.dll".to_owned(),
        TargetOs::Linux => "libbass.so".to_owned(),
        TargetOs::MacOs => "libbass.dylib".to_owned(),
    }
}

/// The first element of `s`, if there is one.
pub open spec fn first_of<A>(s: Seq<A>) -> Option<A> {
    if s.len() > 0 {
        Some(s[0])
    } else {
        None
    }
}

/// What the settings hold: each choice is `None` until it is made.
pub struct SettingsView {
    pub name: Option<Seq<char>>,
    pub search_paths: Option<Seq<PathBuf>>,
}

/// The settings that decide where the BASS library is loaded from.
pub struct LibrarySettings {
    name: OnceCell<String>,
    search_paths: OnceCell<Vec<PathBuf>>,
}

impl View for LibrarySettings {
    type V = SettingsView;

    closed spec fn view(&self) -> SettingsView {
        SettingsView {
            name: first_of(name_cell_contents(self.name)),
            search_paths: first_of(paths_cell_contents(self.search_paths)),
        }
    }
}

/// Settings in which nothing has been chosen yet.
pub open spec fn unset_settings() -> SettingsView {
    SettingsView { name: None, search_paths: None }
}

/// Whether choosing the file name succeeds: only while none is stored.
pub open spec fn name_is_open(s: SettingsView) -> bool {
    s.name is None
}

/// The settings after an attempt to choose `name` as the file name.
pub open spec fn with_name(s: SettingsView, name: Seq<char>) -> SettingsView {
    if s.name is None {
        SettingsView { name: Some(name), ..s }
    } else {
        s
    }
}

/// Whether choosing the search directories succeeds: only while none are
/// stored.
pub open spec fn search_paths_are_open(s: SettingsView) -> bool {
    s.search_paths is None
}

/// The settings after an attempt to choose `paths` as the search directories.
pub open spec fn with_search_paths(s: SettingsView, paths: Seq<PathBuf>) -> SettingsView {
    if s.search_paths is None {
        SettingsView { search_paths: Some(paths), ..s }
    } else {
        s
    }
}

/// The settings once the file name has been resolved on `os`: a stored
/// name stays, otherwise the platform's name is stored.
pub open spec fn with_resolved_name(s: SettingsView, os: TargetOs) -> SettingsView {
    with_name(s, platform_library_name(os))
}

/// The settings once the search directories have been resolved, given the
/// directory of the running executable if it is known: stored directories
/// stay, otherwise that one directory is stored.
pub open spec fn with_resolved_search_paths(s: SettingsView, exe_dir: Option<PathBuf>) -> SettingsView {
    match exe_dir {
        Some(d) => with_search_paths(s, seq![d]),
        None => s,
    }
}

impl LibrarySettings {
    /// Settings in which neither the file name nor the search directories
    /// have been chosen.
    pub fn new() -> (r: Self)
        ensures
            r@ == unset_settings(),
            r@.name is None,
            r@.search_paths is None,
    {
        let r = LibrarySettings { name: name_cell_new(), search_paths: paths_cell_new() };
        proof {
            assert(first_of(name_cell_contents(r.name)) is None);
            assert(first_of(paths_cell_contents(r.search_paths)) is None);
        }
        r
    }

    /// The chosen file name, if one has been chosen.
    pub fn name(&self) -> (r: Option<&String>)
        ensures
            r is None <==> self@.name is None,
            r matches Some(v) ==> self@.name == Some(v@),
    {
        name_cell_get(&self.name)
    }

    /// The chosen search directories, if they have been chosen.
    pub fn search_paths(&self) -> (r: Option<&Vec<PathBuf>>)
        ensures
            r is None <==> self@.search_paths is None,
            r matches Some(v) ==> self@.search_paths == Some(v@),
    {
        paths_cell_get(&self.search_paths)
    }

    /// The file name to load: the chosen one, or else the platform's, which
    /// is then stored as the choice.
    pub fn resolve_name(&mut self, os: TargetOs) -> (r: String)
        ensures
            final(self)@ == with_resolved_name(old(self)@, os),
            final(self)@.name == Some(r@),
            final(self)@.search_paths == old(self)@.search_paths,
            old(self)@.name matches Some(n) ==> r@ == n,
            old(self)@.name is None ==> r@ == platform_library_name(os),
    {
        let current = name_cell_get(&self.name);
        if let Some(n) = current {
            return n.clone();
        }
        let d = default_library_name(os);
        let _ = name_cell_set(&mut self.name, d.clone());
        d
    }

    /// Makes sure search directories are stored: chosen ones stay, else the
    /// directory of the running executable is stored if it is known.  Answers
    /// whether directories are stored afterwards.
    pub fn resolve_search_paths(&mut self, exe_dir: Option<PathBuf>) -> (r: bool)
        ensures
            final(self)@ == with_resolved_search_paths(old(self)@, exe_dir),
            r <==> final(self)@.search_paths is Some,
            final(self)@.name == old(self)@.name,
            old(self)@.search_paths is Some ==> final(self)@.search_paths == old(self)@.search_paths,
            old(self)@.search_paths is None ==> final(self)@.search_paths == (match exe_dir {
                Some(d) => Some(seq![d]),
                None => None::<Seq<PathBuf>>,
            }),
    {
        let current = paths_cell_get(&self.search_paths);
        if current.is_some() {
            return true;
        }
        match exe_dir {
            Some(d) => {
                let mut paths: Vec<PathBuf> = Vec::new();
                paths.push(d);
                let _ = paths_cell_set(&mut self.search_paths, paths);
                true
            },
            None => false,
        }
    }
}

/// Chooses the file name of the BASS library.  Succeeds only while no name
/// is stored; otherwise nothing changes and `name` is handed back.
pub fn set_library_name(settings: &mut LibrarySettings, name: String) -> (r: Result<(), String>)
    ensures
        final(settings)@ == with_name(old(settings)@, name@),
        r is Ok <==> name_is_open(old(settings)@),
        r is Ok <==> old(settings)@.name is None,
        final(settings)@.search_paths == old(settings)@.search_paths,
        old(settings)@.name is None ==> final(settings)@.name == Some(name@),
        old(settings)@.name is Some ==> final(settings)@.name == old(settings)@.name,
        r matches Err(v) ==> v@ == name@,
{
    name_cell_set(&mut settings.name, name)
}

/// Chooses the directories searched for the BASS library.  Succeeds only
/// while none are stored; otherwise nothing changes and `search_paths` is
/// handed back.
pub fn set_library_search_paths(settings: &mut LibrarySettings, search_paths: Vec<PathBuf>) -> (r: Result<(), Vec<PathBuf>>)
    ensures
        final(settings)@ == with_search_paths(old(settings)@, search_paths@),
        r is Ok <==> search_paths_are_open(old(settings)@),
        r is Ok <==> old(settings)@.search_paths is None,
        final(settings)@.name == old(settings)@.name,
        old(settings)@.search_paths is None ==> final(settings)@.search_paths == Some(search_paths@),
        old(settings)@.search_paths is Some ==> final(settings)@.search_paths == old(settings)@.search_paths,
        r matches Err(v) ==> v@ == search_paths@,
{
    paths_cell_set(&mut settings.search_paths, search_paths)
}

/// Of the candidate library paths, in search order, picks the first that is
/// an existing file; `is_file[i]` tells whether candidate `i` is one.
pub fn first_library_candidate(is_file: &Vec<bool>) -> (r: Option<usize>)
    ensures
        r matches Some(i) ==> i < is_file@.len() && is_file@[i as int] && forall|j: int| 0 <= j < i ==> !is_file@[j],
        r is None <==> forall|j: int| 0 <= j < is_file@.len() ==> !is_file@[j],
{
    let mut i: usize = 0;
    while i < is_file.len()
        invariant
            i <= is_file@.len(),
            forall|j: int| 0 <= j < i ==> !is_file@[j],
        decreases is_file@.len() - i,
    {
        if is_file[i] {
            return Some(i);
        }
        i = i + 1;
    }
    None
}

/// A choice of file name, once made, is final: any later attempt leaves the
/// settings as they are and fails, and a choice made on fresh settings is the
/// one that stays.
pub proof fn law_first_name_choice_wins(s: SettingsView, first: Seq<char>, later: Seq<char>)
    ensures
        with_name(with_name(s, first), later) == with_name(s, first),
        !name_is_open(with_name(s, first)),
        name_is_open(s) ==> with_name(with_name(s, first), later).name == Some(first),
{
}

/// A choice of search directories, once made, is final: any later attempt
/// leaves the settings as they are and fails, and a choice made on fresh
/// settings is the one that stays.
pub proof fn law_first_search_paths_choice_wins(s: SettingsView, first: Seq<PathBuf>, later: Seq<PathBuf>)
    ensures
        with_search_paths(with_search_paths(s, first), later) == with_search_paths(s, first),
        !search_paths_are_open(with_search_paths(s, first)),
        search_paths_are_open(s) ==> with_search_paths(with_search_paths(s, first), later).search_paths
            == Some(first),
{
}

/// The two choices do not touch each other: choosing a file name leaves the
/// search directories as they were, and the other way round.
pub proof fn law_choices_are_independent(s: SettingsView, name: Seq<char>, paths: Seq<PathBuf>)
    ensures
        with_name(s, name).search_paths == s.search_paths,
        with_search_paths(s, paths).name == s.name,
        with_name(with_search_paths(s, paths), name) == with_search_paths(with_name(s, name), paths),
{
}

/// Once the library's location has been resolved, the file name and the
/// search directories can no longer be chosen (when the executable's
/// directory was known, so that directories got stored).
pub proof fn law_resolving_closes_choices(s: SettingsView, os: TargetOs, exe_dir: PathBuf)
    ensures
        !name_is_open(with_resolved_name(s, os)),
        !search_paths_are_open(with_resolved_search_paths(s, Some(exe_dir))),
{
}

/// Resolving one location leaves the other as it was: resolving the file
/// name never touches the search directories, and resolving the search
/// directories never touches the file name.  So on settings where nothing
/// was chosen, resolving the name and then the directories with the
/// executable's directory `d` known searches exactly `d`, and the name
/// resolved is the platform's.
pub proof fn law_resolving_one_location_keeps_the_other(s: SettingsView, os: TargetOs, exe_dir: Option<PathBuf>, d: PathBuf)
    ensures
        with_resolved_name(s, os).search_paths == s.search_paths,
        with_resolved_search_paths(s, exe_dir).name == s.name,
        with_resolved_search_paths(with_resolved_name(unset_settings(), os), Some(d)).search_paths == Some(seq![d]),
        with_resolved_search_paths(with_resolved_name(unset_settings(), os), Some(d)).name
            == Some(platform_library_name(os)),
        with_resolved_name(with_resolved_search_paths(s, exe_dir), os)
            == with_resolved_search_paths(with_resolved_name(s, os), exe_dir),
{
}

/// Resolving uses what was chosen: a chosen file name is the one resolved,
/// and with nothing chosen the platform's file name is.  Likewise chosen
/// directories are kept, and with nothing chosen only the executable's
/// directory is searched.
pub proof fn law_resolving_prefers_choices(s: SettingsView, os: TargetOs, exe_dir: Option<PathBuf>)
    ensures
        s.name matches Some(n) ==> with_resolved_name(s, os).name == Some(n),
        s.name is None ==> with_resolved_name(s, os).name == Some(platform_library_name(os)),
        s.search_paths is Some ==> with_resolved_search_paths(s, exe_dir).search_paths == s.search_paths,
        (s.search_paths is None && exe_dir is Some) ==> with_resolved_search_paths(s, exe_dir).search_paths
            == Some(seq![exe_dir->0]),
{
}

} // verus!
