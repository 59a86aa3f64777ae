//! Finding the applications that have workshop content in the Steam libraries.
use vstd::prelude::*;

use crate::content_id::{parse_app_id, parse_app_id_spec};
use crate::paths::{join, join_path};

verus! {

#[verifier::external_type_specification]
#[verifier::external_body]
pub struct ExSteamDir(steamlocate::SteamDir);

/// Relies on steamlocate's `SteamDir::locate`: the Steam installation of this
/// machine, if there is one.
#[verifier::external_body]
fn locate_steam() -> (r: Option<steamlocate::SteamDir>) {
    steamlocate::SteamDir::locate()
}

/// Relies on steamlocate's `SteamDir::libraryfolders`: the paths of the Steam
/// library folders, as text. The list may be empty.
#[verifier::external_body]
fn library_paths(steam: &mut steamlocate::SteamDir) -> (r: Vec<String>) {
    steam.libraryfolders().paths.iter().map(|p| p.to_string_lossy().into_owned()).collect()
}

/// Steam's own controller configurations, which are not workshop content.
pub const IGNORED_APP_ID: u32 = 241100;

/// The applications named by the leaf names of workshop content folders, in
/// order: names that do not read as an application identifier, and ignored
/// applications, are skipped.
pub open spec fn workshop_app_ids_spec(names: Seq<String>) -> Seq<u32>
    decreases names.len(),
{
    if names.len() == 0 {
        Seq::empty()
    } else {
        let rest = workshop_app_ids_spec(names.drop_last());
        match parse_app_id_spec(names.last()@) {
            Some(a) => if a != IGNORED_APP_ID {
                rest.push(a)
            } else {
                rest
            },
            None => rest,
        }
    }
}

/// The workshop content folder of a library folder.
pub open spec fn content_dir_of(library: Seq<char>) -> Seq<char> {
    join_path(library, "workshop/content"@)
}

/// `path` is the workshop content folder of some library folder.
pub open spec fn is_content_dir(path: Seq<char>) -> bool {
    exists|library: Seq<char>| path == content_dir_of(library)
}

/// The applications named by the leaf names of the children of workshop
/// content folders.
pub fn workshop_app_ids(names: &Vec<String>) -> (r: Vec<u32>)
    ensures
        r@ == workshop_app_ids_spec(names@),
{
    let mut r: Vec<u32> = Vec::new();
    let mut i: usize = 0;
    while i < names.len()
        invariant
            0 <= i <= names.len(),
            r@ == workshop_app_ids_spec(names@.take(i as int)),
        decreases names.len() - i,
    {
        let ghost next = names@.take(i + 1);
        assert(next.drop_last() =~= names@.take(i as int));
        assert(next.last() == names@[i as int]);
        match parse_app_id(names[i].as_str()) {
            Some(a) => {
                if a != IGNORED_APP_ID {
                    r.push(a);
                }
            },
            None => {},
        }
        i = i + 1;
    }
    assert(names@.take(names.len() as int) =~= names@);
    r
}

/// The workshop content folders of the given library folders, in order.
pub fn workshop_content_dirs(libraries: &Vec<String>) -> (r: Vec<String>)
    ensures
        r@.len() == libraries@.len(),
        forall|k: int| 0 <= k < r@.len() ==> #[trigger] r@[k]@ == content_dir_of(libraries@[k]@),
{
    let mut r: Vec<String> = Vec::new();
    let mut i: usize = 0;
    while i < libraries.len()
        invariant
            0 <= i <= libraries.len(),
            r@.len() == i,
            forall|k: int| 0 <= k < i ==> #[trigger] r@[k]@ == content_dir_of(libraries@[k]@),
        decreases libraries.len() - i,
    {
        r.push(join(libraries[i].as_str(), "workshop/content"));
        i = i + 1;
    }
    r
}

/// The Steam installation of this machine.
pub struct SteamLocator {
    steam: steamlocate::SteamDir,
}

impl SteamLocator {
    /// Finds the Steam installation; `None` when Steam is not installed.
    pub fn new() -> (r: Option<SteamLocator>) {
        match locate_steam() {
            Some(steam) => Some(SteamLocator { steam }),
            None => None,
        }
    }

    /// The workshop content folders of all Steam library folders. Each child
    /// of one of them is named by the application it holds content for.
    pub fn get_workshop_content_dirs(&mut self) -> (r: Vec<String>)
        ensures
            forall|k: int| 0 <= k < r@.len() ==> is_content_dir(#[trigger] r@[k]@),
    {
        let libraries = library_paths(&mut self.steam);
        let r = workshop_content_dirs(&libraries);
        assert forall|k: int| 0 <= k < r@.len() implies is_content_dir(#[trigger] r@[k]@) by {
            assert(r@[k]@ == content_dir_of(libraries@[k]@));
        }
        r
    }
}

} // verus!
