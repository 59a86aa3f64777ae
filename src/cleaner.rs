//! The reconciliation engine bound to one installed application and its
//! installation root.
use vstd::prelude::*;

use crate::content_id::{decimal_digits, ContentId};
use crate::paths::{join, join_path};
use crate::reconcile::{
    installed_set, list_content_directories, orphaned_items, orphaned_set, ListedEntry,
};
use crate::removal::{is_started, CleanerError, Removal, RemovalAction};

verus! {

/// The workshop content folder of an application, from the folder the
/// application is installed in.
pub open spec fn workshop_path(install_dir: Seq<char>, app_id: u32) -> Seq<char> {
    join_path(join_path(install_dir, "../../workshop/content"@), decimal_digits(app_id as nat))
}

/// The workshop content folder of application `app_id` installed in `install_dir`.
pub fn workshop_dir(install_dir: &str, app_id: u32) -> (r: String)
    ensures
        r@ == workshop_path(install_dir@, app_id),
{
    let content = join(install_dir, "../../workshop/content");
    let mut name = String::new();
    crate::content_id::push_decimal(&mut name, app_id as u64);
    assert(name@ =~= decimal_digits(app_id as nat));
    join(content.as_str(), name.as_str())
}

/// What a size query gives: nothing when the content directory does not
/// exist, else what measuring it gave. An empty directory measures zero,
/// which stays distinct from "unknown".
pub fn item_size(is_directory: bool, measured: Option<u64>) -> (r: Option<u64>)
    ensures
        r == (if is_directory {
            measured
        } else {
            None
        }),
{
    if is_directory {
        measured
    } else {
        None
    }
}

/// The engine for one installed application: its identifier and its
/// installation root, the workshop content folder.
pub struct WorkshopCleaner {
    app_id: u32,
    root: String,
}

impl WorkshopCleaner {
    /// The application this engine works on.
    pub closed spec fn spec_app_id(&self) -> u32 {
        self.app_id
    }

    /// The installation root: the application's workshop content folder.
    pub closed spec fn spec_root(&self) -> Seq<char> {
        self.root@
    }

    /// The installation guard. Binds an engine to application `app_id`, given
    /// whether Steam reports it installed and the folder it reports it
    /// installed in. An application that is not installed gets no engine.
    pub fn new(app_id: u32, installed: bool, install_dir: &str) -> (r: Result<
        WorkshopCleaner,
        CleanerError,
    >)
        ensures
            installed ==> (r matches Ok(c) && c.spec_app_id() == app_id && c.spec_root()
                == workshop_path(install_dir@, app_id)),
            !installed ==> r matches Err(CleanerError::NotInstalled),
    {
        if installed {
            Ok(WorkshopCleaner { app_id, root: workshop_dir(install_dir, app_id) })
        } else {
            Err(CleanerError::NotInstalled)
        }
    }

    /// The application this engine works on.
    pub fn app_id(&self) -> (r: u32)
        ensures
            r == self.spec_app_id(),
    {
        self.app_id
    }

    /// The installation root: the application's workshop content folder.
    pub fn get_workshop_dir(&self) -> (r: String)
        ensures
            r@ == self.spec_root(),
    {
        self.root.clone()
    }

    /// The directory of content `id` under the installation root.
    pub fn get_item_dir(&self, id: ContentId) -> (r: String)
        ensures
            r@ == join_path(self.spec_root(), id.name()),
    {
        let name = id.to_string();
        join(self.root.as_str(), name.as_str())
    }

    /// The installed content, from a listing of the installation root;
    /// `None` stands for a root that could not be listed.
    pub fn get_installed_items(&self, listing: Option<Vec<ListedEntry>>) -> (r: Result<
        Vec<ContentId>,
        CleanerError,
    >)
        ensures
            listing is None ==> r matches Err(CleanerError::RootUnavailable),
            listing matches Some(entries) ==> (r matches Ok(ids) && ids@.to_set() == installed_set(
                entries@,
            ) && ids@.no_duplicates()),
    {
        match listing {
            Some(entries) => Ok(list_content_directories(&entries)),
            None => Err(CleanerError::RootUnavailable),
        }
    }

    /// The installed content that the user is no longer subscribed to, from a
    /// listing of the installation root and the current subscriptions;
    /// `None` stands for a root that could not be listed.
    pub fn get_installed_not_subscribed_items(
        &self,
        listing: Option<Vec<ListedEntry>>,
        subscribed: &Vec<ContentId>,
    ) -> (r: Result<Vec<ContentId>, CleanerError>)
        ensures
            listing is None ==> r matches Err(CleanerError::RootUnavailable),
            listing matches Some(entries) ==> (r matches Ok(ids) && ids@.to_set() == orphaned_set(
                installed_set(entries@),
                subscribed@.to_set(),
            ) && ids@.no_duplicates()),
    {
        match listing {
            Some(entries) => Ok(orphaned_items(&entries, subscribed)),
            None => Err(CleanerError::RootUnavailable),
        }
    }

    /// Starts the guarded removal of content `id`, revoking its subscription
    /// first when `unsubscribe` is set.
    pub fn remove_item(&self, id: ContentId, unsubscribe: bool) -> (r: (Removal, RemovalAction))
        ensures
            is_started(r.0, self.spec_root(), id, unsubscribe),
            r.1 == RemovalAction::CheckDirectory(r.0.item_dir),
    {
        Removal::start(self.root.as_str(), id, unsubscribe)
    }
}

} // verus!
