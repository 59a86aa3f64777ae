//! The state behind the graphical front end: the application list, the
//! selection, and the items found for review. Drawing is left to the toolkit;
//! what is decided here is which state follows which command.
use vstd::prelude::*;

use crate::cleaner::WorkshopCleaner;
use crate::content_id::{decimal_digits, push_decimal, ContentId};
use crate::reconcile::{installed_set, orphaned_set, ListedEntry};
use crate::removal::CleanerError;

verus! {

/// `name (number)`, the way items and applications are labelled.
pub open spec fn labelled(name: Seq<char>, number: nat) -> Seq<char> {
    name + seq![' ', '('] + decimal_digits(number) + seq![')']
}

/// Appends ` (number)` to `out`.
fn push_number_suffix(out: &mut String, number: u64)
    ensures
        final(out)@ == old(out)@ + seq![' ', '('] + decimal_digits(number as nat) + seq![')'],
{
    proof {
        reveal_strlit(" (");
        reveal_strlit(")");
    }
    out.append(" (");
    push_decimal(out, number);
    out.append(")");
    assert(final(out)@ =~= old(out)@ + seq![' ', '('] + decimal_digits(number as nat) + seq![')']);
}

/// A workshop item offered for review: its identifier and its title.
pub struct WorkshopItem {
    pub id: ContentId,
    pub title: String,
}

impl WorkshopItem {
    /// The item's label: its title, then its identifier in parentheses.
    pub fn to_string(&self) -> (r: String)
        ensures
            r@ == labelled(self.title@, self.id.0 as nat),
    {
        let mut out = self.title.clone();
        push_number_suffix(&mut out, self.id.0);
        out
    }
}

/// One item in the list of content found for review.
#[derive(Clone, Copy, Debug, PartialEq, Eq, Structural)]
pub struct SteamWorkshopItem(pub u64);

impl SteamWorkshopItem {
    /// The item's label: its identifier in decimal.
    pub fn to_string(&self) -> (r: String)
        ensures
            r@ == decimal_digits(self.0 as nat),
    {
        let mut out = String::new();
        push_decimal(&mut out, self.0);
        assert(out@ =~= decimal_digits(self.0 as nat));
        out
    }
}

/// An application with workshop content.
pub struct SteamApp {
    pub app_id: u32,
    pub name: String,
    pub workshop_items: Vec<SteamWorkshopItem>,
}

impl SteamApp {
    /// The application's label: its name, then its identifier in parentheses.
    pub fn to_string(&self) -> (r: String)
        ensures
            r@ == labelled(self.name@, self.app_id as nat),
    {
        let mut out = self.name.clone();
        push_number_suffix(&mut out, self.app_id as u64);
        out
    }
}

/// Everything the front end shows.
pub struct AppState {
    /// The applications found; `None` while they are being looked for.
    pub apps: Option<Vec<SteamApp>>,
    /// The content found for review in the confirmed application.
    pub items: Vec<SteamWorkshopItem>,
    /// The application picked in the list.
    pub selected_app: Option<SteamApp>,
    /// Whether the pick was confirmed; it cannot change afterwards.
    pub selected_app_confirmed: bool,
}

impl AppState {
    /// Nothing found yet, nothing picked.
    pub fn new() -> (r: AppState)
        ensures
            r.apps is None,
            r.items@.len() == 0,
            r.selected_app is None,
            !r.selected_app_confirmed,
    {
        AppState { apps: None, items: Vec::new(), selected_app: None, selected_app_confirmed: false }
    }
}

impl Default for AppState {
    fn default() -> (r: AppState)
        ensures
            r.apps is None,
            r.items@.len() == 0,
            r.selected_app is None,
            !r.selected_app_confirmed,
    {
        AppState::new()
    }
}

/// Controller of the application list as a whole.
pub struct AppListController {}

impl AppListController {
    pub fn new() -> (r: AppListController)
        ensures
            r == (AppListController {}),
    {
        AppListController {  }
    }
}

/// The background an application row is painted with.
#[derive(Clone, Copy, Debug, PartialEq, Eq, Structural)]
pub enum RowBackground {
    /// Picked, under the pointer.
    Red,
    /// Picked.
    Maroon,
    /// Under the pointer.
    Gray,
    /// Neither.
    Transparent,
}

/// Controller of one row of the application list: whether the pointer is over
/// it and whether it is the picked application.
pub struct AppListItemController {
    pub hover: bool,
    pub selected: bool,
}

impl AppListItemController {
    /// A row neither under the pointer nor picked.
    pub fn new() -> (r: AppListItemController)
        ensures
            !r.hover,
            !r.selected,
    {
        AppListItemController { hover: false, selected: false }
    }

    /// Records whether the pointer is over the row; returns whether that
    /// changed, in which case the cursor and background are to be updated.
    pub fn on_hover(&mut self, hover: bool) -> (changed: bool)
        ensures
            changed == (hover != old(self).hover),
            final(self).hover == hover,
            final(self).selected == old(self).selected,
    {
        if hover != self.hover {
            self.hover = hover;
            true
        } else {
            false
        }
    }

    /// Records whether the row's application is the picked one.
    pub fn on_selected(&mut self, selected: bool)
        ensures
            final(self).selected == selected,
            final(self).hover == old(self).hover,
    {
        self.selected = selected;
    }

    /// The background for the row's current state.
    pub fn background(&self) -> (r: RowBackground)
        ensures
            r == (if self.hover && self.selected {
                RowBackground::Red
            } else if self.selected {
                RowBackground::Maroon
            } else if self.hover {
                RowBackground::Gray
            } else {
                RowBackground::Transparent
            }),
    {
        if self.hover && self.selected {
            RowBackground::Red
        } else if self.selected {
            RowBackground::Maroon
        } else if self.hover {
            RowBackground::Gray
        } else {
            RowBackground::Transparent
        }
    }
}

/// The name an application is listed under until its real name is known.
pub open spec fn placeholder_name() -> Seq<char> {
    seq!['U', 'n', 'k', 'o', 'w', 'n']
}

/// The application list for the given application identifiers, in order:
/// each under the placeholder name, with no workshop items yet.
pub fn steam_apps_from_ids(app_ids: &Vec<u32>) -> (r: Vec<SteamApp>)
    ensures
        r@.len() == app_ids@.len(),
        forall|k: int|
            0 <= k < r@.len() ==> (#[trigger] r@[k]).app_id == app_ids@[k] && r@[k].name@
                == placeholder_name() && r@[k].workshop_items@.len() == 0,
{
    let mut r: Vec<SteamApp> = Vec::new();
    let mut i: usize = 0;
    while i < app_ids.len()
        invariant
            0 <= i <= app_ids.len(),
            r@.len() == i,
            forall|k: int|
                0 <= k < i ==> (#[trigger] r@[k]).app_id == app_ids@[k] && r@[k].name@
                    == placeholder_name() && r@[k].workshop_items@.len() == 0,
        decreases app_ids.len() - i,
    {
        proof {
            reveal_strlit("Unkown");
        }
        let name = String::from_str("Unkown");
        assert(name@ =~= placeholder_name());
        r.push(SteamApp { app_id: app_ids[i], name, workshop_items: Vec::new() });
        i = i + 1;
    }
    r
}

/// Controller of the main window.
pub struct MainController {}

impl MainController {
    pub fn new() -> (r: MainController)
        ensures
            r == (MainController {}),
    {
        MainController {  }
    }

    /// When the window opens the application list is looked for anew; the
    /// list found is built with `steam_apps_from_ids` and handed back with
    /// `AppCommand::SetSteamApps`.
    pub fn on_window_connected(&self, data: &mut AppState)
        ensures
            final(data).apps is None,
            final(data).items == old(data).items,
            final(data).selected_app == old(data).selected_app,
            final(data).selected_app_confirmed == old(data).selected_app_confirmed,
    {
        data.apps = None;
    }
}

/// A command the front end sends.
pub enum AppCommand {
    /// The applications found.
    SetSteamApps(Vec<SteamApp>),
    /// An application was picked in the list.
    SelectSteamApp(SteamApp),
    /// The pick was confirmed.
    ConfirmSteamApp,
    /// Anything else.
    Other,
}

/// What handling a command leaves to the caller.
#[derive(Clone, Copy, Debug, PartialEq, Eq, Structural)]
pub enum DelegateReply {
    /// The command is not one the delegate handles.
    Unhandled,
    /// The command was handled.
    Handled,
    /// The command was handled; the engine for this application is to be
    /// started and handed over with `attach_cleaner`.
    StartCleaner(u32),
}

/// Handles the front end's commands and owns the engine once an application
/// is confirmed.
pub struct Delegate {
    cleaner: Option<WorkshopCleaner>,
}

impl Delegate {
    /// The engine handed over, if any.
    pub closed spec fn held(&self) -> Option<WorkshopCleaner> {
        self.cleaner
    }

    /// No engine yet.
    pub fn new() -> (r: Delegate)
        ensures
            r.held() is None,
    {
        Delegate { cleaner: None }
    }

    /// Applies a command to the state.
    pub fn command(&mut self, cmd: AppCommand, data: &mut AppState) -> (r: DelegateReply)
        ensures
            *final(self) == *old(self),
            final(data).items == old(data).items,
            match cmd {
                AppCommand::SetSteamApps(apps) => {
                    &&& r == DelegateReply::Handled
                    &&& final(data).apps == Some(apps)
                    &&& final(data).selected_app is None
                    &&& final(data).selected_app_confirmed == old(data).selected_app_confirmed
                },
                AppCommand::SelectSteamApp(app) => {
                    &&& r == DelegateReply::Handled
                    &&& final(data).apps == old(data).apps
                    &&& final(data).selected_app == if old(data).selected_app_confirmed {
                        old(data).selected_app
                    } else {
                        Some(app)
                    }
                    &&& final(data).selected_app_confirmed == old(data).selected_app_confirmed
                },
                AppCommand::ConfirmSteamApp => {
                    &&& r == match old(data).selected_app {
                        Some(app) => DelegateReply::StartCleaner(app.app_id),
                        None => DelegateReply::Handled,
                    }
                    &&& final(data).apps == old(data).apps
                    &&& final(data).selected_app == old(data).selected_app
                    &&& final(data).selected_app_confirmed
                },
                AppCommand::Other => {
                    &&& r == DelegateReply::Unhandled
                    &&& final(data).apps == old(data).apps
                    &&& final(data).selected_app == old(data).selected_app
                    &&& final(data).selected_app_confirmed == old(data).selected_app_confirmed
                },
            },
    {
        match cmd {
            AppCommand::SetSteamApps(apps) => {
                data.selected_app = None;
                data.apps = Some(apps);
                DelegateReply::Handled
            },
            AppCommand::SelectSteamApp(app) => {
                if !data.selected_app_confirmed {
                    data.selected_app = Some(app);
                }
                DelegateReply::Handled
            },
            AppCommand::ConfirmSteamApp => {
                data.selected_app_confirmed = true;
                match &data.selected_app {
                    Some(app) => DelegateReply::StartCleaner(app.app_id),
                    None => DelegateReply::Handled,
                }
            },
            AppCommand::Other => DelegateReply::Unhandled,
        }
    }

    /// Takes over the engine started for the confirmed application and fills
    /// the review list with its orphaned content, from a listing of its
    /// installation root and the current subscriptions (`None`: the root could
    /// not be listed, and the list is left as it was).
    pub fn attach_cleaner(
        &mut self,
        cleaner: WorkshopCleaner,
        listing: Option<Vec<ListedEntry>>,
        subscribed: &Vec<ContentId>,
        data: &mut AppState,
    ) -> (r: Result<(), CleanerError>)
        ensures
            final(self).held() == Some(cleaner),
            final(data).apps == old(data).apps,
            final(data).selected_app == old(data).selected_app,
            final(data).selected_app_confirmed == old(data).selected_app_confirmed,
            listing is None ==> (r matches Err(CleanerError::RootUnavailable) && final(data).items
                == old(data).items),
            listing matches Some(entries) ==> (r is Ok && final(data).items@.map_values(
                |item: SteamWorkshopItem| ContentId(item.0),
            ).to_set() == orphaned_set(installed_set(entries@), subscribed@.to_set())
                && final(data).items@.no_duplicates()),
    {
        let found = cleaner.get_installed_not_subscribed_items(listing, subscribed);
        self.cleaner = Some(cleaner);
        match found {
            Ok(ids) => {
                let mut items: Vec<SteamWorkshopItem> = Vec::new();
                let mut i: usize = 0;
                while i < ids.len()
                    invariant
                        0 <= i <= ids.len(),
                        items@.len() == i,
                        forall|k: int| 0 <= k < i ==> items@[k].0 == (#[trigger] ids@[k]).0,
                    decreases ids.len() - i,
                {
                    items.push(SteamWorkshopItem(ids[i].0));
                    i = i + 1;
                }
                assert(items@.map_values(|item: SteamWorkshopItem| ContentId(item.0)) =~= ids@);
                assert(items@.no_duplicates()) by {
                    assert forall|a: int, b: int|
                        0 <= a < items@.len() && 0 <= b < items@.len() && a != b implies items@[a]
                        != items@[b] by {
                        assert(ids@[a] != ids@[b]);
                    }
                }
                data.items = items;
                Ok(())
            },
            Err(e) => Err(e),
        }
    }
}

} // verus!
