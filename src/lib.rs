//! Reconciliation of locally installed workshop content against the
//! subscriptions a remote service reports, and guarded removal of the
//! content that is no longer subscribed.
use vstd::prelude::*;

pub mod cleaner;
pub mod content_id;
pub mod gui_state;
pub mod locator;
pub mod paths;
pub mod reconcile;
pub mod removal;

verus! {

} // verus!
