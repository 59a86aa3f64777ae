//! The guarded removal protocol. Removing a content unit may first revoke its
//! subscription; the local directory is deleted only once the revoke is
//! confirmed, and never when the directory was not there to begin with.
//!
//! The protocol is a machine: it names the next piece of outside work as an
//! action, and the caller performs it and reports what happened as an event.
use vstd::prelude::*;

use crate::content_id::ContentId;
use crate::paths::{join, join_path};

verus! {

/// Why an operation of the cleaner failed.
#[derive(Debug)]
pub enum CleanerError {
    /// The installation root could not be listed.
    RootUnavailable,
    /// The content directory does not exist.
    NotFound,
    /// The revoke was requested and did not complete successfully.
    UnsubscribeFailed,
    /// Deleting the directory failed; the cause as the file system gave it.
    DeleteFailed(String),
    /// The application is not installed on this machine.
    NotInstalled,
}

/// Where a removal stands.
#[derive(Clone, Copy, Debug, PartialEq, Eq, Structural)]
pub enum RemovalPhase {
    /// Waiting to learn whether the content directory exists.
    CheckingDirectory,
    /// Waiting for the single completion of the revoke.
    Unsubscribing,
    /// Waiting for the recursive delete to finish.
    Deleting,
    /// Over; nothing more is done.
    Finished,
}

/// The outside work a removal asks for next.
#[derive(Debug)]
pub enum RemovalAction {
    /// Find out whether this path is an existing directory.
    CheckDirectory(String),
    /// Revoke the subscription to this content and wait for its completion.
    Unsubscribe(ContentId),
    /// Delete this directory and everything under it.
    DeleteDirectory(String),
    /// The removal is over, with this outcome.
    Finish(Result<(), CleanerError>),
}

/// What the outside work reported.
pub enum RemovalEvent {
    /// Whether the path is an existing directory.
    DirectoryChecked(bool),
    /// Whether the revoke completed successfully. A completion that never
    /// arrives, or a channel that closed, counts as `false`.
    UnsubscribeCompleted(bool),
    /// How the recursive delete ended, with the cause of a failure.
    DeleteCompleted(Result<(), String>),
}

/// One removal in progress.
pub struct Removal {
    /// The content being removed.
    pub id: ContentId,
    /// Its directory under the installation root.
    pub item_dir: String,
    /// Whether the subscription is to be revoked before deleting.
    pub unsubscribe: bool,
    /// Where the removal stands.
    pub phase: RemovalPhase,
}

/// The event a removal waits for in its current phase.
pub open spec fn expects(m: Removal, e: RemovalEvent) -> bool {
    match m.phase {
        RemovalPhase::CheckingDirectory => e is DirectoryChecked,
        RemovalPhase::Unsubscribing => e is UnsubscribeCompleted,
        RemovalPhase::Deleting => e is DeleteCompleted,
        RemovalPhase::Finished => false,
    }
}

/// The removal in another phase.
pub open spec fn in_phase(m: Removal, phase: RemovalPhase) -> Removal {
    Removal { phase, ..m }
}

/// The state a removal moves to on an event it waits for, and the action it
/// asks for then.
pub open spec fn next(m: Removal, e: RemovalEvent) -> (Removal, RemovalAction) {
    match e {
        RemovalEvent::DirectoryChecked(exists) => if !exists {
            (
                in_phase(m, RemovalPhase::Finished),
                RemovalAction::Finish(Err(CleanerError::NotFound)),
            )
        } else if m.unsubscribe {
            (in_phase(m, RemovalPhase::Unsubscribing), RemovalAction::Unsubscribe(m.id))
        } else {
            (in_phase(m, RemovalPhase::Deleting), RemovalAction::DeleteDirectory(m.item_dir))
        },
        RemovalEvent::UnsubscribeCompleted(ok) => if ok {
            (in_phase(m, RemovalPhase::Deleting), RemovalAction::DeleteDirectory(m.item_dir))
        } else {
            (
                in_phase(m, RemovalPhase::Finished),
                RemovalAction::Finish(Err(CleanerError::UnsubscribeFailed)),
            )
        },
        RemovalEvent::DeleteCompleted(res) => (
            in_phase(m, RemovalPhase::Finished),
            RemovalAction::Finish(
                match res {
                    Ok(()) => Ok(()),
                    Err(cause) => Err(CleanerError::DeleteFailed(cause)),
                },
            ),
        ),
    }
}

/// Every event of `evs`, in turn, is one the removal waits for.
pub open spec fn accepts_all(m: Removal, evs: Seq<RemovalEvent>) -> bool
    decreases evs.len(),
{
    evs.len() == 0 || (expects(m, evs[0]) && accepts_all(next(m, evs[0]).0, evs.drop_first()))
}

/// The actions a removal asks for while it takes the events of `evs` in turn.
pub open spec fn actions(m: Removal, evs: Seq<RemovalEvent>) -> Seq<RemovalAction>
    decreases evs.len(),
{
    if evs.len() == 0 {
        Seq::empty()
    } else {
        seq![next(m, evs[0]).1] + actions(next(m, evs[0]).0, evs.drop_first())
    }
}

/// A removal that has just started.
pub open spec fn is_started(m: Removal, root: Seq<char>, id: ContentId, unsubscribe: bool) -> bool {
    &&& m.id == id
    &&& m.item_dir@ == join_path(root, id.name())
    &&& m.unsubscribe == unsubscribe
    &&& m.phase == RemovalPhase::CheckingDirectory
}

/// No action of `acts` deletes a directory.
pub open spec fn never_deletes(acts: Seq<RemovalAction>) -> bool {
    forall|k: int| 0 <= k < acts.len() ==> !(#[trigger] acts[k] is DeleteDirectory)
}

/// No action of `acts` revokes a subscription.
pub open spec fn never_unsubscribes(acts: Seq<RemovalAction>) -> bool {
    forall|k: int| 0 <= k < acts.len() ==> !(#[trigger] acts[k] is Unsubscribe)
}

/// One action is asked for per event taken.
pub proof fn lemma_actions_len(m: Removal, evs: Seq<RemovalEvent>)
    ensures
        actions(m, evs).len() == evs.len(),
    decreases evs.len(),
{
    if evs.len() > 0 {
        lemma_actions_len(next(m, evs[0]).0, evs.drop_first());
    }
}

/// A finished removal takes no further event.
proof fn lemma_finished_takes_nothing(m: Removal, evs: Seq<RemovalEvent>)
    requires
        m.phase == RemovalPhase::Finished,
        accepts_all(m, evs),
    ensures
        evs.len() == 0,
{
}

/// Once deleting, the only event left is the end of the delete.
proof fn lemma_deleting_takes_only_delete(m: Removal, evs: Seq<RemovalEvent>)
    requires
        m.phase == RemovalPhase::Deleting,
        accepts_all(m, evs),
    ensures
        forall|k: int| 0 <= k < evs.len() ==> #[trigger] evs[k] is DeleteCompleted,
{
    if evs.len() > 0 {
        lemma_finished_takes_nothing(next(m, evs[0]).0, evs.drop_first());
    }
}

/// `acts` with one more action in front.
proof fn lemma_prepend_keeps(a: RemovalAction, acts: Seq<RemovalAction>)
    ensures
        never_deletes(seq![a] + acts) <==> !(a is DeleteDirectory) && never_deletes(acts),
        never_unsubscribes(seq![a] + acts) <==> !(a is Unsubscribe) && never_unsubscribes(acts),
{
    let all = seq![a] + acts;
    assert(all[0] == a);
    assert forall|k: int| 0 <= k < acts.len() implies #[trigger] acts[k] == all[k + 1] by {}
    if never_deletes(all) {
        assert forall|k: int| 0 <= k < acts.len() implies !(#[trigger] acts[k] is DeleteDirectory) by {
            assert(!(all[k + 1] is DeleteDirectory));
        }
    }
    if never_unsubscribes(all) {
        assert forall|k: int| 0 <= k < acts.len() implies !(#[trigger] acts[k] is Unsubscribe) by {
            assert(!(all[k + 1] is Unsubscribe));
        }
    }
    if !(a is DeleteDirectory) && never_deletes(acts) {
        assert forall|k: int| 0 <= k < all.len() implies !(#[trigger] all[k] is DeleteDirectory) by {
            if k > 0 {
                assert(all[k] == acts[k - 1]);
            }
        }
    }
    if !(a is Unsubscribe) && never_unsubscribes(acts) {
        assert forall|k: int| 0 <= k < all.len() implies !(#[trigger] all[k] is Unsubscribe) by {
            if k > 0 {
                assert(all[k] == acts[k - 1]);
            }
        }
    }
}

/// A removal asked to revoke the subscription never deletes the content
/// directory once the revoke reported failure: it ends with `UnsubscribeFailed`.
pub proof fn lemma_failed_unsubscribe_never_deletes(m: Removal, evs: Seq<RemovalEvent>)
    requires
        m.unsubscribe,
        m.phase == RemovalPhase::CheckingDirectory || m.phase == RemovalPhase::Unsubscribing,
        accepts_all(m, evs),
        evs.contains(RemovalEvent::UnsubscribeCompleted(false)),
    ensures
        never_deletes(actions(m, evs)),
        actions(m, evs).last() == RemovalAction::Finish(Err(CleanerError::UnsubscribeFailed)),
    decreases evs.len(),
{
    let (m1, a) = next(m, evs[0]);
    let rest = evs.drop_first();
    lemma_prepend_keeps(a, actions(m1, rest));
    lemma_actions_len(m1, rest);
    if m1.phase == RemovalPhase::Finished {
        lemma_finished_takes_nothing(m1, rest);
        assert(evs =~= seq![evs[0]]);
        assert(evs[0] == RemovalEvent::UnsubscribeCompleted(false));
    } else if m1.phase == RemovalPhase::Deleting {
        lemma_deleting_takes_only_delete(m1, rest);
        let k = choose|k: int| 0 <= k < evs.len() && evs[k] == RemovalEvent::UnsubscribeCompleted(false);
        if k > 0 {
            assert(rest[k - 1] == evs[k]);
        }
    } else {
        let k = choose|k: int| 0 <= k < evs.len() && evs[k] == RemovalEvent::UnsubscribeCompleted(false);
        assert(k > 0);
        assert(rest[k - 1] == evs[k]);
        lemma_failed_unsubscribe_never_deletes(m1, rest);
    }
}

/// A removal asked to revoke the subscription deletes the content directory
/// only after the revoke reported success.
pub proof fn lemma_delete_needs_confirmed_unsubscribe(m: Removal, evs: Seq<RemovalEvent>)
    requires
        m.unsubscribe,
        m.phase == RemovalPhase::CheckingDirectory || m.phase == RemovalPhase::Unsubscribing,
        accepts_all(m, evs),
        !never_deletes(actions(m, evs)),
    ensures
        evs.contains(RemovalEvent::UnsubscribeCompleted(true)),
    decreases evs.len(),
{
    let (m1, a) = next(m, evs[0]);
    let rest = evs.drop_first();
    lemma_prepend_keeps(a, actions(m1, rest));
    if m1.phase == RemovalPhase::Finished {
        lemma_finished_takes_nothing(m1, rest);
        assert(actions(m1, rest).len() == 0);
    } else if m1.phase == RemovalPhase::Deleting {
        assert(evs[0] == RemovalEvent::UnsubscribeCompleted(true));
    } else {
        lemma_delete_needs_confirmed_unsubscribe(m1, rest);
        let k = choose|k: int| 0 <= k < rest.len() && rest[k] == RemovalEvent::UnsubscribeCompleted(true);
        assert(evs[k + 1] == rest[k]);
    }
}

/// A removal not asked to revoke the subscription never asks for the revoke.
pub proof fn lemma_no_unsubscribe_unless_asked(m: Removal, evs: Seq<RemovalEvent>)
    requires
        !m.unsubscribe,
        m.phase != RemovalPhase::Unsubscribing,
        accepts_all(m, evs),
    ensures
        never_unsubscribes(actions(m, evs)),
    decreases evs.len(),
{
    if evs.len() > 0 {
        let (m1, a) = next(m, evs[0]);
        lemma_prepend_keeps(a, actions(m1, evs.drop_first()));
        lemma_no_unsubscribe_unless_asked(m1, evs.drop_first());
    }
}

/// A removal whose content directory is missing ends at once with
/// `NotFound`: it neither revokes the subscription nor deletes anything.
pub proof fn lemma_missing_directory_is_not_found(m: Removal, evs: Seq<RemovalEvent>)
    requires
        m.phase == RemovalPhase::CheckingDirectory,
        accepts_all(m, evs),
        evs.len() > 0,
        evs[0] == RemovalEvent::DirectoryChecked(false),
    ensures
        actions(m, evs) == seq![RemovalAction::Finish(Err(CleanerError::NotFound))],
        never_deletes(actions(m, evs)),
        never_unsubscribes(actions(m, evs)),
{
    let (m1, a) = next(m, evs[0]);
    lemma_finished_takes_nothing(m1, evs.drop_first());
    assert(actions(m1, evs.drop_first()) =~= Seq::empty());
    assert(actions(m, evs) =~= seq![a]);
}

impl Removal {
    /// Starts removing content `id` from the installation root `root`,
    /// revoking its subscription first when `unsubscribe` is set. The first
    /// action is always to check that the content directory exists.
    pub fn start(root: &str, id: ContentId, unsubscribe: bool) -> (r: (Removal, RemovalAction))
        ensures
            is_started(r.0, root@, id, unsubscribe),
            r.1 == RemovalAction::CheckDirectory(r.0.item_dir),
    {
        let name = id.to_string();
        let item_dir = join(root, name.as_str());
        let action = RemovalAction::CheckDirectory(item_dir.clone());
        (Removal { id, item_dir, unsubscribe, phase: RemovalPhase::CheckingDirectory }, action)
    }

    /// Whether the removal waits for `event` now.
    pub fn expects(&self, event: &RemovalEvent) -> (r: bool)
        ensures
            r == expects(*self, *event),
    {
        match self.phase {
            RemovalPhase::CheckingDirectory => matches!(event, RemovalEvent::DirectoryChecked(_)),
            RemovalPhase::Unsubscribing => matches!(event, RemovalEvent::UnsubscribeCompleted(_)),
            RemovalPhase::Deleting => matches!(event, RemovalEvent::DeleteCompleted(_)),
            RemovalPhase::Finished => false,
        }
    }

    /// Whether the removal is over.
    pub fn is_finished(&self) -> (r: bool)
        ensures
            r == (self.phase == RemovalPhase::Finished),
    {
        self.phase == RemovalPhase::Finished
    }

    /// Takes the report of the outside work last asked for and returns the
    /// next action.
    pub fn step(&mut self, event: RemovalEvent) -> (a: RemovalAction)
        requires
            expects(*old(self), event),
        ensures
            (*final(self), a) == next(*old(self), event),
    {
        match event {
            RemovalEvent::DirectoryChecked(exists) => {
                if !exists {
                    self.phase = RemovalPhase::Finished;
                    RemovalAction::Finish(Err(CleanerError::NotFound))
                } else if self.unsubscribe {
                    self.phase = RemovalPhase::Unsubscribing;
                    RemovalAction::Unsubscribe(self.id)
                } else {
                    self.phase = RemovalPhase::Deleting;
                    RemovalAction::DeleteDirectory(self.item_dir.clone())
                }
            },
            RemovalEvent::UnsubscribeCompleted(ok) => {
                if ok {
                    self.phase = RemovalPhase::Deleting;
                    RemovalAction::DeleteDirectory(self.item_dir.clone())
                } else {
                    self.phase = RemovalPhase::Finished;
                    RemovalAction::Finish(Err(CleanerError::UnsubscribeFailed))
                }
            },
            RemovalEvent::DeleteCompleted(res) => {
                self.phase = RemovalPhase::Finished;
                match res {
                    Ok(()) => RemovalAction::Finish(Ok(())),
                    Err(cause) => RemovalAction::Finish(Err(CleanerError::DeleteFailed(cause))),
                }
            },
        }
    }
}

} // verus!
