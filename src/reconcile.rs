//! Which content is installed, and which of it is orphaned: installed but no
//! longer subscribed.
use vstd::prelude::*;

use crate::content_id::{parse_content_id, ContentId};

verus! {

/// One child of the installation root, as the file system listed it.
pub struct ListedEntry {
    /// The child's leaf name.
    pub name: String,
    /// Whether the child is a directory.
    pub is_dir: bool,
}

/// The listing has a directory whose leaf name reads as `id`.
pub open spec fn lists_content(entries: Seq<ListedEntry>, id: ContentId) -> bool {
    exists|i: int|
        0 <= i < entries.len() && #[trigger] entries[i].is_dir && parse_content_id(entries[i].name@)
            == Some(id)
}

/// The identifiers of the content directories in a listing.
pub open spec fn installed_set(entries: Seq<ListedEntry>) -> Set<ContentId> {
    Set::new(|id: ContentId| lists_content(entries, id))
}

/// Content that is installed and not subscribed.
pub open spec fn orphaned_set(installed: Set<ContentId>, subscribed: Set<ContentId>) -> Set<
    ContentId,
> {
    installed.difference(subscribed)
}

/// Whether `v` holds `id`.
pub fn contains_id(v: &Vec<ContentId>, id: ContentId) -> (r: bool)
    ensures
        r == v@.contains(id),
{
    let mut i: usize = 0;
    while i < v.len()
        invariant
            0 <= i <= v.len(),
            forall|j: int| 0 <= j < i ==> v@[j] != id,
        decreases v.len() - i,
    {
        if v[i].0 == id.0 {
            assert(v@[i as int] == id);
            return true;
        }
        i = i + 1;
    }
    false
}

/// The content identifiers of a listing of the installation root: each child
/// that is a directory and whose leaf name reads as an identifier, once. Other
/// children are skipped without error.
pub fn list_content_directories(entries: &Vec<ListedEntry>) -> (r: Vec<ContentId>)
    ensures
        r@.to_set() == installed_set(entries@),
        r@.no_duplicates(),
{
    let mut r: Vec<ContentId> = Vec::new();
    let mut i: usize = 0;
    while i < entries.len()
        invariant
            0 <= i <= entries.len(),
            r@.no_duplicates(),
            forall|id: ContentId|
                r@.contains(id) <==> lists_content(entries@.take(i as int), id),
        decreases entries.len() - i,
    {
        let ghost before = entries@.take(i as int);
        let ghost after = entries@.take(i + 1);
        assert(after.drop_last() =~= before);
        let ghost old_r = r@;
        let entry = &entries[i];
        let parsed = ContentId::parse(entry.name.as_str());
        if entry.is_dir {
            if let Some(id) = parsed {
                if !contains_id(&r, id) {
                    r.push(id);
                }
            }
        }
        assert forall|id: ContentId| r@.contains(id) <==> lists_content(after, id) by {
            assert(r@.contains(id) <==> old_r.contains(id) || (entry.is_dir && parsed == Some(
                id,
            ))) by {
                if r@ != old_r {
                    assert(r@ == old_r.push(parsed->0));
                    if r@.contains(id) && id != parsed->0 {
                        let k = choose|k: int| 0 <= k < r@.len() && r@[k] == id;
                        assert(old_r[k] == id);
                    }
                    if old_r.contains(id) {
                        let k = choose|k: int| 0 <= k < old_r.len() && old_r[k] == id;
                        assert(r@[k] == id);
                    }
                    assert(r@[old_r.len() as int] == parsed->0);
                }
            }
            if lists_content(after, id) {
                let k = choose|k: int|
                    0 <= k < after.len() && #[trigger] after[k].is_dir && parse_content_id(
                        after[k].name@,
                    ) == Some(id);
                if k < i {
                    assert(before[k] == after[k]);
                }
            }
            if lists_content(before, id) {
                let k = choose|k: int|
                    0 <= k < before.len() && #[trigger] before[k].is_dir && parse_content_id(
                        before[k].name@,
                    ) == Some(id);
                assert(after[k] == before[k]);
            }
            if entry.is_dir && parsed == Some(id) {
                assert(after[i as int] == *entry);
            }
        }
        i = i + 1;
    }
    assert(entries@.take(entries.len() as int) =~= entries@);
    assert(r@.to_set() =~= installed_set(entries@));
    r
}

/// The installed identifiers that are not subscribed, in the order they were
/// installed.
pub fn orphaned(installed: &Vec<ContentId>, subscribed: &Vec<ContentId>) -> (r: Vec<ContentId>)
    ensures
        r@ == installed@.filter(|x: ContentId| !subscribed@.contains(x)),
        r@.to_set() == orphaned_set(installed@.to_set(), subscribed@.to_set()),
        installed@.no_duplicates() ==> r@.no_duplicates(),
{
    let ghost keep = |x: ContentId| !subscribed@.contains(x);
    let mut r: Vec<ContentId> = Vec::new();
    let mut i: usize = 0;
    while i < installed.len()
        invariant
            0 <= i <= installed.len(),
            keep == (|x: ContentId| !subscribed@.contains(x)),
            r@ == installed@.take(i as int).filter(keep),
            forall|x: ContentId|
                r@.contains(x) <==> installed@.take(i as int).contains(x) && keep(x),
            installed@.no_duplicates() ==> r@.no_duplicates(),
        decreases installed.len() - i,
    {
        let ghost before = installed@.take(i as int);
        let ghost after = installed@.take(i + 1);
        assert(after.drop_last() =~= before);
        let ghost old_r = r@;
        let x = installed[i];
        assert(after.last() == x);
        proof {
            reveal(Seq::filter);
        }
        if !contains_id(subscribed, x) {
            proof {
                if installed@.no_duplicates() {
                    assert(!before.contains(x)) by {
                        if before.contains(x) {
                            let k = choose|k: int| 0 <= k < before.len() && before[k] == x;
                            assert(installed@[k] == installed@[i as int]);
                        }
                    }
                    assert(!old_r.contains(x));
                }
            }
            r.push(x);
            proof {
                if installed@.no_duplicates() {
                    assert forall|a: int, b: int|
                        0 <= a < r@.len() && 0 <= b < r@.len() && a != b implies r@[a]
                        != r@[b] by {
                        if a < old_r.len() && b < old_r.len() {
                            assert(old_r[a] != old_r[b]);
                        } else if a < old_r.len() {
                            assert(old_r.contains(r@[a]));
                        } else if b < old_r.len() {
                            assert(old_r.contains(r@[b]));
                        }
                    }
                }
            }
        }
        assert forall|y: ContentId| r@.contains(y) <==> after.contains(y) && keep(y) by {
            assert(r@.contains(y) <==> old_r.contains(y) || (y == x && keep(x))) by {
                if r@ != old_r {
                    if r@.contains(y) && y != x {
                        let k = choose|k: int| 0 <= k < r@.len() && r@[k] == y;
                        assert(old_r[k] == y);
                    }
                    if old_r.contains(y) {
                        let k = choose|k: int| 0 <= k < old_r.len() && old_r[k] == y;
                        assert(r@[k] == y);
                    }
                    assert(r@[old_r.len() as int] == x);
                }
            }
            if after.contains(y) {
                let k = choose|k: int| 0 <= k < after.len() && after[k] == y;
                if k < i {
                    assert(before[k] == y);
                }
            }
            if before.contains(y) {
                let k = choose|k: int| 0 <= k < before.len() && before[k] == y;
                assert(after[k] == y);
            }
        }
        i = i + 1;
    }
    assert(installed@.take(installed.len() as int) =~= installed@);
    assert(r@.to_set() =~= orphaned_set(installed@.to_set(), subscribed@.to_set()));
    r
}

/// The orphaned content of a listing of the installation root, given the
/// current subscriptions: each identifier once.
pub fn orphaned_items(entries: &Vec<ListedEntry>, subscribed: &Vec<ContentId>) -> (r: Vec<
    ContentId,
>)
    ensures
        r@.to_set() == orphaned_set(installed_set(entries@), subscribed@.to_set()),
        r@.no_duplicates(),
{
    let installed = list_content_directories(entries);
    orphaned(&installed, subscribed)
}

/// Partition law: the orphaned set shares nothing with the subscribed set,
/// and together with the installed content that is subscribed it makes up
/// exactly the installed set.
pub proof fn lemma_orphaned_partition(installed: Set<ContentId>, subscribed: Set<ContentId>)
    ensures
        orphaned_set(installed, subscribed).disjoint(subscribed),
        installed == orphaned_set(installed, subscribed).union(installed.intersect(subscribed)),
{
    assert(installed =~= orphaned_set(installed, subscribed).union(installed.intersect(subscribed)));
}

} // verus!
