//! Retention: which of the backups already present are deleted once a new
//! one has been made, given the configured cap.

use crate::file::dir_entry_priority::{BackupEntry, DirEntryPriority};
use vstd::prelude::*;
use vstd::seq_lib::to_multiset_build;

verus! {

/// The mathematical contents of a list of entries.
pub open spec fn entry_views(entries: Seq<DirEntryPriority>) -> Seq<BackupEntry> {
    Seq::new(entries.len(), |i: int| entries[i]@)
}

/// Whether `entries` runs from the most recent to the oldest.
pub open spec fn is_newest_first(entries: Seq<BackupEntry>) -> bool {
    forall|i: int, j: int|
        0 <= i < j < entries.len() ==> (#[trigger] entries[i]).created
            >= (#[trigger] entries[j]).created
}

/// `sorted` with `entry` put behind every entry that is at least as recent.
pub open spec fn insert_by_recency(sorted: Seq<BackupEntry>, entry: BackupEntry) -> Seq<
    BackupEntry,
>
    decreases sorted.len(),
{
    if sorted.len() == 0 {
        seq![entry]
    } else if sorted.last().created >= entry.created {
        sorted.push(entry)
    } else {
        insert_by_recency(sorted.drop_last(), entry).push(sorted.last())
    }
}

/// `entries` ordered by creation time, most recent first. Entries made at
/// the same instant keep the order in which they were listed.
pub open spec fn newest_first(entries: Seq<BackupEntry>) -> Seq<BackupEntry>
    decreases entries.len(),
{
    if entries.len() == 0 {
        Seq::empty()
    } else {
        insert_by_recency(newest_first(entries.drop_last()), entries.last())
    }
}

/// How many of `count` existing backups stay once the new one is made: all
/// of them without a cap or below it, else one fewer than the cap, the new
/// backup taking the last place.
pub open spec fn retained_count(count: nat, configured_cap: nat) -> nat {
    if configured_cap == 0 || count + 1 < configured_cap {
        count
    } else {
        (configured_cap - 1) as nat
    }
}

/// The backups that stay: the most recent ones.
pub open spec fn survivors(entries: Seq<BackupEntry>, configured_cap: nat) -> Seq<BackupEntry> {
    newest_first(entries).take(retained_count(entries.len(), configured_cap) as int)
}

/// The backups to delete: everything behind the survivors, most recent
/// first.
pub open spec fn evictions(entries: Seq<BackupEntry>, configured_cap: nat) -> Seq<BackupEntry> {
    newest_first(entries).skip(retained_count(entries.len(), configured_cap) as int)
}

/// Inserting by recency adds exactly the new entry and keeps the order.
pub proof fn lemma_insert_by_recency(sorted: Seq<BackupEntry>, entry: BackupEntry)
    requires
        is_newest_first(sorted),
    ensures
        insert_by_recency(sorted, entry).len() == sorted.len() + 1,
        insert_by_recency(sorted, entry).to_multiset() == sorted.to_multiset().insert(entry),
        is_newest_first(insert_by_recency(sorted, entry)),
        forall|k: int|
            0 <= k <= sorted.len() ==> (#[trigger] insert_by_recency(sorted, entry)[k]) == entry
                || exists|m: int|
                0 <= m < sorted.len() && insert_by_recency(sorted, entry)[k] == sorted[m],
    decreases sorted.len(),
{
    let result = insert_by_recency(sorted, entry);
    if sorted.len() == 0 {
        to_multiset_build(sorted, entry);
        assert(result =~= sorted.push(entry));
    } else if sorted.last().created >= entry.created {
        to_multiset_build(sorted, entry);
        assert forall|k: int| 0 <= k <= sorted.len() implies (#[trigger] result[k]) == entry
            || exists|m: int| 0 <= m < sorted.len() && result[k] == sorted[m] by {
            if k < sorted.len() {
                assert(result[k] == sorted[k]);
            }
        }
    } else {
        let front = sorted.drop_last();
        let inner = insert_by_recency(front, entry);
        assert(is_newest_first(front));
        lemma_insert_by_recency(front, entry);
        to_multiset_build(inner, sorted.last());
        to_multiset_build(front, sorted.last());
        assert(front.push(sorted.last()) =~= sorted);
        assert(front.to_multiset().insert(entry).insert(sorted.last())
            =~= front.to_multiset().insert(sorted.last()).insert(entry));
        assert forall|k: int| 0 <= k <= sorted.len() implies (#[trigger] result[k]) == entry
            || exists|m: int| 0 <= m < sorted.len() && result[k] == sorted[m] by {
            if k < inner.len() {
                assert(result[k] == inner[k]);
                if inner[k] != entry {
                    let m = choose|m: int| 0 <= m < front.len() && inner[k] == front[m];
                    assert(sorted[m] == front[m]);
                }
            } else {
                assert(result[k] == sorted[sorted.len() - 1]);
            }
        }
        assert forall|i: int, j: int| 0 <= i < j < result.len() implies (#[trigger] result[i]).created
            >= (#[trigger] result[j]).created by {
            if j < inner.len() {
                assert(result[i] == inner[i] && result[j] == inner[j]);
            } else {
                assert(result[j] == sorted.last());
                assert(result[i] == inner[i]);
                if inner[i] != entry {
                    let m = choose|m: int| 0 <= m < front.len() && inner[i] == front[m];
                    assert(sorted[m] == front[m]);
                    assert(sorted[m].created >= sorted[sorted.len() - 1].created);
                }
            }
        }
    }
}

/// Ordering by recency rearranges the entries and loses or invents none.
pub proof fn lemma_newest_first_is_sorted_permutation(entries: Seq<BackupEntry>)
    ensures
        newest_first(entries).len() == entries.len(),
        newest_first(entries).to_multiset() == entries.to_multiset(),
        is_newest_first(newest_first(entries)),
    decreases entries.len(),
{
    if entries.len() == 0 {
        assert(newest_first(entries) =~= entries);
    } else {
        let front = entries.drop_last();
        lemma_newest_first_is_sorted_permutation(front);
        lemma_insert_by_recency(newest_first(front), entries.last());
        to_multiset_build(front, entries.last());
        assert(front.push(entries.last()) =~= entries);
    }
}

/// Survivors and evictions split the listing between them; the survivors
/// and the new backup together number exactly the cap once it is reached,
/// and no evicted backup is more recent than a surviving one.
pub proof fn lemma_retention_decision(entries: Seq<BackupEntry>, configured_cap: nat)
    ensures
        survivors(entries, configured_cap) + evictions(entries, configured_cap) == newest_first(
            entries,
        ),
        (survivors(entries, configured_cap) + evictions(entries, configured_cap)).to_multiset()
            == entries.to_multiset(),
        survivors(entries, configured_cap).len() + evictions(entries, configured_cap).len()
            == entries.len(),
        configured_cap > 0 && entries.len() + 1 >= configured_cap ==> survivors(
            entries,
            configured_cap,
        ).len() + 1 == configured_cap,
        configured_cap > 0 && entries.len() + 1 < configured_cap ==> evictions(
            entries,
            configured_cap,
        ).len() == 0,
        is_newest_first(evictions(entries, configured_cap)),
        forall|i: int, j: int|
            0 <= i < survivors(entries, configured_cap).len() && 0 <= j < evictions(
                entries,
                configured_cap,
            ).len() ==> (#[trigger] survivors(entries, configured_cap)[i]).created
                >= (#[trigger] evictions(entries, configured_cap)[j]).created,
{
    lemma_newest_first_is_sorted_permutation(entries);
    let sorted = newest_first(entries);
    let kept = retained_count(entries.len(), configured_cap) as int;
    assert(sorted.take(kept) + sorted.skip(kept) =~= sorted);
    assert forall|i: int, j: int|
        0 <= i < survivors(entries, configured_cap).len() && 0 <= j < evictions(
            entries,
            configured_cap,
        ).len() implies (#[trigger] survivors(entries, configured_cap)[i]).created
        >= (#[trigger] evictions(entries, configured_cap)[j]).created by {
        assert(survivors(entries, configured_cap)[i] == sorted[i]);
        assert(evictions(entries, configured_cap)[j] == sorted[kept + j]);
    }
    assert forall|i: int, j: int|
        0 <= i < j < evictions(entries, configured_cap).len() implies (#[trigger] evictions(
        entries,
        configured_cap,
    )[i]).created >= (#[trigger] evictions(entries, configured_cap)[j]).created by {
        assert(evictions(entries, configured_cap)[i] == sorted[kept + i]);
        assert(evictions(entries, configured_cap)[j] == sorted[kept + j]);
    }
}

/// Whether `entries` runs from the oldest to the most recent with no two
/// made at the same instant.
pub open spec fn is_strictly_oldest_first(entries: Seq<BackupEntry>) -> bool {
    forall|i: int, j: int|
        0 <= i < j < entries.len() ==> (#[trigger] entries[i]).created
            < (#[trigger] entries[j]).created
}

/// An entry more recent than all of a list goes to its head.
proof fn lemma_insert_most_recent(sorted: Seq<BackupEntry>, entry: BackupEntry)
    requires
        forall|i: int| 0 <= i < sorted.len() ==> (#[trigger] sorted[i]).created < entry.created,
    ensures
        insert_by_recency(sorted, entry) == seq![entry] + sorted,
    decreases sorted.len(),
{
    if sorted.len() == 0 {
        assert(seq![entry] + sorted =~= seq![entry]);
    } else {
        assert(sorted[sorted.len() - 1].created < entry.created);
        lemma_insert_most_recent(sorted.drop_last(), entry);
        assert((seq![entry] + sorted.drop_last()).push(sorted.last()) =~= seq![entry] + sorted);
    }
}

/// A listing that runs from the oldest to the most recent is simply turned
/// around.
pub proof fn lemma_newest_first_of_oldest_first(entries: Seq<BackupEntry>)
    requires
        is_strictly_oldest_first(entries),
    ensures
        newest_first(entries) == entries.reverse(),
    decreases entries.len(),
{
    if entries.len() == 0 {
        assert(entries.reverse() =~= Seq::empty());
    } else {
        let front = entries.drop_last();
        assert(is_strictly_oldest_first(front));
        lemma_newest_first_of_oldest_first(front);
        assert forall|i: int| 0 <= i < front.reverse().len() implies (#[trigger] front.reverse()[i]).created
            < entries.last().created by {
            assert(front.reverse()[i] == entries[front.len() - 1 - i]);
        }
        lemma_insert_most_recent(front.reverse(), entries.last());
        assert(seq![entries.last()] + front.reverse() =~= entries.reverse());
    }
}

/// Of backups listed from the oldest to the most recent, exactly the
/// oldest are evicted: all but the last `configured_cap - 1`, which stay
/// to make up the cap together with the new backup.
pub proof fn lemma_oldest_are_evicted(entries: Seq<BackupEntry>, configured_cap: nat)
    requires
        is_strictly_oldest_first(entries),
        configured_cap > 0,
        entries.len() + 1 >= configured_cap,
    ensures
        evictions(entries, configured_cap) == entries.take(
            entries.len() - (configured_cap - 1),
        ).reverse(),
        survivors(entries, configured_cap) == entries.skip(
            entries.len() - (configured_cap - 1),
        ).reverse(),
{
    lemma_newest_first_of_oldest_first(entries);
    let kept = configured_cap - 1;
    assert(entries.reverse().skip(kept) =~= entries.take(entries.len() - kept).reverse());
    assert(entries.reverse().take(kept) =~= entries.skip(entries.len() - kept).reverse());
}

/// Whenever any existing backup stays, the most recent one does: the
/// backup that the new one links against is never among the evicted while
/// something older survives.
pub proof fn lemma_link_reference_survives(entries: Seq<BackupEntry>, configured_cap: nat)
    requires
        entries.len() > 0,
        configured_cap != 1,
    ensures
        survivors(entries, configured_cap).len() > 0,
        survivors(entries, configured_cap)[0] == newest_first(entries)[0],
{
    lemma_newest_first_is_sorted_permutation(entries);
}

/// Without a cap nothing is ever evicted, however many backups exist.
pub proof fn lemma_unlimited_retention_evicts_nothing(entries: Seq<BackupEntry>)
    ensures
        evictions(entries, 0) == Seq::<BackupEntry>::empty(),
{
    lemma_newest_first_is_sorted_permutation(entries);
    assert(evictions(entries, 0) =~= Seq::<BackupEntry>::empty());
}

/// Whether the entry at `index` is the most recent one, the first such in
/// the listing if several were made at the same instant.
pub open spec fn is_latest(entries: Seq<BackupEntry>, index: int) -> bool {
    &&& 0 <= index < entries.len()
    &&& forall|j: int| 0 <= j < entries.len() ==> (#[trigger] entries[j]).created <= entries[index].created
    &&& forall|j: int| 0 <= j < index ==> (#[trigger] entries[j]).created < entries[index].created
}

/// The head of a list after an insertion by recency.
proof fn lemma_insert_by_recency_head(sorted: Seq<BackupEntry>, entry: BackupEntry)
    requires
        is_newest_first(sorted),
    ensures
        insert_by_recency(sorted, entry)[0] == if sorted.len() == 0 || sorted[0].created
            < entry.created {
            entry
        } else {
            sorted[0]
        },
    decreases sorted.len(),
{
    if sorted.len() > 0 && sorted.last().created < entry.created {
        let front = sorted.drop_last();
        assert(is_newest_first(front));
        lemma_insert_by_recency_head(front, entry);
        lemma_insert_by_recency(front, entry);
        if front.len() > 0 {
            assert(front[0] == sorted[0]);
        }
    }
}

/// The most recent backup is the one that heads the listing by recency: it
/// is the last to be evicted and the reference for the next incremental
/// backup.
pub proof fn lemma_latest_heads_newest_first(entries: Seq<BackupEntry>, index: int)
    requires
        is_latest(entries, index),
    ensures
        newest_first(entries)[0] == entries[index],
    decreases entries.len(),
{
    let front = entries.drop_last();
    let sorted_front = newest_first(front);
    lemma_newest_first_is_sorted_permutation(front);
    lemma_insert_by_recency_head(sorted_front, entries.last());
    if front.len() > 0 {
        sorted_front.to_multiset_ensures();
        front.to_multiset_ensures();
        assert(sorted_front.contains(sorted_front[0]));
        assert(sorted_front.to_multiset().count(sorted_front[0]) > 0);
        assert(front.to_multiset().count(sorted_front[0]) > 0);
        assert(front.contains(sorted_front[0]));
        let m = choose|m: int| 0 <= m < front.len() && front[m] == sorted_front[0];
        assert(entries[m] == front[m]);
        if index < entries.len() - 1 {
            assert forall|j: int| 0 <= j < front.len() implies (#[trigger] front[j]).created
                <= front[index].created by {
                assert(front[j] == entries[j]);
            }
            assert forall|j: int| 0 <= j < index implies (#[trigger] front[j]).created
                < front[index].created by {
                assert(front[j] == entries[j]);
            }
            lemma_latest_heads_newest_first(front, index);
            assert(entries[entries.len() - 1].created <= entries[index].created);
        }
    }
}

/// The entries ordered by creation time, most recent first.
pub fn newest_first_order(existing: &Vec<DirEntryPriority>) -> (sorted: Vec<DirEntryPriority>)
    ensures
        entry_views(sorted@) == newest_first(entry_views(existing@)),
{
    let ghost all = entry_views(existing@);
    let mut sorted: Vec<DirEntryPriority> = Vec::new();
    let mut i: usize = 0;
    assert(all.take(0) =~= Seq::empty());
    assert(entry_views(sorted@) =~= Seq::empty());
    while i < existing.len()
        invariant
            i <= existing.len(),
            all == entry_views(existing@),
            entry_views(sorted@) == newest_first(all.take(i as int)),
        decreases existing.len() - i,
    {
        let entry = &existing[i];
        let ghost before = entry_views(sorted@);
        proof {
            lemma_newest_first_is_sorted_permutation(all.take(i as int));
        }
        let mut position: usize = sorted.len();
        assert(before.take(position as int) =~= before);
        assert(insert_by_recency(before, entry@) =~= insert_by_recency(before, entry@)
            + before.skip(position as int));
        while position > 0 && sorted[position - 1].created < entry.created
            invariant
                position <= sorted.len(),
                before == entry_views(sorted@),
                insert_by_recency(before, entry@) == insert_by_recency(
                    before.take(position as int),
                    entry@,
                ) + before.skip(position as int),
            decreases position,
        {
            proof {
                let prefix = before.take(position as int);
                assert(prefix.last() == sorted[position - 1]@);
                assert(prefix.drop_last() =~= before.take(position - 1));
                assert(insert_by_recency(prefix.drop_last(), entry@).push(prefix.last())
                    + before.skip(position as int) =~= insert_by_recency(
                    prefix.drop_last(),
                    entry@,
                ) + before.skip(position - 1));
            }
            position -= 1;
        }
        proof {
            let prefix = before.take(position as int);
            if position > 0 {
                assert(prefix.last() == sorted[position - 1]@);
            }
            assert(insert_by_recency(prefix, entry@) =~= prefix.push(entry@));
        }
        sorted.insert(position, entry.duplicate());
        proof {
            assert(entry_views(sorted@) =~= before.take(position as int).push(entry@) + before.skip(
                position as int,
            ));
            assert(all.take(i + 1).drop_last() =~= all.take(i as int));
            assert(all.take(i + 1).last() == entry@);
        }
        i += 1;
    }
    assert(all.take(i as int) =~= all);
    sorted
}

/// The most recent of the existing backups, if there is any: the one a new
/// incremental backup links against.
pub fn latest_backup(existing: &Vec<DirEntryPriority>) -> (latest: Option<&DirEntryPriority>)
    ensures
        existing.len() == 0 <==> latest is None,
        latest matches Some(entry) ==> exists|index: int|
            #![trigger existing[index]]
            is_latest(entry_views(existing@), index) && *entry == existing[index],
        latest matches Some(entry) ==> entry@ == newest_first(entry_views(existing@))[0],
{
    if existing.len() == 0 {
        return None;
    }
    let ghost all = entry_views(existing@);
    let mut best: usize = 0;
    let mut i: usize = 1;
    while i < existing.len()
        invariant
            1 <= i <= existing.len(),
            best < i,
            all == entry_views(existing@),
            is_latest(all.take(i as int), best as int),
        decreases existing.len() - i,
    {
        let ghost previous = best;
        if existing[i].created > existing[best].created {
            best = i;
        }
        proof {
            let shorter = all.take(i as int);
            let longer = all.take(i + 1);
            assert forall|j: int| 0 <= j < longer.len() implies (#[trigger] longer[j]).created
                <= longer[best as int].created by {
                if j < i {
                    assert(longer[j] == shorter[j]);
                    assert(shorter[j].created <= shorter[previous as int].created);
                }
            }
            assert forall|j: int| 0 <= j < best implies (#[trigger] longer[j]).created
                < longer[best as int].created by {
                assert(longer[j] == shorter[j]);
                assert(shorter[j].created <= shorter[previous as int].created);
            }
        }
        i += 1;
    }
    proof {
        assert(all.take(i as int) =~= all);
        lemma_latest_heads_newest_first(all, best as int);
    }
    Some(&existing[best])
}

/// Decides which of the existing backups are deleted now that a new one has
/// been made. `configured_cap` counts the new backup too; zero lifts the
/// cap. The most recent backups stay and everything behind them goes, most
/// recent first. Nothing is deleted here: each eviction is for the caller
/// to carry out.
pub fn decide_evictions(existing: &Vec<DirEntryPriority>, configured_cap: u64) -> (evicted: Vec<
    DirEntryPriority,
>)
    ensures
        entry_views(evicted@) == evictions(entry_views(existing@), configured_cap as nat),
        configured_cap == 0 ==> evicted.len() == 0,
        evicted.len() == existing.len() - retained_count(
            existing.len() as nat,
            configured_cap as nat,
        ),
{
    let ghost all = entry_views(existing@);
    proof {
        lemma_newest_first_is_sorted_permutation(all);
    }
    let count: usize = existing.len();
    if configured_cap == 0 || (count as u64) < configured_cap - 1 {
        assert(retained_count(all.len(), configured_cap as nat) == all.len());
        let evicted: Vec<DirEntryPriority> = Vec::new();
        assert(entry_views(evicted@) =~= evictions(all, configured_cap as nat));
        return evicted;
    }
    let keep: usize = (configured_cap - 1) as usize;
    let mut evicted = newest_first_order(existing);
    let ghost sorted = entry_views(evicted@);
    let mut removed: usize = 0;
    while removed < keep
        invariant
            removed <= keep <= count,
            sorted.len() == count,
            evicted.len() == count - removed,
            entry_views(evicted@) == sorted.skip(removed as int),
        decreases keep - removed,
    {
        let ghost before = evicted@;
        let _ = evicted.remove(0);
        removed += 1;
        assert forall|k: int| 0 <= k < evicted.len() implies entry_views(evicted@)[k]
            == sorted.skip(removed as int)[k] by {
            assert(evicted@[k] == before[k + 1]);
            assert(entry_views(before)[k + 1] == sorted.skip(removed - 1)[k + 1]);
        }
        assert(entry_views(evicted@) =~= sorted.skip(removed as int));
    }
    evicted
}

} // verus!
