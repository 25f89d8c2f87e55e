//! The activity log: one append-only journal per user, merged on reading.
//!
//! Writers only ever append to their own journal, so there is no global
//! order of entries. A reader gathers the entries of every journal, keeps
//! those from a given time on, and orders them by time; entries of the same
//! second stay in the order in which they were gathered.

use vstd::prelude::*;
use vstd::seq_lib::*;

verus! {

/// One journal entry. Entries are never changed once written.
#[derive(Debug, Clone)]
pub struct ActionLog {
    pub timestamp: u64,
    pub user: String,
    pub machine: String,
    pub action: String,
    pub target_path: String,
    pub data: String,
}

pub struct ActionLogView {
    pub timestamp: u64,
    pub user: Seq<char>,
    pub machine: Seq<char>,
    pub action: Seq<char>,
    pub target_path: Seq<char>,
    pub data: Seq<char>,
}

impl View for ActionLog {
    type V = ActionLogView;

    open spec fn view(&self) -> ActionLogView {
        ActionLogView {
            timestamp: self.timestamp,
            user: self.user@,
            machine: self.machine@,
            action: self.action@,
            target_path: self.target_path@,
            data: self.data@,
        }
    }
}

/// The views of a list of entries.
pub open spec fn actions_view(list: Seq<ActionLog>) -> Seq<ActionLogView> {
    list.map_values(|a: ActionLog| a@)
}

impl ActionLog {
    /// A copy of the entry.
    pub fn duplicate(&self) -> (r: ActionLog)
        ensures
            r@ == self@,
    {
        ActionLog {
            timestamp: self.timestamp,
            user: self.user.clone(),
            machine: self.machine.clone(),
            action: self.action.clone(),
            target_path: self.target_path.clone(),
            data: self.data.clone(),
        }
    }
}

/// The entry that records `action` by `user` on `machine` at `now`. The
/// caller appends it, as one line, to the journal of `user`.
pub fn append_action(user: &str, machine: &str, action: &str, target: &str, data: &str, now: u64) -> (r:
    ActionLog)
    ensures
        r@ == (ActionLogView {
            timestamp: now,
            user: user@,
            machine: machine@,
            action: action@,
            target_path: target@,
            data: data@,
        }),
{
    ActionLog {
        timestamp: now,
        user: String::from_str(user),
        machine: String::from_str(machine),
        action: String::from_str(action),
        target_path: String::from_str(target),
        data: String::from_str(data),
    }
}

/// The entries from `since` on, in the order given.
pub open spec fn kept_since(entries: Seq<ActionLogView>, since: u64) -> Seq<ActionLogView>
    decreases entries.len(),
{
    if entries.len() == 0 {
        Seq::empty()
    } else {
        let before = kept_since(entries.drop_last(), since);
        if entries.last().timestamp >= since {
            before.push(entries.last())
        } else {
            before
        }
    }
}

/// Where an entry of time `t` goes into a list ordered by time: behind
/// every entry that is not later than it.
pub open spec fn insert_position(sorted: Seq<ActionLogView>, t: u64) -> int
    decreases sorted.len(),
{
    if sorted.len() == 0 {
        0
    } else if sorted[0].timestamp > t {
        0
    } else {
        1 + insert_position(sorted.drop_first(), t)
    }
}

/// The entries ordered by time, entries of equal time in the order given.
pub open spec fn sorted_by_time(entries: Seq<ActionLogView>) -> Seq<ActionLogView>
    decreases entries.len(),
{
    if entries.len() == 0 {
        Seq::empty()
    } else {
        let before = sorted_by_time(entries.drop_last());
        before.insert(insert_position(before, entries.last().timestamp), entries.last())
    }
}

/// What a reader gets: the entries from `since` on, ordered by time.
pub open spec fn actions_since(entries: Seq<ActionLogView>, since: u64) -> Seq<ActionLogView> {
    sorted_by_time(kept_since(entries, since))
}

/// Whether a list is in ascending order of time.
pub open spec fn ascending(s: Seq<ActionLogView>) -> bool {
    forall|i: int, j: int|
        0 <= i <= j < s.len() ==> (#[trigger] s[i]).timestamp <= (#[trigger] s[j]).timestamp
}

proof fn lemma_insert_position_is(sorted: Seq<ActionLogView>, t: u64, k: int)
    requires
        0 <= k <= sorted.len(),
        forall|j: int| 0 <= j < k ==> (#[trigger] sorted[j]).timestamp <= t,
        k < sorted.len() ==> sorted[k].timestamp > t,
    ensures
        insert_position(sorted, t) == k,
    decreases sorted.len(),
{
    if sorted.len() > 0 && k > 0 {
        let rest = sorted.drop_first();
        assert(sorted[0].timestamp <= t);
        assert forall|j: int| 0 <= j < k - 1 implies (#[trigger] rest[j]).timestamp <= t by {
            assert(rest[j] == sorted[j + 1]);
        }
        lemma_insert_position_is(rest, t, k - 1);
    }
}

proof fn lemma_insert_position_bounds(sorted: Seq<ActionLogView>, t: u64)
    ensures
        0 <= insert_position(sorted, t) <= sorted.len(),
        forall|j: int| 0 <= j < insert_position(sorted, t) ==> (#[trigger] sorted[j]).timestamp <= t,
        insert_position(sorted, t) < sorted.len() ==> sorted[insert_position(sorted, t)].timestamp
            > t,
    decreases sorted.len(),
{
    if sorted.len() > 0 && sorted[0].timestamp <= t {
        let rest = sorted.drop_first();
        lemma_insert_position_bounds(rest, t);
        assert forall|j: int| 0 <= j < insert_position(sorted, t) implies (
        #[trigger] sorted[j]).timestamp <= t by {
            if j > 0 {
                assert(sorted[j] == rest[j - 1]);
            }
        }
        if insert_position(sorted, t) < sorted.len() {
            assert(sorted[insert_position(sorted, t)] == rest[insert_position(rest, t)]);
        }
    }
}

/// Gathers the entries from `since` on out of `entries` and orders them by
/// time. An entry earlier than `since` is left out; nothing else is, and
/// nothing is added.
pub fn read_actions_since(entries: &Vec<ActionLog>, since: u64) -> (r: Vec<ActionLog>)
    ensures
        actions_view(r@) == actions_since(actions_view(entries@), since),
{
    let mut out: Vec<ActionLog> = Vec::new();
    let mut i: usize = 0;
    while i < entries.len()
        invariant
            i <= entries@.len(),
            actions_view(out@) == actions_since(actions_view(entries@).take(i as int), since),
        decreases entries@.len() - i,
    {
        let ghost all = actions_view(entries@);
        proof {
            assert(all.take(i + 1).drop_last() =~= all.take(i as int));
            assert(all.take(i + 1).last() == entries@[i as int]@);
        }
        let e = &entries[i];
        if e.timestamp >= since {
            let ghost kept = kept_since(all.take(i as int), since);
            proof {
                assert(kept.push(e@).drop_last() =~= kept);
            }
            let mut k: usize = 0;
            while k < out.len() && out[k].timestamp <= e.timestamp
                invariant
                    k <= out@.len(),
                    forall|j: int|
                        0 <= j < k ==> (#[trigger] actions_view(out@)[j]).timestamp <= e.timestamp,
                decreases out@.len() - k,
            {
                k += 1;
            }
            proof {
                if k < out@.len() {
                    assert(actions_view(out@)[k as int] == out@[k as int]@);
                }
                lemma_insert_position_is(actions_view(out@), e.timestamp, k as int);
            }
            let copy = e.duplicate();
            let ghost before = actions_view(out@);
            out.insert(k, copy);
            assert(actions_view(out@) =~= before.insert(k as int, e@));
        }
        i += 1;
    }
    assert(actions_view(entries@).take(entries@.len() as int) =~= actions_view(entries@));
    out
}

/// The merged log is in ascending order of time.
pub proof fn law_merged_log_ascends(entries: Seq<ActionLogView>)
    ensures
        ascending(sorted_by_time(entries)),
    decreases entries.len(),
{
    if entries.len() > 0 {
        let before = sorted_by_time(entries.drop_last());
        let e = entries.last();
        law_merged_log_ascends(entries.drop_last());
        lemma_insert_position_bounds(before, e.timestamp);
        let p = insert_position(before, e.timestamp);
        let after = before.insert(p, e);
        assert forall|i: int, j: int| 0 <= i <= j < after.len() implies (
        #[trigger] after[i]).timestamp <= (#[trigger] after[j]).timestamp by {
            if i < p && j > p {
                assert(after[i] == before[i]);
                assert(after[j] == before[j - 1]);
                assert(before[i].timestamp <= before[j - 1].timestamp);
            } else if i < p && j < p {
                assert(after[i] == before[i]);
                assert(after[j] == before[j]);
            } else if i < p && j == p {
                assert(after[i] == before[i]);
            } else if i == p && j > p {
                assert(after[j] == before[j - 1]);
                assert(before[p].timestamp <= before[j - 1].timestamp);
            } else if i > p {
                assert(after[i] == before[i - 1]);
                assert(after[j] == before[j - 1]);
                assert(before[i - 1].timestamp <= before[j - 1].timestamp);
            }
        }
    }
}

/// Ordering loses nothing and invents nothing: the merged log holds every
/// entry exactly as often as it was gathered.
pub proof fn law_merged_log_permutes(entries: Seq<ActionLogView>)
    ensures
        sorted_by_time(entries).to_multiset() == entries.to_multiset(),
    decreases entries.len(),
{
    broadcast use vstd::multiset::group_multiset_axioms;

    if entries.len() == 0 {
        assert(sorted_by_time(entries) =~= entries);
    } else {
        let earlier = entries.drop_last();
        let before = sorted_by_time(earlier);
        let e = entries.last();
        law_merged_log_permutes(earlier);
        lemma_insert_position_bounds(before, e.timestamp);
        let p = insert_position(before, e.timestamp);
        let after = before.insert(p, e);
        assert(after.remove(p) =~= before);
        assert(after[p] == e);
        to_multiset_remove(after, p);
        to_multiset_build(earlier, e);
        assert(earlier.push(e) =~= entries);
        assert(after.to_multiset().count(e) > 0) by {
            after.to_multiset_ensures();
            assert(after.contains(e));
        }
        assert(after.to_multiset() =~= before.to_multiset().insert(e));
    }
}

/// Filtering by time keeps exactly the entries that are not earlier than
/// `since`, each as often as it was there.
pub proof fn law_kept_since_filters(entries: Seq<ActionLogView>, since: u64)
    ensures
        forall|e: ActionLogView| #[trigger]
            kept_since(entries, since).to_multiset().count(e) == if e.timestamp >= since {
                entries.to_multiset().count(e)
            } else {
                0
            },
    decreases entries.len(),
{
    broadcast use vstd::multiset::group_multiset_axioms;

    if entries.len() == 0 {
        let kept = kept_since(entries, since);
        entries.to_multiset_ensures();
        kept.to_multiset_ensures();
        assert forall|e: ActionLogView| #[trigger]
            kept.to_multiset().count(e) == if e.timestamp >= since {
                entries.to_multiset().count(e)
            } else {
                0
            } by {
            assert(!entries.contains(e));
            assert(!kept.contains(e));
        }
    } else {
        let earlier = entries.drop_last();
        let last = entries.last();
        law_kept_since_filters(earlier, since);
        to_multiset_build(earlier, last);
        assert(earlier.push(last) =~= entries);
        to_multiset_build(kept_since(earlier, since), last);
        assert forall|e: ActionLogView| #[trigger]
            kept_since(entries, since).to_multiset().count(e) == if e.timestamp >= since {
                entries.to_multiset().count(e)
            } else {
                0
            } by {
            assert(kept_since(earlier, since).to_multiset().count(e) == if e.timestamp >= since {
                earlier.to_multiset().count(e)
            } else {
                0
            });
        }
    }
}

/// What a reader gets from `since` on: a list in ascending order of time
/// that holds every gathered entry not earlier than `since` exactly as
/// often as it was gathered, and no entry earlier than `since`.
pub proof fn law_read_since(entries: Seq<ActionLogView>, since: u64)
    ensures
        ascending(actions_since(entries, since)),
        forall|e: ActionLogView| #[trigger]
            actions_since(entries, since).to_multiset().count(e) == if e.timestamp >= since {
                entries.to_multiset().count(e)
            } else {
                0
            },
        forall|k: int|
            0 <= k < actions_since(entries, since).len() ==> (#[trigger] actions_since(
                entries,
                since,
            )[k]).timestamp >= since,
{
    broadcast use vstd::multiset::group_multiset_axioms;

    let kept = kept_since(entries, since);
    let merged = actions_since(entries, since);
    law_merged_log_ascends(kept);
    law_merged_log_permutes(kept);
    law_kept_since_filters(entries, since);
    assert forall|k: int| 0 <= k < merged.len() implies (#[trigger] merged[k]).timestamp
        >= since by {
        merged.to_multiset_ensures();
        assert(merged.contains(merged[k]));
        assert(merged.to_multiset().count(merged[k]) > 0);
        assert(kept.to_multiset().count(merged[k]) > 0);
    }
}

/// Reading from time zero returns every gathered entry.
pub proof fn law_read_since_zero_keeps_all(entries: Seq<ActionLogView>)
    ensures
        actions_since(entries, 0).to_multiset() == entries.to_multiset(),
        actions_since(entries, 0).len() == entries.len(),
{
    broadcast use vstd::multiset::group_multiset_axioms;

    law_read_since(entries, 0);
    assert(actions_since(entries, 0).to_multiset() =~= entries.to_multiset());
    actions_since(entries, 0).to_multiset_ensures();
    entries.to_multiset_ensures();
}

} // verus!
