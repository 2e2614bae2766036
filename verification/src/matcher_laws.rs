//! What holds of every search, whatever the driver replies.

use crate::guid::Guid;
use crate::matcher::{
    spec_eligible, spec_lowest_match, spec_next_eligible, spec_partition_path, MatcherView, Phase,
};
use crate::protocol::{PartitionEntry, ReplyView, RequestView};
use vstd::prelude::*;

verus! {

/// The number found for a GUID is that of a partition which carries it, and
/// no partition that carries it has a lower one. Where several partitions
/// share the GUID, the lowest-numbered one is taken. Nothing is found only
/// where no partition carries the GUID.
pub proof fn lemma_lowest_match_is_lowest(entries: Seq<PartitionEntry>, target: Guid)
    ensures
        match spec_lowest_match(entries, target) {
            Some(index) => {
                &&& exists|i: int|
                    0 <= i < entries.len() && #[trigger] entries[i].guid == target
                        && entries[i].index == index
                &&& forall|j: int|
                    0 <= j < entries.len() && #[trigger] entries[j].guid == target ==> index
                        <= entries[j].index
            },
            None => forall|j: int| 0 <= j < entries.len() ==> #[trigger] entries[j].guid != target,
        },
    decreases entries.len(),
{
    if entries.len() > 0 {
        let front = entries.drop_last();
        let last = entries.len() - 1;
        lemma_lowest_match_is_lowest(front, target);
        assert forall|j: int| 0 <= j < front.len() implies front[j] == entries[j] by {}
        match spec_lowest_match(entries, target) {
            Some(index) => {
                if entries[last].guid == target && entries[last].index == index {
                    assert(entries[last].guid == target && entries[last].index == index);
                } else {
                    let i = choose|i: int|
                        0 <= i < front.len() && #[trigger] front[i].guid == target
                            && front[i].index == index;
                    assert(entries[i].guid == target && entries[i].index == index);
                }
                assert forall|j: int|
                    0 <= j < entries.len() && #[trigger] entries[j].guid == target implies index
                    <= entries[j].index by {
                    if j < last {
                        assert(front[j].guid == target);
                    }
                }
            },
            None => {
                assert forall|j: int| 0 <= j < entries.len() implies #[trigger] entries[j].guid
                    != target by {
                    if j < last {
                        assert(front[j].guid != target);
                    }
                }
            },
        }
    }
}

/// The disk that a scan stops at lies in the listing at or behind the
/// starting point, is not hidden and was not scanned before; and the scan
/// stops at the first such disk.
pub proof fn lemma_next_eligible(devices: Seq<Seq<char>>, seen: Seq<Seq<char>>, from: int)
    requires
        0 <= from <= devices.len(),
    ensures
        from <= spec_next_eligible(devices, seen, from) <= devices.len(),
        spec_next_eligible(devices, seen, from) < devices.len() ==> spec_eligible(
            seen,
            devices[spec_next_eligible(devices, seen, from)],
        ),
        forall|i: int|
            from <= i < spec_next_eligible(devices, seen, from) ==> !spec_eligible(
                seen,
                #[trigger] devices[i],
            ),
    decreases devices.len() - from,
{
    if from < devices.len() && !spec_eligible(seen, devices[from]) {
        lemma_next_eligible(devices, seen, from + 1);
    }
}

/// A well-formed state stays well formed, whatever the driver replies.
pub proof fn lemma_step_keeps_wf(m: MatcherView, reply: ReplyView)
    requires
        m.wf(),
    ensures
        m.step(reply).wf(),
{
    if m.cursor < m.devices.len() {
        lemma_next_eligible(m.devices, m.seen, m.cursor + 1);
        lemma_next_eligible(m.devices, m.mark_seen().seen, m.cursor + 1);
    }
    if let ReplyView::Names(names) = reply {
        lemma_next_eligible(names, m.seen, 0);
    }
}

/// The state that a search is in after the driver's replies, one by one.
pub open spec fn spec_run(start: MatcherView, replies: Seq<ReplyView>) -> MatcherView
    decreases replies.len(),
{
    if replies.len() == 0 {
        start
    } else {
        spec_run(start, replies.drop_last()).step(replies.last())
    }
}

/// What holds in every state that a search reaches: the state is well
/// formed, and a disk that is being examined was not scanned before.
pub open spec fn spec_search_invariant(m: MatcherView) -> bool {
    &&& m.wf()
    &&& (m.phase is Opening || m.phase is ProbingSeparated || m.phase is ProbingBare)
        ==> spec_eligible(m.seen, m.disk())
}

/// One step keeps the invariant, forgets no scanned disk, and asks to open
/// only a disk that was not scanned before.
pub proof fn lemma_step_opens_no_scanned_disk(m: MatcherView, reply: ReplyView)
    requires
        spec_search_invariant(m),
    ensures
        spec_search_invariant(m.step(reply)),
        forall|name: Seq<char>| m.seen.contains(name) ==> m.step(reply).seen.contains(name),
        m.step(reply).phase is Opening ==> !m.seen.contains(m.step(reply).disk()),
{
    let n = m.step(reply);
    let marked = m.mark_seen();
    if m.cursor < m.devices.len() {
        assert(marked.seen.last() == m.disk());
        assert forall|name: Seq<char>| m.seen.contains(name) implies marked.seen.contains(
            name,
        ) by {
            let i = choose|i: int| 0 <= i < m.seen.len() && m.seen[i] == name;
            assert(marked.seen[i] == name);
        }
        lemma_next_eligible(m.devices, m.seen, m.cursor + 1);
        lemma_next_eligible(marked.devices, marked.seen, m.cursor + 1);
    }
    match m.phase {
        Phase::Listing => {
            if let ReplyView::Names(names) = reply {
                lemma_next_eligible(names, m.seen, 0);
            }
        },
        _ => {},
    }
    assert forall|name: Seq<char>| m.seen.contains(name) implies n.seen.contains(name) by {
        if n.seen != m.seen {
            assert(marked.seen.contains(name));
        }
    }
    if n.phase is Opening && n.seen != m.seen {
        if m.seen.contains(n.disk()) {
            assert(marked.seen.contains(n.disk()));
        }
    }
}

/// Through any run of replies, a disk that was scanned stays scanned and is
/// never asked to be opened again: polling an unchanged set of devices a
/// second time opens none of the disks that the first poll scanned.
pub proof fn lemma_scanned_disks_are_never_reopened(start: MatcherView, replies: Seq<ReplyView>)
    requires
        spec_search_invariant(start),
    ensures
        spec_search_invariant(spec_run(start, replies)),
        forall|name: Seq<char>|
            start.seen.contains(name) ==> spec_run(start, replies).seen.contains(name),
        replies.len() > 0 && spec_run(start, replies).phase is Opening ==> !start.seen.contains(
            spec_run(start, replies).disk(),
        ),
    decreases replies.len(),
{
    if replies.len() > 0 {
        let before = spec_run(start, replies.drop_last());
        lemma_scanned_disks_are_never_reopened(start, replies.drop_last());
        lemma_step_opens_no_scanned_disk(before, replies.last());
        let after = before.step(replies.last());
        if after.phase is Opening && start.seen.contains(after.disk()) {
            assert(before.seen.contains(after.disk()));
        }
    }
}

/// The search begins in a state in which the invariant holds.
pub proof fn lemma_initial_state_is_sound(target: Guid, poll_millis: u64, limit: Option<u32>)
    ensures
        spec_search_invariant(MatcherView::initial(target, poll_millis, limit)),
{
}

/// Where the partition table of the disk being opened holds the GUID, the
/// node of the lowest-numbered partition that carries it is probed, with the
/// separator first. If that node exists the search ends with it. If only
/// the node without separator exists the search ends with that one. If
/// neither exists the search does not end.
pub proof fn lemma_match_is_probed_in_order(
    m: MatcherView,
    entries: Seq<PartitionEntry>,
    index: u32,
)
    requires
        m.wf(),
        m.phase is Opening,
        spec_lowest_match(entries, m.target) == Some(index),
    ensures
        ({
            let probing = m.step(ReplyView::Partitions(entries));
            let fallback = probing.step(ReplyView::Exists(false));
            &&& probing.request() == Some(
                RequestView::ProbePath { path: spec_partition_path(m.disk(), index, true) },
            )
            &&& probing.step(ReplyView::Exists(true)).phase is Resolved
            &&& probing.step(ReplyView::Exists(true)).resolved == spec_partition_path(
                m.disk(),
                index,
                true,
            )
            &&& fallback.request() == Some(
                RequestView::ProbePath { path: spec_partition_path(m.disk(), index, false) },
            )
            &&& fallback.step(ReplyView::Exists(true)).phase is Resolved
            &&& fallback.step(ReplyView::Exists(true)).resolved == spec_partition_path(
                m.disk(),
                index,
                false,
            )
            &&& !(fallback.step(ReplyView::Exists(false)).phase is Resolved)
        }),
{
}

/// A search that has ended stays ended, with the same result: no second
/// partition is ever selected, and a search that gave up does not resume.
pub proof fn lemma_ended_search_is_final(m: MatcherView, replies: Seq<ReplyView>)
    requires
        m.phase is Resolved || m.phase is Exhausted,
    ensures
        spec_run(m, replies) == m,
    decreases replies.len(),
{
    if replies.len() > 0 {
        lemma_ended_search_is_final(m, replies.drop_last());
    }
}

/// A search without a limit never gives up, and stays without a limit.
pub proof fn lemma_unlimited_search_never_gives_up(m: MatcherView, reply: ReplyView)
    requires
        m.polls_left is None,
        !(m.phase is Exhausted),
    ensures
        m.step(reply).polls_left is None,
        !(m.step(reply).phase is Exhausted),
{
}

/// What a limited search has left only shrinks, by one with each pause, and
/// the search pauses only while more than the current poll is left: a
/// search that was allowed `n` polls lists the block devices at most `n`
/// times.
pub proof fn lemma_each_pause_uses_up_a_poll(m: MatcherView, reply: ReplyView, left: u32)
    requires
        m.polls_left == Some(left),
        !(m.phase is Sleeping),
    ensures
        m.step(reply).polls_left is Some,
        m.step(reply).polls_left->0 <= left,
        m.step(reply).phase is Sleeping ==> left > 1 && m.step(reply).polls_left == Some(
            (left - 1) as u32,
        ),
        m.step(reply).phase is Exhausted && !(m.phase is Exhausted) ==> left <= 1,
{
}

} // verus!
