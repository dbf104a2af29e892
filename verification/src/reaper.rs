//! The reaper loop's drain discipline.
//!
//! On every wake the reaper repeatedly performs a non-blocking "collect one
//! exited descendant" probe. A probe result is classified by
//! [`drain_step`]: the designated child ends the run, another descendant is
//! discarded and draining continues, and "none ready" sends the reaper back
//! to waiting. [`drain_batch`] applies that classification to a whole
//! sequence of probe results, and the lemmas below state the guarantees of
//! the discipline: the designated child's exit always ends the loop, every
//! other exited descendant is drained without ending it, and one wake
//! suffices even when several exits were coalesced into a single
//! notification.

use vstd::prelude::*;

verus! {

/// What one non-blocking probe result means for the reaper.
#[derive(Clone, Copy, Debug, PartialEq, Eq, Structural)]
pub enum ReapStep {
    /// The designated child was reaped: terminal success, the loop ends.
    Designated,
    /// Some other descendant (an orphan reparented to the supervisor) was
    /// reaped: discard it and keep draining.
    Other,
    /// No descendant is currently exited: stop draining and wait for the
    /// next notification.
    NoneReady,
}

/// How draining one notified batch ended.
#[derive(Clone, Copy, Debug, PartialEq, Eq, Structural)]
pub enum DrainOutcome {
    /// The designated child was observed among the exited descendants.
    ChildReaped,
    /// The batch was exhausted without seeing the designated child.
    NoneReady,
}

/// A probe result that ends the current batch: either the designated
/// child, or the report that no descendant is currently exited (the wait
/// interface reports that as zero or a negative value).
pub open spec fn is_terminal(designated: i32, pid: i32) -> bool {
    pid == designated || pid <= 0
}

/// The position of the first batch-ending probe result, or `pids.len()`
/// if every result is a drainable other descendant.
pub open spec fn terminal_index(designated: i32, pids: Seq<i32>) -> int
    decreases pids.len(),
{
    if pids.len() == 0 {
        0
    } else if is_terminal(designated, pids[0]) {
        0
    } else {
        1 + terminal_index(designated, pids.drop_first())
    }
}

/// Whether some probe result in the batch ends it.
pub open spec fn has_terminal(designated: i32, pids: Seq<i32>) -> bool {
    exists|i: int| 0 <= i < pids.len() && is_terminal(designated, pids[i])
}

/// `terminal_index` is the first batch-ending position: everything before
/// it is a drainable other descendant, and it lies inside the batch
/// exactly when the batch has a batch-ending result at all.
pub proof fn lemma_terminal_index(designated: i32, pids: Seq<i32>)
    ensures
        0 <= terminal_index(designated, pids) <= pids.len(),
        has_terminal(designated, pids) <==> terminal_index(designated, pids) < pids.len(),
        terminal_index(designated, pids) < pids.len()
            ==> is_terminal(designated, pids[terminal_index(designated, pids)]),
        forall|i: int| 0 <= i < terminal_index(designated, pids)
            ==> !is_terminal(designated, pids[i]),
    decreases pids.len(),
{
    if pids.len() == 0 {
    } else if is_terminal(designated, pids[0]) {
        assert(has_terminal(designated, pids));
    } else {
        let sub = pids.drop_first();
        let ti = terminal_index(designated, pids);
        lemma_terminal_index(designated, sub);
        assert forall|i: int| 0 <= i < ti implies !is_terminal(designated, pids[i]) by {
            if i > 0 {
                assert(!is_terminal(designated, sub[i - 1]));
                assert(sub[i - 1] == pids[i]);
            }
        }
        if has_terminal(designated, pids) {
            let w = choose|i: int| 0 <= i < pids.len() && is_terminal(designated, pids[i]);
            assert(w > 0);
            assert(sub[w - 1] == pids[w]);
            assert(0 <= w - 1 < sub.len() && is_terminal(designated, sub[w - 1]));
            assert(has_terminal(designated, sub));
        }
        if ti < pids.len() {
            assert(is_terminal(designated, sub[ti - 1]));
            assert(sub[ti - 1] == pids[ti]);
            assert(0 <= ti < pids.len() && is_terminal(designated, pids[ti]));
            assert(has_terminal(designated, pids));
        }
    }
}

/// Classifies one probe result. The designated child is recognised first,
/// so the run ends on it even in the degenerate case of a non-positive
/// designated identifier; any other non-positive result means no
/// descendant is currently exited.
pub fn drain_step(designated: i32, pid: i32) -> (s: ReapStep)
    ensures
        s == ReapStep::Designated <==> pid == designated,
        s == ReapStep::NoneReady <==> (pid != designated && pid <= 0),
        s == ReapStep::Other <==> (pid != designated && pid > 0),
{
    if pid == designated {
        ReapStep::Designated
    } else if pid <= 0 {
        ReapStep::NoneReady
    } else {
        ReapStep::Other
    }
}

/// Drains one notified batch, given the successive results of the
/// non-blocking probe. Every other descendant before the first
/// batch-ending result is consumed and discarded; the batch ends on the
/// designated child (`ChildReaped`) or on "no descendant ready"
/// (`NoneReady`), whichever comes first. `None` means the given results
/// were exhausted while still draining — a real probe cannot end that way,
/// as the wait interface eventually reports "none ready".
pub fn drain_batch(designated: i32, pids: &Vec<i32>) -> (r: Option<(DrainOutcome, usize)>)
    ensures
        r is Some <==> has_terminal(designated, pids@),
        r matches Some((outcome, consumed)) ==> {
            &&& consumed == terminal_index(designated, pids@) + 1
            &&& 1 <= consumed <= pids@.len()
            &&& is_terminal(designated, pids@[consumed - 1])
            &&& (outcome == DrainOutcome::ChildReaped <==> pids@[consumed - 1] == designated)
            &&& (outcome == DrainOutcome::NoneReady <==> pids@[consumed - 1] != designated)
            &&& forall|i: int| 0 <= i < consumed - 1
                ==> pids@[i] > 0 && pids@[i] != designated
        },
        r is None ==> forall|i: int| 0 <= i < pids@.len()
            ==> pids@[i] > 0 && pids@[i] != designated,
{
    let mut i: usize = 0;
    while i < pids.len()
        invariant
            0 <= i <= pids@.len(),
            forall|j: int| 0 <= j < i ==> !is_terminal(designated, pids@[j]),
        decreases pids@.len() - i,
    {
        let pid = pids[i];
        match drain_step(designated, pid) {
            ReapStep::Designated => {
                proof {
                    lemma_terminal_index(designated, pids@);
                    assert(is_terminal(designated, pids@[i as int]));
                }
                return Some((DrainOutcome::ChildReaped, i + 1));
            },
            ReapStep::NoneReady => {
                proof {
                    lemma_terminal_index(designated, pids@);
                    assert(is_terminal(designated, pids@[i as int]));
                }
                return Some((DrainOutcome::NoneReady, i + 1));
            },
            ReapStep::Other => {
                i = i + 1;
            },
        }
    }
    proof {
        lemma_terminal_index(designated, pids@);
    }
    None
}

/// If the designated child has exited — its identifier stands somewhere in
/// the batch, with only still-reapable descendants (positive identifiers)
/// before it — then the batch ends on the designated child, however many
/// unrelated orphans exited concurrently or in between. No other positive
/// identifier can end the loop.
pub proof fn lemma_designated_exit_reaps(designated: i32, pids: Seq<i32>, k: int)
    requires
        0 <= k < pids.len(),
        pids[k] == designated,
        forall|i: int| 0 <= i < k ==> pids[i] > 0,
    ensures
        has_terminal(designated, pids),
        terminal_index(designated, pids) <= k,
        pids[terminal_index(designated, pids)] == designated,
{
    lemma_terminal_index(designated, pids);
    let ti = terminal_index(designated, pids);
    assert(is_terminal(designated, pids[k]));
    assert(ti <= k);
    assert(is_terminal(designated, pids[ti]));
    if ti < k {
        assert(pids[ti] > 0);
    }
}

/// If N other descendants exit first and the designated child exits after
/// them, all N are drained — the loop does not end early on any of them —
/// and exactly the designated child's identifier ends the batch, as the
/// (N+1)-th result consumed.
pub proof fn lemma_orphans_drained(designated: i32, pids: Seq<i32>, k: int)
    requires
        0 <= k < pids.len(),
        pids[k] == designated,
        forall|i: int| 0 <= i < k ==> pids[i] > 0 && pids[i] != designated,
    ensures
        has_terminal(designated, pids),
        terminal_index(designated, pids) == k,
        pids[terminal_index(designated, pids)] == designated,
{
    lemma_terminal_index(designated, pids);
    let ti = terminal_index(designated, pids);
    assert(is_terminal(designated, pids[k]));
    assert(ti <= k);
    if ti < k {
        assert(!is_terminal(designated, pids[ti]));
    }
}

/// Signal coalescing cannot leak a zombie: when several descendants'
/// exits — the designated child's among them, as the last — were folded
/// into a single notification, the one resulting wake still drains the
/// entire batch, every other descendant included, before the loop ends on
/// the designated child.
pub proof fn lemma_single_wake_drains_all(designated: i32, pids: Seq<i32>)
    requires
        pids.len() > 0,
        pids[pids.len() - 1] == designated,
        forall|i: int| 0 <= i < pids.len() - 1 ==> pids[i] > 0 && pids[i] != designated,
    ensures
        has_terminal(designated, pids),
        terminal_index(designated, pids) == pids.len() - 1,
        pids[terminal_index(designated, pids)] == designated,
{
    lemma_orphans_drained(designated, pids, pids.len() - 1);
}

} // verus!
