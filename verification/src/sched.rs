//! What the trap dispatcher relies on of the scheduler.
//!
//! The scheduler itself lives outside this library. Here stands the part of
//! its behaviour that the dispatcher's recovery from a fault rests on: which
//! frames it may hand out, and what deleting a process does to that.

use vstd::prelude::*;
use crate::cpu::TrapFrame;
use crate::trap::{
    actions, cause_number, is_interrupt, lemma_exception_actions, owner, Action, Outside, Trap,
};

verus! {

/// The processes that the scheduler may choose from: the address of the frame
/// of each, with the id of the process that owns it.
pub struct Runnable {
    pub frames: Map<u64, u16>,
}

impl Runnable {
    /// Whether a process is among those that may be chosen.
    pub open spec fn holds(self, pid: u16) -> bool {
        exists|frame: u64| self.frames.contains_pair(frame, pid)
    }

    /// Whether the scheduler may answer with `frame`: 0 says that no process
    /// can run; any other answer is the frame of a process that may be
    /// chosen.
    pub open spec fn may_choose(self, frame: u64) -> bool {
        frame == 0 || self.frames.dom().contains(frame)
    }

    /// The processes left after one is deleted.
    pub open spec fn delete_process(self, pid: u16) -> Runnable {
        Runnable {
            frames: Map::new(
                |frame: u64| self.frames.dom().contains(frame) && self.frames[frame] != pid,
                |frame: u64| self.frames[frame],
            ),
        }
    }

    /// The processes left after an action of the dispatcher.
    pub open spec fn after(self, action: Action) -> Runnable {
        match action {
            Action::DeleteProcess(pid) => self.delete_process(pid),
            _ => self,
        }
    }

    /// The processes left after some actions of the dispatcher, one after
    /// the other.
    pub open spec fn after_all(self, actions: Seq<Action>) -> Runnable
        decreases actions.len(),
    {
        if actions.len() == 0 {
            self
        } else {
            self.after(actions.first()).after_all(actions.drop_first())
        }
    }
}

/// A deleted process is not chosen again: it is not among the processes
/// left, and no frame that the scheduler may answer with is its own.
pub proof fn lemma_deleted_is_gone(table: Runnable, pid: u16)
    ensures
        !table.delete_process(pid).holds(pid),
        forall|frame: u64|
            frame != 0 && #[trigger] table.delete_process(pid).may_choose(frame)
                ==> table.delete_process(pid).frames[frame] != pid,
{
}

/// Deleting a process that is gone changes nothing.
pub proof fn lemma_delete_twice(table: Runnable, pid: u16)
    ensures
        table.delete_process(pid).delete_process(pid) == table.delete_process(pid),
{
    assert(table.delete_process(pid).delete_process(pid).frames =~= table.delete_process(
        pid,
    ).frames);
}

/// No action of the dispatcher brings a process back.
pub proof fn lemma_gone_stays_gone(table: Runnable, pid: u16, later: Seq<Action>)
    requires
        !table.holds(pid),
    ensures
        !table.after_all(later).holds(pid),
    decreases later.len(),
{
    if later.len() > 0 {
        let left = table.after(later.first());
        assert forall|frame: u64| !left.frames.contains_pair(frame, pid) by {
            assert(!table.frames.contains_pair(frame, pid));
        }
        lemma_gone_stays_gone(left, pid, later.drop_first());
    }
}

/// After a synchronous trap with cause 2, 7, 12, 13 or 15 the process that
/// owned the frame is gone for good. It is deleted before the scheduler is
/// asked, so neither the answer within the trap nor any later one can be its
/// frame, whatever the dispatcher does later.
pub proof fn lemma_fault_removes_process(
    table: Runnable,
    trap: Trap,
    frame: TrapFrame,
    outside: Outside,
    later: Seq<Action>,
)
    requires
        !is_interrupt(trap.cause),
        cause_number(trap.cause) == 2 || cause_number(trap.cause) == 7 || cause_number(trap.cause)
            == 12 || cause_number(trap.cause) == 13 || cause_number(trap.cause) == 15,
    ensures
        actions(trap, frame, outside)[1] == Action::DeleteProcess(owner(frame)),
        actions(trap, frame, outside)[2] == Action::Schedule,
        table.after_all(actions(trap, frame, outside).take(2)) == table.delete_process(
            owner(frame),
        ),
        !table.after_all(actions(trap, frame, outside) + later).holds(owner(frame)),
        forall|chosen: u64|
            chosen != 0 && #[trigger] table.after_all(
                actions(trap, frame, outside) + later,
            ).may_choose(chosen) ==> table.after_all(
                actions(trap, frame, outside) + later,
            ).frames[chosen] != owner(frame),
{
    lemma_exception_actions(trap, frame, outside);
    let pid = owner(frame);
    let all = actions(trap, frame, outside);
    let gone = table.delete_process(pid);
    assert(table.after_all(all.take(2)) == gone) by {
        lemma_after_all_unfold(table, all.take(2));
        lemma_after_all_unfold(table.after(all.take(2).first()), all.take(2).drop_first());
        assert(all.take(2).drop_first().drop_first().len() == 0);
    }
    let rest = (all + later).skip(2);
    assert(all + later =~= all.take(2) + rest);
    lemma_after_all_concat(table, all.take(2), rest);
    lemma_deleted_is_gone(table, pid);
    lemma_gone_stays_gone(gone, pid, rest);
    let end = table.after_all(all + later);
    assert forall|chosen: u64| chosen != 0 && #[trigger] end.may_choose(chosen) implies end.frames[chosen]
        != pid by {
        assert(end.frames.contains_pair(chosen, end.frames[chosen]));
    }
}

/// `after_all` on a sequence that is not empty, one step unfolded.
proof fn lemma_after_all_unfold(table: Runnable, actions: Seq<Action>)
    requires
        actions.len() > 0,
    ensures
        table.after_all(actions) == table.after(actions.first()).after_all(actions.drop_first()),
{
}

/// The actions of two sequences take effect one sequence after the other.
proof fn lemma_after_all_concat(table: Runnable, first: Seq<Action>, second: Seq<Action>)
    ensures
        table.after_all(first + second) == table.after_all(first).after_all(second),
    decreases first.len(),
{
    if first.len() == 0 {
        assert(first + second =~= second);
    } else {
        assert((first + second).first() == first.first());
        assert((first + second).drop_first() =~= first.drop_first() + second);
        lemma_after_all_concat(table.after(first.first()), first.drop_first(), second);
    }
}

} // verus!
