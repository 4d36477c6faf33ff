//! Whom the signals go to, and in which order.

use crate::signals::{
    target_number, GroupKill, KillAction, KillEvent, KillPhase, Signal, Target,
};
use vstd::prelude::*;

verus! {

/// The end of a group goes to that group and its first process alone: in every
/// course of events each signal is sent to one of the two, and only that group
/// is looked for.
pub proof fn law_signals_go_to_the_group(pid: u32, events: Seq<KillEvent>)
    ensures
        ({
            let k = (GroupKill { pid, phase: KillPhase::TermGroup }).run(events);
            &&& k.pid == pid
            &&& match k.action() {
                KillAction::Send(target, signal) => {
                    &&& target == Target::Group(pid) || target == Target::Process(pid)
                    &&& signal == Signal::Term || signal == Signal::Kill
                },
                KillAction::ProbeGroup(id) => id == pid,
                KillAction::Sleep(nanos) => nanos == 100_000_000,
                _ => true,
            }
        }),
    decreases events.len(),
{
    if events.len() > 0 {
        law_signals_go_to_the_group(pid, events.drop_last());
    }
}

/// What is done to end a group, step by step: the group is asked to end, or its
/// first process if the group cannot be; a tenth of a second later the group is
/// looked for; and only if it is alive are the group and its first process
/// forced to end. Whether the forcing is delivered does not matter.
pub proof fn law_group_is_asked_then_forced(pid: u32, forced: bool, again: bool)
    ensures
        ({
            let start = GroupKill { pid, phase: KillPhase::TermGroup };
            let asked = start.after(KillEvent::Delivered(true));
            let unasked = start.after(KillEvent::Delivered(false));
            let waited = asked.after(KillEvent::Slept);
            let alive = waited.after(KillEvent::GroupAlive(true));
            let leader = alive.after(KillEvent::Delivered(forced));
            &&& start.action() == KillAction::Send(Target::Group(pid), Signal::Term)
            &&& asked.action() == KillAction::Sleep(100_000_000)
            &&& unasked.action() == KillAction::Send(Target::Process(pid), Signal::Term)
            &&& unasked.after(KillEvent::Delivered(true)) == asked
            &&& unasked.after(KillEvent::Delivered(false)).action() == KillAction::Fail
            &&& waited.action() == KillAction::ProbeGroup(pid)
            &&& waited.after(KillEvent::GroupAlive(false)).action() == KillAction::Succeed
            &&& alive.action() == KillAction::Send(Target::Group(pid), Signal::Kill)
            &&& leader.action() == KillAction::Send(Target::Process(pid), Signal::Kill)
            &&& leader.after(KillEvent::Delivered(again)).action() == KillAction::Succeed
        }),
{
}

/// Only an answer to what was asked moves things on: a delivery to a signal, the
/// end of a sleep to a sleep, word of a group to the look for it.
pub proof fn law_only_answers_move_a_kill_on(k: GroupKill, event: KillEvent)
    ensures
        k.after(event) != k ==> match k.action() {
            KillAction::Send(_, _) => event is Delivered,
            KillAction::Sleep(_) => event is Slept,
            KillAction::ProbeGroup(_) => event is GroupAlive,
            _ => false,
        },
{
}

/// The number of a process, as the system takes it, is the one in the range of
/// 32 bits with a sign that differs from it by nothing or by a full turn; a
/// group has the opposite number.
pub proof fn law_numbers_name_their_targets(id: u32)
    ensures
        id < 0x8000_0000 ==> target_number(Target::Process(id)) == id && target_number(
            Target::Group(id),
        ) == -(id as int),
        id >= 0x8000_0000 ==> target_number(Target::Process(id)) == id - 0x1_0000_0000
            && target_number(Target::Group(id)) == 0x1_0000_0000 - id,
{
}

} // verus!
