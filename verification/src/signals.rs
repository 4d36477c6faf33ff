//! Signals to processes and process groups, and the end of a process group.

use crate::text::{decimal, decimal_text};
use vstd::prelude::*;
use vstd::string::*;

verus! {

/// Whom a signal is sent to.
#[derive(Debug, Clone, Copy, PartialEq, Eq, Structural)]
pub enum Target {
    /// One process.
    Process(u32),
    /// All processes of a group.
    Group(u32),
}

/// The signals that are sent.
#[derive(Debug, Clone, Copy, PartialEq, Eq, Structural)]
pub enum Signal {
    /// The target is only asked for: it gets nothing.
    Probe,
    /// The target is asked to end.
    Term,
    /// The target is ended.
    Kill,
}

/// The number `id` read as a signed number of 32 bits.
pub open spec fn as_signed(id: u32) -> int {
    if id < 0x8000_0000 {
        id as int
    } else {
        id - 0x1_0000_0000
    }
}

/// The number by which `kill` knows a target: a process by its own, a group
/// by the negative of its own.
pub open spec fn target_number(target: Target) -> int {
    match target {
        Target::Process(id) => as_signed(id),
        Target::Group(id) => -as_signed(id),
    }
}

/// The number by which `kill` knows a target. The one group whose number has
/// no negative is left out.
pub fn kill_number(target: Target) -> (n: i32)
    requires
        target != Target::Group(0x8000_0000),
    ensures
        n == target_number(target),
{
    match target {
        Target::Process(id) => signed(id),
        Target::Group(id) => -signed(id),
    }
}

/// The number `id` read as a signed number of 32 bits.
fn signed(id: u32) -> (n: i32)
    ensures
        n == as_signed(id),
{
    if id < 0x8000_0000 {
        id as i32
    } else {
        let below: i64 = id as i64 - 0x1_0000_0000;
        below as i32
    }
}

/// Whether a target exists, by what `kill` returned for a probe of it.
pub fn answers(returned: i32) -> (b: bool)
    ensures
        b == (returned == 0),
{
    returned == 0
}

/// How long a group has to end by itself, in nanoseconds.
pub const GRACE_NANOS: u128 = 100_000_000;

/// How far the end of a process group has come.
#[derive(Debug, Clone, Copy, PartialEq, Eq, Structural)]
pub enum KillPhase {
    /// The group is to be asked to end.
    TermGroup,
    /// The group could not be asked: its first process is to be.
    TermLeader,
    /// The group has a moment to end by itself.
    Grace,
    /// The group is to be looked for.
    CheckGroup,
    /// The group is to be ended.
    KillGroup,
    /// The first process is to be ended.
    KillLeader,
    /// All that could be done was done.
    Done,
    /// Nobody could be asked to end.
    Failed,
}

/// The end of a process group.
#[derive(Debug, Clone, Copy, PartialEq, Eq, Structural)]
pub struct GroupKill {
    pub pid: u32,
    pub phase: KillPhase,
}

/// What is to be done next to end a process group.
#[derive(Debug, Clone, Copy, PartialEq, Eq, Structural)]
pub enum KillAction {
    /// Send a signal, and tell whether it was delivered.
    Send(Target, Signal),
    /// Wait that many nanoseconds.
    Sleep(u128),
    /// Find out whether the group is alive.
    ProbeGroup(u32),
    /// Nothing: it is done.
    Succeed,
    /// Nothing: nobody could be asked to end.
    Fail,
}

/// What came of an action.
#[derive(Debug, Clone, Copy, PartialEq, Eq, Structural)]
pub enum KillEvent {
    Delivered(bool),
    Slept,
    GroupAlive(bool),
}

impl GroupKill {
    /// What is to be done in this phase.
    pub open spec fn action(self) -> KillAction {
        match self.phase {
            KillPhase::TermGroup => KillAction::Send(Target::Group(self.pid), Signal::Term),
            KillPhase::TermLeader => KillAction::Send(Target::Process(self.pid), Signal::Term),
            KillPhase::Grace => KillAction::Sleep(GRACE_NANOS),
            KillPhase::CheckGroup => KillAction::ProbeGroup(self.pid),
            KillPhase::KillGroup => KillAction::Send(Target::Group(self.pid), Signal::Kill),
            KillPhase::KillLeader => KillAction::Send(Target::Process(self.pid), Signal::Kill),
            KillPhase::Done => KillAction::Succeed,
            KillPhase::Failed => KillAction::Fail,
        }
    }

    /// The phase that follows when `event` came of the action of this one. An
    /// event that is no answer to the action changes nothing.
    pub open spec fn phase_after(self, event: KillEvent) -> KillPhase {
        match (self.phase, event) {
            (KillPhase::TermGroup, KillEvent::Delivered(ok)) => if ok {
                KillPhase::Grace
            } else {
                KillPhase::TermLeader
            },
            (KillPhase::TermLeader, KillEvent::Delivered(ok)) => if ok {
                KillPhase::Grace
            } else {
                KillPhase::Failed
            },
            (KillPhase::Grace, KillEvent::Slept) => KillPhase::CheckGroup,
            (KillPhase::CheckGroup, KillEvent::GroupAlive(alive)) => if alive {
                KillPhase::KillGroup
            } else {
                KillPhase::Done
            },
            (KillPhase::KillGroup, KillEvent::Delivered(_)) => KillPhase::KillLeader,
            (KillPhase::KillLeader, KillEvent::Delivered(_)) => KillPhase::Done,
            (phase, _) => phase,
        }
    }

    /// The end of the group after `event`.
    pub open spec fn after(self, event: KillEvent) -> GroupKill {
        GroupKill { pid: self.pid, phase: self.phase_after(event) }
    }

    /// The end of the group after all of `events`.
    pub open spec fn run(self, events: Seq<KillEvent>) -> GroupKill
        decreases events.len(),
    {
        if events.len() == 0 {
            self
        } else {
            self.run(events.drop_last()).after(events.last())
        }
    }

    /// How many answers are needed at most before the end.
    pub open spec fn steps_left(self) -> nat {
        match self.phase {
            KillPhase::TermGroup => 6,
            KillPhase::TermLeader => 5,
            KillPhase::Grace => 4,
            KillPhase::CheckGroup => 3,
            KillPhase::KillGroup => 2,
            KillPhase::KillLeader => 1,
            KillPhase::Done => 0,
            KillPhase::Failed => 0,
        }
    }

    /// What is to be done next.
    pub fn next_action(&self) -> (action: KillAction)
        ensures
            action == self.action(),
    {
        match self.phase {
            KillPhase::TermGroup => KillAction::Send(Target::Group(self.pid), Signal::Term),
            KillPhase::TermLeader => KillAction::Send(Target::Process(self.pid), Signal::Term),
            KillPhase::Grace => KillAction::Sleep(GRACE_NANOS),
            KillPhase::CheckGroup => KillAction::ProbeGroup(self.pid),
            KillPhase::KillGroup => KillAction::Send(Target::Group(self.pid), Signal::Kill),
            KillPhase::KillLeader => KillAction::Send(Target::Process(self.pid), Signal::Kill),
            KillPhase::Done => KillAction::Succeed,
            KillPhase::Failed => KillAction::Fail,
        }
    }

    /// Takes in what came of the last action, and says what is to be done next.
    pub fn advance(&mut self, event: KillEvent) -> (action: KillAction)
        ensures
            *final(self) == old(self).after(event),
            action == final(self).action(),
    {
        self.phase = match (self.phase, event) {
            (KillPhase::TermGroup, KillEvent::Delivered(true)) => KillPhase::Grace,
            (KillPhase::TermGroup, KillEvent::Delivered(false)) => KillPhase::TermLeader,
            (KillPhase::TermLeader, KillEvent::Delivered(true)) => KillPhase::Grace,
            (KillPhase::TermLeader, KillEvent::Delivered(false)) => KillPhase::Failed,
            (KillPhase::Grace, KillEvent::Slept) => KillPhase::CheckGroup,
            (KillPhase::CheckGroup, KillEvent::GroupAlive(true)) => KillPhase::KillGroup,
            (KillPhase::CheckGroup, KillEvent::GroupAlive(false)) => KillPhase::Done,
            (KillPhase::KillGroup, KillEvent::Delivered(_)) => KillPhase::KillLeader,
            (KillPhase::KillLeader, KillEvent::Delivered(_)) => KillPhase::Done,
            (phase, _) => phase,
        };
        self.next_action()
    }
}

/// Begins the end of the process group `pid`.
pub fn kill_process_group(pid: u32) -> (k: GroupKill)
    ensures
        k == (GroupKill { pid, phase: KillPhase::TermGroup }),
{
    GroupKill { pid, phase: KillPhase::TermGroup }
}

/// What the user is told where nobody could be asked to end, and why.
pub fn kill_failure(pid: u32, cause: &str) -> (s: String)
    ensures
        s@ == "failed to send SIGTERM to process "@ + decimal(pid as nat) + ": "@ + cause@,
{
    let mut s = "failed to send SIGTERM to process ".to_owned();
    s.append(decimal_text(pid as u64).as_str());
    s.append(": ");
    s.append(cause);
    s
}

/// Ending a group is only forced once the group was asked to end, had its
/// moment to do so, and was found alive after that.
pub proof fn law_force_is_the_last_resort(pid: u32, events: Seq<KillEvent>)
    ensures
        ({
            let start = GroupKill { pid, phase: KillPhase::TermGroup };
            start.run(events).phase is KillGroup || start.run(events).phase is KillLeader
                ==> exists|a: int, b: int, c: int|
                0 <= a < b < c < events.len() && #[trigger] events[a] == KillEvent::Delivered(true)
                    && #[trigger] events[b] == KillEvent::Slept && #[trigger] events[c]
                    == KillEvent::GroupAlive(true)
        }),
{
    lemma_kill_history(pid, events);
}

/// What must have happened before each phase.
proof fn lemma_kill_history(pid: u32, events: Seq<KillEvent>)
    ensures
        ({
            let k = (GroupKill { pid, phase: KillPhase::TermGroup }).run(events);
            &&& k.phase is Grace ==> exists|a: int|
                0 <= a < events.len() && #[trigger] events[a] == KillEvent::Delivered(true)
            &&& k.phase is CheckGroup ==> exists|a: int, b: int|
                0 <= a < b < events.len() && #[trigger] events[a] == KillEvent::Delivered(true)
                    && #[trigger] events[b] == KillEvent::Slept
            &&& k.phase is KillGroup || k.phase is KillLeader ==> exists|a: int, b: int, c: int|
                0 <= a < b < c < events.len() && #[trigger] events[a] == KillEvent::Delivered(true)
                    && #[trigger] events[b] == KillEvent::Slept && #[trigger] events[c]
                    == KillEvent::GroupAlive(true)
        }),
    decreases events.len(),
{
    if events.len() > 0 {
        let front = events.drop_last();
        lemma_kill_history(pid, front);
        let before = (GroupKill { pid, phase: KillPhase::TermGroup }).run(front);
        let n = events.len() - 1;
        assert(events[n] == events.last());
        assert(forall|i: int| 0 <= i < n ==> front[i] == events[i]);
        if before.phase is Grace {
            let a = choose|a: int|
                0 <= a < front.len() && #[trigger] front[a] == KillEvent::Delivered(true);
            assert(events[a] == KillEvent::Delivered(true));
        }
        if before.phase is CheckGroup {
            let (a, b) = choose|a: int, b: int|
                0 <= a < b < front.len() && #[trigger] front[a] == KillEvent::Delivered(true)
                    && #[trigger] front[b] == KillEvent::Slept;
            assert(events[a] == KillEvent::Delivered(true));
            assert(events[b] == KillEvent::Slept);
        }
        if before.phase is KillGroup || before.phase is KillLeader {
            let (a, b, c) = choose|a: int, b: int, c: int|
                0 <= a < b < c < front.len() && #[trigger] front[a] == KillEvent::Delivered(true)
                    && #[trigger] front[b] == KillEvent::Slept && #[trigger] front[c]
                    == KillEvent::GroupAlive(true);
            assert(events[a] == KillEvent::Delivered(true));
            assert(events[b] == KillEvent::Slept);
            assert(events[c] == KillEvent::GroupAlive(true));
        }
    }
}

/// Ending a group comes to an end: every answer to an action leaves fewer
/// steps, and where none are left nothing more is to be done.
pub proof fn law_kill_comes_to_an_end(k: GroupKill, event: KillEvent)
    ensures
        k.after(event) == k || k.after(event).steps_left() < k.steps_left(),
        k.steps_left() == 0 <==> (k.action() is Succeed || k.action() is Fail),
{
}

/// A group and the process that it is named after have opposite numbers, and
/// for every number that a process can have the group's is negative.
pub proof fn law_group_is_the_negative(id: u32)
    ensures
        target_number(Target::Group(id)) == -target_number(Target::Process(id)),
        0 < id < 0x8000_0000 ==> target_number(Target::Group(id)) == -id,
{
}

} // verus!
