//! The closed enumerations of the kernel interface and the hint record.
//!
//! Every enumeration crosses the kernel boundary as a 32-bit code. Encoding is
//! total; decoding rejects every code that no variant owns.

use vstd::prelude::*;

verus! {

/// Why the kernel asks a worker to yield.
#[derive(Clone, Copy, Debug, PartialEq, Eq, Structural)]
pub enum HintReason {
    /// The worker used up its time slice.
    Budget,
    /// The system is short of CPU time.
    Pressure,
    /// The run queues are out of balance.
    Imbalance,
    /// A hard deadline is close.
    Deadline,
}

impl HintReason {
    /// The code of this reason on the wire.
    pub open spec fn code(self) -> u32 {
        match self {
            HintReason::Budget => 1,
            HintReason::Pressure => 2,
            HintReason::Imbalance => 3,
            HintReason::Deadline => 4,
        }
    }

    /// The reason that owns `value`, if any.
    pub open spec fn decode(value: u32) -> Option<HintReason> {
        if value == 1 {
            Some(HintReason::Budget)
        } else if value == 2 {
            Some(HintReason::Pressure)
        } else if value == 3 {
            Some(HintReason::Imbalance)
        } else if value == 4 {
            Some(HintReason::Deadline)
        } else {
            None
        }
    }

    /// Encodes the reason.
    pub fn to_u32(self) -> (value: u32)
        ensures
            value == self.code(),
            HintReason::decode(value) == Some(self),
    {
        match self {
            HintReason::Budget => 1,
            HintReason::Pressure => 2,
            HintReason::Imbalance => 3,
            HintReason::Deadline => 4,
        }
    }

    /// Decodes a reason; codes outside `1..=4` are rejected.
    pub fn try_from(value: u32) -> (decoded: Result<HintReason, ()>)
        ensures
            decoded is Ok <==> 1 <= value <= 4,
            decoded matches Ok(reason) ==> reason.code() == value,
            decoded.ok() == HintReason::decode(value),
    {
        match value {
            1 => Ok(HintReason::Budget),
            2 => Ok(HintReason::Pressure),
            3 => Ok(HintReason::Imbalance),
            4 => Ok(HintReason::Deadline),
            _ => Err(()),
        }
    }
}

/// What made a worker yield last; a ledger entry for observers.
#[derive(Clone, Copy, Debug, PartialEq, Eq, Structural)]
pub enum YieldReason {
    /// The worker has not yielded yet.
    Unset,
    /// It answered a kernel hint.
    Hint,
    /// It yielded at a checkpoint of its own accord.
    Checkpoint,
    /// Its budget ran out.
    Budget,
    /// Defensive mode forced the yield.
    Defensive,
    /// It recovered from an escalation.
    EscalationRecovery,
}

impl YieldReason {
    /// The code of this reason in the control block.
    pub open spec fn code(self) -> u32 {
        match self {
            YieldReason::Unset => 0,
            YieldReason::Hint => 1,
            YieldReason::Checkpoint => 2,
            YieldReason::Budget => 3,
            YieldReason::Defensive => 4,
            YieldReason::EscalationRecovery => 5,
        }
    }

    /// The reason that owns `value`, if any.
    pub open spec fn decode(value: u32) -> Option<YieldReason> {
        if value == 0 {
            Some(YieldReason::Unset)
        } else if value == 1 {
            Some(YieldReason::Hint)
        } else if value == 2 {
            Some(YieldReason::Checkpoint)
        } else if value == 3 {
            Some(YieldReason::Budget)
        } else if value == 4 {
            Some(YieldReason::Defensive)
        } else if value == 5 {
            Some(YieldReason::EscalationRecovery)
        } else {
            None
        }
    }

    /// Encodes the reason.
    pub fn to_u32(self) -> (value: u32)
        ensures
            value == self.code(),
            YieldReason::decode(value) == Some(self),
    {
        match self {
            YieldReason::Unset => 0,
            YieldReason::Hint => 1,
            YieldReason::Checkpoint => 2,
            YieldReason::Budget => 3,
            YieldReason::Defensive => 4,
            YieldReason::EscalationRecovery => 5,
        }
    }

    /// Decodes a reason; codes above 5 are rejected.
    pub fn try_from(value: u32) -> (decoded: Result<YieldReason, ()>)
        ensures
            decoded is Ok <==> value <= 5,
            decoded matches Ok(reason) ==> reason.code() == value,
            decoded.ok() == YieldReason::decode(value),
    {
        match value {
            0 => Ok(YieldReason::Unset),
            1 => Ok(YieldReason::Hint),
            2 => Ok(YieldReason::Checkpoint),
            3 => Ok(YieldReason::Budget),
            4 => Ok(YieldReason::Defensive),
            5 => Ok(YieldReason::EscalationRecovery),
            _ => Err(()),
        }
    }
}

/// What the kernel may do to a worker that ignores its hints.
#[derive(Clone, Copy, Debug, PartialEq, Eq, Structural)]
pub enum EscalationPolicy {
    /// Never go beyond hinting.
    Off,
    /// Kick the worker's thread off its CPU.
    ThreadKick,
    /// Throttle the worker's control group.
    CgroupThrottle,
    /// Kick first, throttle if that does not help.
    Hybrid,
}

impl EscalationPolicy {
    /// The code of this policy in the control block.
    pub open spec fn code(self) -> u32 {
        match self {
            EscalationPolicy::Off => 0,
            EscalationPolicy::ThreadKick => 1,
            EscalationPolicy::CgroupThrottle => 2,
            EscalationPolicy::Hybrid => 3,
        }
    }

    /// The policy that owns `value`, if any.
    pub open spec fn decode(value: u32) -> Option<EscalationPolicy> {
        if value == 0 {
            Some(EscalationPolicy::Off)
        } else if value == 1 {
            Some(EscalationPolicy::ThreadKick)
        } else if value == 2 {
            Some(EscalationPolicy::CgroupThrottle)
        } else if value == 3 {
            Some(EscalationPolicy::Hybrid)
        } else {
            None
        }
    }

    /// Whether this policy lets the kernel act at all.
    pub open spec fn permits_escalation(self) -> bool {
        self != EscalationPolicy::Off
    }

    /// Encodes the policy.
    pub fn to_u32(self) -> (value: u32)
        ensures
            value == self.code(),
            EscalationPolicy::decode(value) == Some(self),
    {
        match self {
            EscalationPolicy::Off => 0,
            EscalationPolicy::ThreadKick => 1,
            EscalationPolicy::CgroupThrottle => 2,
            EscalationPolicy::Hybrid => 3,
        }
    }

    /// Decodes a policy; codes above 3 are rejected.
    pub fn try_from(value: u32) -> (decoded: Result<EscalationPolicy, ()>)
        ensures
            decoded is Ok <==> value <= 3,
            decoded matches Ok(policy) ==> policy.code() == value,
            decoded.ok() == EscalationPolicy::decode(value),
    {
        match value {
            0 => Ok(EscalationPolicy::Off),
            1 => Ok(EscalationPolicy::ThreadKick),
            2 => Ok(EscalationPolicy::CgroupThrottle),
            3 => Ok(EscalationPolicy::Hybrid),
            _ => Err(()),
        }
    }
}

/// Where a worker stands in its life.
///
/// The only transitions are `Init → Registered → Running → Quiescing → Dead`.
/// The kernel may hint or escalate a worker only while it is `Running`.
#[derive(Clone, Copy, Debug, PartialEq, Eq, Structural)]
pub enum WorkerState {
    /// The control block exists; the kernel does not know the thread yet.
    Init,
    /// The thread id is registered with the kernel.
    Registered,
    /// The worker runs its work loop.
    Running,
    /// The worker drains what is in flight and takes nothing new.
    Quiescing,
    /// The worker is gone.
    Dead,
}

impl WorkerState {
    /// The code of this state in the control block.
    pub open spec fn code(self) -> u32 {
        match self {
            WorkerState::Init => 0,
            WorkerState::Registered => 1,
            WorkerState::Running => 2,
            WorkerState::Quiescing => 3,
            WorkerState::Dead => 4,
        }
    }

    /// The state that owns `value`, if any.
    pub open spec fn decode(value: u32) -> Option<WorkerState> {
        if value == 0 {
            Some(WorkerState::Init)
        } else if value == 1 {
            Some(WorkerState::Registered)
        } else if value == 2 {
            Some(WorkerState::Running)
        } else if value == 3 {
            Some(WorkerState::Quiescing)
        } else if value == 4 {
            Some(WorkerState::Dead)
        } else {
            None
        }
    }

    /// The one state that may follow this one; `Dead` has none.
    pub open spec fn successor(self) -> Option<WorkerState> {
        match self {
            WorkerState::Init => Some(WorkerState::Registered),
            WorkerState::Registered => Some(WorkerState::Running),
            WorkerState::Running => Some(WorkerState::Quiescing),
            WorkerState::Quiescing => Some(WorkerState::Dead),
            WorkerState::Dead => None,
        }
    }

    /// Whether the step from this state to `next` is a valid transition.
    pub open spec fn allows(self, next: WorkerState) -> bool {
        self.successor() == Some(next)
    }

    /// Encodes the state.
    pub fn to_u32(self) -> (value: u32)
        ensures
            value == self.code(),
            WorkerState::decode(value) == Some(self),
    {
        match self {
            WorkerState::Init => 0,
            WorkerState::Registered => 1,
            WorkerState::Running => 2,
            WorkerState::Quiescing => 3,
            WorkerState::Dead => 4,
        }
    }

    /// Decodes a state; codes above 4 are rejected.
    pub fn try_from(value: u32) -> (decoded: Result<WorkerState, ()>)
        ensures
            decoded is Ok <==> value <= 4,
            decoded matches Ok(state) ==> state.code() == value,
            decoded.ok() == WorkerState::decode(value),
    {
        match value {
            0 => Ok(WorkerState::Init),
            1 => Ok(WorkerState::Registered),
            2 => Ok(WorkerState::Running),
            3 => Ok(WorkerState::Quiescing),
            4 => Ok(WorkerState::Dead),
            _ => Err(()),
        }
    }

    /// Whether the kernel may send hints to a worker in this state.
    pub fn can_receive_hints(self) -> (allowed: bool)
        ensures
            allowed == (self == WorkerState::Running),
    {
        match self {
            WorkerState::Running => true,
            _ => false,
        }
    }

    /// Whether the kernel may escalate against a worker in this state.
    pub fn can_escalate(self) -> (allowed: bool)
        ensures
            allowed == (self == WorkerState::Running),
    {
        match self {
            WorkerState::Running => true,
            _ => false,
        }
    }

    /// Whether a worker in this state may move to `next`.
    pub fn can_transition_to(self, next: WorkerState) -> (valid: bool)
        ensures
            valid == self.allows(next),
    {
        match (self, next) {
            (WorkerState::Init, WorkerState::Registered) => true,
            (WorkerState::Registered, WorkerState::Running) => true,
            (WorkerState::Running, WorkerState::Quiescing) => true,
            (WorkerState::Quiescing, WorkerState::Dead) => true,
            _ => false,
        }
    }
}

/// A worker's life only goes forward, one state at a time, and ends in
/// `Dead`: a valid transition raises the code of the state by one, and no
/// transition leaves `Dead`.
pub proof fn lemma_lifecycle_goes_forward(from: WorkerState, to: WorkerState)
    ensures
        from.allows(to) ==> to.code() == from.code() + 1,
        !WorkerState::Dead.allows(to),
        !from.allows(WorkerState::Init),
        from.allows(to) && to == WorkerState::Running ==> from == WorkerState::Registered,
{
}

/// A coarse label of how much hint traffic a runtime sees.
///
/// A runtime starts `Deterministic`, becomes `Pressured` with the first hint
/// and moves between `Pressured` and `Defensive` as hint loss comes and goes.
#[derive(Clone, Copy, Debug, PartialEq, Eq, Structural)]
pub enum RuntimeMode {
    /// No hint has arrived.
    Deterministic,
    /// Hints arrive and none was lost.
    Pressured,
    /// Hints were lost; the runtime yields at every checkpoint.
    Defensive,
}

impl RuntimeMode {
    /// The code of this mode.
    pub open spec fn code(self) -> u32 {
        match self {
            RuntimeMode::Deterministic => 0,
            RuntimeMode::Pressured => 1,
            RuntimeMode::Defensive => 2,
        }
    }

    /// The mode that owns `value`, if any.
    pub open spec fn decode(value: u32) -> Option<RuntimeMode> {
        if value == 0 {
            Some(RuntimeMode::Deterministic)
        } else if value == 1 {
            Some(RuntimeMode::Pressured)
        } else if value == 2 {
            Some(RuntimeMode::Defensive)
        } else {
            None
        }
    }

    /// Whether the step from this mode to `next` is one the runtime takes.
    pub open spec fn allows(self, next: RuntimeMode) -> bool {
        match (self, next) {
            (RuntimeMode::Deterministic, RuntimeMode::Pressured) => true,
            (RuntimeMode::Pressured, RuntimeMode::Defensive) => true,
            (RuntimeMode::Defensive, RuntimeMode::Pressured) => true,
            _ => false,
        }
    }

    /// Encodes the mode.
    pub fn to_u32(self) -> (value: u32)
        ensures
            value == self.code(),
            RuntimeMode::decode(value) == Some(self),
    {
        match self {
            RuntimeMode::Deterministic => 0,
            RuntimeMode::Pressured => 1,
            RuntimeMode::Defensive => 2,
        }
    }

    /// Decodes a mode; codes above 2 are rejected.
    pub fn try_from(value: u32) -> (decoded: Result<RuntimeMode, ()>)
        ensures
            decoded is Ok <==> value <= 2,
            decoded matches Ok(mode) ==> mode.code() == value,
            decoded.ok() == RuntimeMode::decode(value),
    {
        match value {
            0 => Ok(RuntimeMode::Deterministic),
            1 => Ok(RuntimeMode::Pressured),
            2 => Ok(RuntimeMode::Defensive),
            _ => Err(()),
        }
    }

    /// Whether a runtime in this mode yields without waiting for a hint.
    pub fn should_yield_eagerly(self) -> (eager: bool)
        ensures
            eager == (self == RuntimeMode::Defensive),
    {
        match self {
            RuntimeMode::Defensive => true,
            _ => false,
        }
    }

    /// Whether a runtime in this mode may move to `next`.
    pub fn can_transition_to(self, next: RuntimeMode) -> (valid: bool)
        ensures
            valid == self.allows(next),
    {
        match (self, next) {
            (RuntimeMode::Deterministic, RuntimeMode::Pressured) => true,
            (RuntimeMode::Pressured, RuntimeMode::Defensive) => true,
            (RuntimeMode::Defensive, RuntimeMode::Pressured) => true,
            _ => false,
        }
    }
}

/// How far the kernel scheduler goes.
#[derive(Clone, Copy, Debug, PartialEq, Eq, Structural)]
pub enum SchedulerMode {
    /// The scheduler records what it would do and leaves every worker alone.
    ObserverOnly,
    /// The scheduler hints and, where a worker allows it, escalates.
    Enforced,
}

impl SchedulerMode {
    /// The code of this mode.
    pub open spec fn code(self) -> u32 {
        match self {
            SchedulerMode::ObserverOnly => 0,
            SchedulerMode::Enforced => 1,
        }
    }

    /// The mode that owns `value`, if any.
    pub open spec fn decode(value: u32) -> Option<SchedulerMode> {
        if value == 0 {
            Some(SchedulerMode::ObserverOnly)
        } else if value == 1 {
            Some(SchedulerMode::Enforced)
        } else {
            None
        }
    }

    /// Encodes the mode.
    pub fn to_u32(self) -> (value: u32)
        ensures
            value == self.code(),
            SchedulerMode::decode(value) == Some(self),
    {
        match self {
            SchedulerMode::ObserverOnly => 0,
            SchedulerMode::Enforced => 1,
        }
    }

    /// Decodes a mode; codes above 1 are rejected.
    pub fn try_from(value: u32) -> (decoded: Result<SchedulerMode, ()>)
        ensures
            decoded is Ok <==> value <= 1,
            decoded matches Ok(mode) ==> mode.code() == value,
            decoded.ok() == SchedulerMode::decode(value),
    {
        match value {
            0 => Ok(SchedulerMode::ObserverOnly),
            1 => Ok(SchedulerMode::Enforced),
            _ => Err(()),
        }
    }
}

impl Default for SchedulerMode {
    /// A scheduler that nobody configured only observes.
    fn default() -> (mode: SchedulerMode)
        ensures
            mode == SchedulerMode::ObserverOnly,
    {
        SchedulerMode::ObserverOnly
    }
}

/// One record of the hint ring: the kernel asks the thread `target_tid` to
/// yield.
#[derive(Clone, Copy, Debug, PartialEq, Eq, Structural)]
pub struct MorpheusHint {
    /// The preempt sequence that this hint belongs to.
    pub seq: u64,
    /// A `HintReason` code.
    pub reason: u32,
    /// OS thread id of the worker that should yield.
    pub target_tid: u32,
    /// Deadline on the monotonic clock, in nanoseconds.
    pub deadline_ns: u64,
}

impl MorpheusHint {
    /// The reason of this hint, if its code is known.
    pub fn hint_reason(&self) -> (reason: Option<HintReason>)
        ensures
            reason == HintReason::decode(self.reason),
    {
        match HintReason::try_from(self.reason) {
            Ok(reason) => Some(reason),
            Err(_) => None,
        }
    }
}

} // verus!
