use std::sync::Arc;

use vstd::prelude::*;

use crate::adapters::clock::Clock;
use crate::adapters::device_locker::DeviceLockerError;
use crate::adapters::time_credit_storage::{GrantedTimeCredit, StorageError};
use crate::usecases::errors::{lock_failure, UseCaseError};

verus! {

/// Enforces the stored time credit on the device: a credit that still runs
/// unlocks the device and schedules the lock at its end, anything else locks
/// the device now. The lock-state notifier is told which of the two happened.
pub struct EnforceTimeCreditUseCase<DL, TC, C, LSN> {
    device_locker: Arc<DL>,
    time_credit_storage: Arc<TC>,
    clock: Arc<C>,
    lock_state_notifier: Arc<LSN>,
}

/// What the enforcement decided.
#[derive(PartialEq, Eq, Clone, Copy, Debug, Structural)]
pub enum TimeCreditPermission {
    Granted,
    Denied,
}

/// Where a run of [`EnforceTimeCreditUseCase`] stands. Every step but
/// `Finished` waits for the answer to exactly one port call.
#[derive(PartialEq, Eq, Clone, Copy, Debug)]
pub enum EnforceStep {
    /// The clock said `now`; the stored credit is being read.
    AwaitingCredit { now: u64 },
    /// The credit runs until `until`, after `now`: the device is being unlocked.
    AwaitingUnlock { now: u64, until: u64 },
    /// The device is unlocked: its lock is being scheduled at `until`.
    AwaitingSchedule { now: u64, until: u64 },
    /// The lock is scheduled: the observer is being told the device is unlocked.
    AwaitingUnlockedNotice { now: u64, until: u64 },
    /// `credit` does not run at `now`: the device is being locked.
    AwaitingLock { now: u64, credit: GrantedTimeCredit },
    /// The device is locked: the observer is being told so.
    AwaitingLockedNotice { now: u64, credit: GrantedTimeCredit },
    /// The run is over, with this outcome.
    Finished { outcome: Result<TimeCreditPermission, UseCaseError> },
}

/// The port call that a step waits for, or the outcome of a finished run.
#[derive(PartialEq, Eq, Clone, Copy, Debug)]
pub enum EnforceCommand {
    ReadGrantedUntil,
    UnlockNow,
    ScheduleLock { at: u64 },
    LockNow,
    NotifyUnlocked,
    NotifyLocked,
    Return { outcome: Result<TimeCreditPermission, UseCaseError> },
}

/// What a port answered.
#[derive(PartialEq, Eq, Clone, Copy, Debug)]
pub enum EnforceReply {
    /// Answer of the time credit storage to `ReadGrantedUntil`.
    GrantedUntil(Result<GrantedTimeCredit, StorageError>),
    /// Answer of the device locker to `UnlockNow`, `ScheduleLock` or `LockNow`.
    Device(Result<(), DeviceLockerError>),
    /// A notification was delivered (notifications cannot fail).
    Notified,
}

impl EnforceStep {
    /// The command that this step waits on.
    pub open spec fn pending(self) -> EnforceCommand {
        match self {
            EnforceStep::AwaitingCredit { .. } => EnforceCommand::ReadGrantedUntil,
            EnforceStep::AwaitingUnlock { .. } => EnforceCommand::UnlockNow,
            EnforceStep::AwaitingSchedule { until, .. } => EnforceCommand::ScheduleLock { at: until },
            EnforceStep::AwaitingUnlockedNotice { .. } => EnforceCommand::NotifyUnlocked,
            EnforceStep::AwaitingLock { .. } => EnforceCommand::LockNow,
            EnforceStep::AwaitingLockedNotice { .. } => EnforceCommand::NotifyLocked,
            EnforceStep::Finished { outcome } => EnforceCommand::Return { outcome },
        }
    }

    /// `reply` answers the command this step waits on.
    pub open spec fn fits(self, reply: EnforceReply) -> bool {
        match self {
            EnforceStep::AwaitingCredit { .. } => reply is GrantedUntil,
            EnforceStep::AwaitingUnlock { .. } => reply is Device,
            EnforceStep::AwaitingSchedule { .. } => reply is Device,
            EnforceStep::AwaitingLock { .. } => reply is Device,
            EnforceStep::AwaitingUnlockedNotice { .. } => reply is Notified,
            EnforceStep::AwaitingLockedNotice { .. } => reply is Notified,
            EnforceStep::Finished { .. } => false,
        }
    }

    /// The step reached when the pending command is answered by `reply`.
    /// A storage failure ends the run with `TimeCreditStorageFailure`, every
    /// device failure with `LockDeviceFailure`; a reply that does not fit
    /// leaves the step as it is.
    pub open spec fn after(self, reply: EnforceReply) -> EnforceStep {
        if !self.fits(reply) {
            self
        } else {
            match self {
                EnforceStep::AwaitingCredit { now } => match reply {
                    EnforceReply::GrantedUntil(Ok(credit)) => match credit {
                        GrantedTimeCredit::Until { time } => if now < time {
                            EnforceStep::AwaitingUnlock { now, until: time }
                        } else {
                            EnforceStep::AwaitingLock { now, credit }
                        },
                        GrantedTimeCredit::Denied => EnforceStep::AwaitingLock { now, credit },
                    },
                    _ => EnforceStep::Finished { outcome: Err(UseCaseError::TimeCreditStorageFailure) },
                },
                EnforceStep::AwaitingUnlock { now, until } => match reply {
                    EnforceReply::Device(Ok(())) => EnforceStep::AwaitingSchedule { now, until },
                    _ => EnforceStep::Finished { outcome: Err(UseCaseError::LockDeviceFailure) },
                },
                EnforceStep::AwaitingSchedule { now, until } => match reply {
                    EnforceReply::Device(Ok(())) => EnforceStep::AwaitingUnlockedNotice { now, until },
                    _ => EnforceStep::Finished { outcome: Err(UseCaseError::LockDeviceFailure) },
                },
                EnforceStep::AwaitingLock { now, credit } => match reply {
                    EnforceReply::Device(Ok(())) => EnforceStep::AwaitingLockedNotice { now, credit },
                    _ => EnforceStep::Finished { outcome: Err(UseCaseError::LockDeviceFailure) },
                },
                EnforceStep::AwaitingUnlockedNotice { .. } => EnforceStep::Finished {
                    outcome: Ok(TimeCreditPermission::Granted),
                },
                EnforceStep::AwaitingLockedNotice { .. } => EnforceStep::Finished {
                    outcome: Ok(TimeCreditPermission::Denied),
                },
                EnforceStep::Finished { .. } => self,
            }
        }
    }

    /// The command this step waits on.
    pub fn command(&self) -> (command: EnforceCommand)
        ensures
            command == self.pending(),
    {
        match *self {
            EnforceStep::AwaitingCredit { .. } => EnforceCommand::ReadGrantedUntil,
            EnforceStep::AwaitingUnlock { .. } => EnforceCommand::UnlockNow,
            EnforceStep::AwaitingSchedule { until, .. } => EnforceCommand::ScheduleLock { at: until },
            EnforceStep::AwaitingUnlockedNotice { .. } => EnforceCommand::NotifyUnlocked,
            EnforceStep::AwaitingLock { .. } => EnforceCommand::LockNow,
            EnforceStep::AwaitingLockedNotice { .. } => EnforceCommand::NotifyLocked,
            EnforceStep::Finished { outcome } => EnforceCommand::Return { outcome },
        }
    }

    /// Whether `reply` answers the command this step waits on.
    pub fn accepts(&self, reply: &EnforceReply) -> (fits: bool)
        ensures
            fits == self.fits(*reply),
    {
        match *self {
            EnforceStep::AwaitingCredit { .. } => matches!(*reply, EnforceReply::GrantedUntil(_)),
            EnforceStep::AwaitingUnlock { .. }
            | EnforceStep::AwaitingSchedule { .. }
            | EnforceStep::AwaitingLock { .. } => matches!(*reply, EnforceReply::Device(_)),
            EnforceStep::AwaitingUnlockedNotice { .. }
            | EnforceStep::AwaitingLockedNotice { .. } => matches!(*reply, EnforceReply::Notified),
            EnforceStep::Finished { .. } => false,
        }
    }

    /// Moves the run forward with the answer to the pending command.
    pub fn next(self, reply: EnforceReply) -> (step: EnforceStep)
        requires
            self.fits(reply),
        ensures
            step == self.after(reply),
    {
        match self {
            EnforceStep::AwaitingCredit { now } => match reply {
                EnforceReply::GrantedUntil(Ok(credit)) => match credit {
                    GrantedTimeCredit::Until { time } if now < time => EnforceStep::AwaitingUnlock {
                        now,
                        until: time,
                    },
                    _ => EnforceStep::AwaitingLock { now, credit },
                },
                EnforceReply::GrantedUntil(Err(_)) => EnforceStep::Finished {
                    outcome: Err(UseCaseError::TimeCreditStorageFailure),
                },
                _ => self,
            },
            EnforceStep::AwaitingUnlock { now, until } => match reply {
                EnforceReply::Device(Ok(())) => EnforceStep::AwaitingSchedule { now, until },
                EnforceReply::Device(Err(e)) => EnforceStep::Finished {
                    outcome: Err(lock_failure(e)),
                },
                _ => self,
            },
            EnforceStep::AwaitingSchedule { now, until } => match reply {
                EnforceReply::Device(Ok(())) => EnforceStep::AwaitingUnlockedNotice { now, until },
                EnforceReply::Device(Err(e)) => EnforceStep::Finished {
                    outcome: Err(lock_failure(e)),
                },
                _ => self,
            },
            EnforceStep::AwaitingLock { now, credit } => match reply {
                EnforceReply::Device(Ok(())) => EnforceStep::AwaitingLockedNotice { now, credit },
                EnforceReply::Device(Err(e)) => EnforceStep::Finished {
                    outcome: Err(lock_failure(e)),
                },
                _ => self,
            },
            EnforceStep::AwaitingUnlockedNotice { .. } => EnforceStep::Finished {
                outcome: Ok(TimeCreditPermission::Granted),
            },
            EnforceStep::AwaitingLockedNotice { .. } => EnforceStep::Finished {
                outcome: Ok(TimeCreditPermission::Denied),
            },
            EnforceStep::Finished { .. } => self,
        }
    }
}

impl<DL, TC, C, LSN> EnforceTimeCreditUseCase<DL, TC, C, LSN> {
    pub closed spec fn locker(&self) -> Arc<DL> {
        self.device_locker
    }

    pub closed spec fn storage(&self) -> Arc<TC> {
        self.time_credit_storage
    }

    pub closed spec fn time_source(&self) -> Arc<C> {
        self.clock
    }

    pub closed spec fn notifier(&self) -> Arc<LSN> {
        self.lock_state_notifier
    }

    pub fn new(
        device_locker: Arc<DL>,
        time_credit_storage: Arc<TC>,
        clock: Arc<C>,
        lock_state_notifier: Arc<LSN>,
    ) -> (use_case: Self)
        ensures
            use_case.locker() == device_locker,
            use_case.storage() == time_credit_storage,
            use_case.time_source() == clock,
            use_case.notifier() == lock_state_notifier,
    {
        EnforceTimeCreditUseCase { device_locker, time_credit_storage, clock, lock_state_notifier }
    }

    /// The port that locks, unlocks and schedules the lock of the device.
    pub fn device_locker(&self) -> (port: &Arc<DL>)
        ensures
            *port == self.locker(),
    {
        &self.device_locker
    }

    /// The port that holds the granted time credit.
    pub fn time_credit_storage(&self) -> (port: &Arc<TC>)
        ensures
            *port == self.storage(),
    {
        &self.time_credit_storage
    }

    /// The port told of the lock state that the run decided.
    pub fn lock_state_notifier(&self) -> (port: &Arc<LSN>)
        ensures
            *port == self.notifier(),
    {
        &self.lock_state_notifier
    }
}

impl<DL, TC, C: Clock, LSN> EnforceTimeCreditUseCase<DL, TC, C, LSN> {
    /// Starts a run: reads the clock once, then waits for the stored credit.
    /// The instant is one that the clock's `now` may answer.
    pub fn start(&self) -> (step: EnforceStep)
        ensures
            step matches EnforceStep::AwaitingCredit { now } && call_ensures(
                C::now,
                (&*self.time_source(),),
                now,
            ),
    {
        let now = self.clock.now();
        EnforceStep::AwaitingCredit { now }
    }
}

/// The steps that a run goes through from `step` when the ports answer
/// `replies` in order. The run stops at the first reply that does not fit
/// (a finished run fits none).
pub open spec fn enforce_trace(step: EnforceStep, replies: Seq<EnforceReply>) -> Seq<EnforceStep>
    decreases replies.len(),
{
    if replies.len() > 0 && step.fits(replies[0]) {
        seq![step] + enforce_trace(step.after(replies[0]), replies.drop_first())
    } else {
        seq![step]
    }
}

/// The commands that such a run issues, in order; the last one is what the
/// run waits on when the replies run out.
pub open spec fn enforce_commands(step: EnforceStep, replies: Seq<EnforceReply>) -> Seq<EnforceCommand> {
    enforce_trace(step, replies).map_values(|s: EnforceStep| s.pending())
}

/// Steps of a run that found a credit running at `now` until `until`.
spec fn on_unlock_branch(s: EnforceStep, now: u64, until: u64) -> bool {
    &&& now < until
    &&& match s {
        EnforceStep::AwaitingUnlock { now: n, until: u } => n == now && u == until,
        EnforceStep::AwaitingSchedule { now: n, until: u } => n == now && u == until,
        EnforceStep::AwaitingUnlockedNotice { now: n, until: u } => n == now && u == until,
        EnforceStep::Finished { outcome } => outcome == Ok::<TimeCreditPermission, UseCaseError>(
            TimeCreditPermission::Granted,
        ) || outcome == Err::<TimeCreditPermission, UseCaseError>(UseCaseError::LockDeviceFailure),
        _ => false,
    }
}

/// Steps of a run that found `credit`, which does not run at `now`.
spec fn on_lock_branch(s: EnforceStep, now: u64, credit: GrantedTimeCredit) -> bool {
    &&& !credit.is_live_at(now)
    &&& match s {
        EnforceStep::AwaitingLock { now: n, credit: c } => n == now && c == credit,
        EnforceStep::AwaitingLockedNotice { now: n, credit: c } => n == now && c == credit,
        EnforceStep::Finished { outcome } => outcome == Ok::<TimeCreditPermission, UseCaseError>(
            TimeCreditPermission::Denied,
        ) || outcome == Err::<TimeCreditPermission, UseCaseError>(UseCaseError::LockDeviceFailure),
        _ => false,
    }
}

/// Each step of a trace is the previous one moved by the matching reply.
proof fn lemma_trace_shape(step: EnforceStep, replies: Seq<EnforceReply>)
    ensures
        enforce_trace(step, replies).len() >= 1,
        enforce_trace(step, replies).len() <= replies.len() + 1,
        enforce_trace(step, replies)[0] == step,
        forall|i: int|
            0 <= i < enforce_trace(step, replies).len() - 1 ==> {
                &&& (#[trigger] enforce_trace(step, replies)[i]).fits(replies[i])
                &&& enforce_trace(step, replies)[i + 1] == enforce_trace(step, replies)[i].after(
                    replies[i],
                )
            },
    decreases replies.len(),
{
    if replies.len() > 0 && step.fits(replies[0]) {
        let rest = replies.drop_first();
        let next = step.after(replies[0]);
        lemma_trace_shape(next, rest);
        let t = enforce_trace(step, replies);
        let tr = enforce_trace(next, rest);
        assert(t == seq![step] + tr);
        assert forall|i: int| 0 <= i < t.len() - 1 implies {
            &&& (#[trigger] t[i]).fits(replies[i])
            &&& t[i + 1] == t[i].after(replies[i])
        } by {
            if i > 0 {
                assert(t[i] == tr[i - 1]);
                assert(t[i + 1] == tr[i]);
                assert(replies[i] == rest[i - 1]);
            }
        }
    }
}

proof fn lemma_unlock_branch_stays(s: EnforceStep, now: u64, until: u64, replies: Seq<EnforceReply>)
    requires
        on_unlock_branch(s, now, until),
    ensures
        forall|i: int|
            0 <= i < enforce_trace(s, replies).len() ==> on_unlock_branch(
                #[trigger] enforce_trace(s, replies)[i],
                now,
                until,
            ),
    decreases replies.len(),
{
    if replies.len() > 0 && s.fits(replies[0]) {
        let rest = replies.drop_first();
        let next = s.after(replies[0]);
        lemma_unlock_branch_stays(next, now, until, rest);
        let t = enforce_trace(s, replies);
        let tr = enforce_trace(next, rest);
        assert(t == seq![s] + tr);
        assert forall|i: int| 0 <= i < t.len() implies on_unlock_branch(#[trigger] t[i], now, until) by {
            if i > 0 {
                assert(t[i] == tr[i - 1]);
            }
        }
    }
}

proof fn lemma_lock_branch_stays(
    s: EnforceStep,
    now: u64,
    credit: GrantedTimeCredit,
    replies: Seq<EnforceReply>,
)
    requires
        on_lock_branch(s, now, credit),
    ensures
        forall|i: int|
            0 <= i < enforce_trace(s, replies).len() ==> on_lock_branch(
                #[trigger] enforce_trace(s, replies)[i],
                now,
                credit,
            ),
    decreases replies.len(),
{
    if replies.len() > 0 && s.fits(replies[0]) {
        let rest = replies.drop_first();
        let next = s.after(replies[0]);
        lemma_lock_branch_stays(next, now, credit, rest);
        let t = enforce_trace(s, replies);
        let tr = enforce_trace(next, rest);
        assert(t == seq![s] + tr);
        assert forall|i: int| 0 <= i < t.len() implies on_lock_branch(#[trigger] t[i], now, credit) by {
            if i > 0 {
                assert(t[i] == tr[i - 1]);
            }
        }
    }
}

/// The device is unlocked, its lock scheduled, and the observer told it is
/// unlocked, only when the storage answered a credit that still runs at the
/// instant the clock gave; the lock is scheduled exactly at the credit's end.
pub proof fn law_enforce_unlocks_only_on_live_credit(now: u64, replies: Seq<EnforceReply>)
    ensures
        forall|i: int|
            0 <= i < enforce_commands(EnforceStep::AwaitingCredit { now }, replies).len() ==> {
                let c = #[trigger] enforce_commands(EnforceStep::AwaitingCredit { now }, replies)[i];
                &&& (c is UnlockNow || c is NotifyUnlocked) ==> (
                replies[0] matches EnforceReply::GrantedUntil(Ok(credit)) && credit.is_live_at(now))
                &&& c matches EnforceCommand::ScheduleLock { at } ==> (replies[0]
                    == EnforceReply::GrantedUntil(Ok(GrantedTimeCredit::Until { time: at })) && now
                    < at)
            },
{
    let start = EnforceStep::AwaitingCredit { now };
    let t = enforce_trace(start, replies);
    lemma_trace_shape(start, replies);
    if replies.len() > 0 && start.fits(replies[0]) {
        let next = start.after(replies[0]);
        let rest = replies.drop_first();
        assert(t == seq![start] + enforce_trace(next, rest));
        match next {
            EnforceStep::AwaitingUnlock { now: n, until } => {
                lemma_unlock_branch_stays(next, now, until, rest);
            },
            EnforceStep::AwaitingLock { now: n, credit } => {
                lemma_lock_branch_stays(next, now, credit, rest);
            },
            _ => {},
        }
        assert forall|i: int| 0 <= i < t.len() implies {
            let c = #[trigger] t[i].pending();
            &&& (c is UnlockNow || c is NotifyUnlocked) ==> (
            replies[0] matches EnforceReply::GrantedUntil(Ok(credit)) && credit.is_live_at(now))
            &&& c matches EnforceCommand::ScheduleLock { at } ==> (replies[0]
                == EnforceReply::GrantedUntil(Ok(GrantedTimeCredit::Until { time: at })) && now
                < at)
        } by {
            if i > 0 {
                assert(t[i] == enforce_trace(next, rest)[i - 1]);
            }
        }
    }
    assert(enforce_commands(start, replies) =~= t.map_values(|s: EnforceStep| s.pending()));
}

/// The device is locked, and the observer told it is locked, only when the
/// storage answered that no credit runs at the instant the clock gave.
pub proof fn law_enforce_locks_only_without_live_credit(now: u64, replies: Seq<EnforceReply>)
    ensures
        forall|i: int|
            0 <= i < enforce_commands(EnforceStep::AwaitingCredit { now }, replies).len() ==> {
                let c = #[trigger] enforce_commands(EnforceStep::AwaitingCredit { now }, replies)[i];
                (c is LockNow || c is NotifyLocked) ==> (
                replies[0] matches EnforceReply::GrantedUntil(Ok(credit)) && !credit.is_live_at(now))
            },
{
    let start = EnforceStep::AwaitingCredit { now };
    let t = enforce_trace(start, replies);
    lemma_trace_shape(start, replies);
    if replies.len() > 0 && start.fits(replies[0]) {
        let next = start.after(replies[0]);
        let rest = replies.drop_first();
        assert(t == seq![start] + enforce_trace(next, rest));
        match next {
            EnforceStep::AwaitingUnlock { now: n, until } => {
                lemma_unlock_branch_stays(next, now, until, rest);
            },
            EnforceStep::AwaitingLock { now: n, credit } => {
                lemma_lock_branch_stays(next, now, credit, rest);
            },
            _ => {},
        }
        assert forall|i: int| 0 <= i < t.len() implies {
            let c = #[trigger] t[i].pending();
            (c is LockNow || c is NotifyLocked) ==> (
            replies[0] matches EnforceReply::GrantedUntil(Ok(credit)) && !credit.is_live_at(now))
        } by {
            if i > 0 {
                assert(t[i] == enforce_trace(next, rest)[i - 1]);
            }
        }
    }
    assert(enforce_commands(start, replies) =~= t.map_values(|s: EnforceStep| s.pending()));
}

/// How many more port answers a step can take before the run finishes.
pub open spec fn enforce_calls_left(s: EnforceStep) -> nat {
    match s {
        EnforceStep::AwaitingCredit { .. } => 4,
        EnforceStep::AwaitingUnlock { .. } => 3,
        EnforceStep::AwaitingSchedule { .. } => 2,
        EnforceStep::AwaitingUnlockedNotice { .. } => 1,
        EnforceStep::AwaitingLock { .. } => 2,
        EnforceStep::AwaitingLockedNotice { .. } => 1,
        EnforceStep::Finished { .. } => 0,
    }
}

/// Every answer moves the run strictly closer to its end, and a step that can
/// take no more answers is a finished run: a run ends after at most four port
/// answers, whatever they are.
pub proof fn law_enforce_runs_end(step: EnforceStep, reply: EnforceReply, replies: Seq<EnforceReply>)
    ensures
        step.fits(reply) ==> enforce_calls_left(step.after(reply)) < enforce_calls_left(step),
        enforce_calls_left(step) == 0 <==> step is Finished,
        enforce_trace(step, replies).len() <= enforce_calls_left(step) + 1,
    decreases replies.len(),
{
    if replies.len() > 0 && step.fits(replies[0]) {
        law_enforce_runs_end(step.after(replies[0]), reply, replies.drop_first());
    }
}

/// The outcome of a finished run agrees with what the observer was told: a
/// granted run told it "unlocked" and never "locked", a denied run the
/// reverse, and a failed run told it nothing. A run fails with
/// `TimeCreditStorageFailure` exactly when the stored credit could not be
/// read, and with `LockDeviceFailure` otherwise.
pub proof fn law_enforce_notice_matches_outcome(now: u64, replies: Seq<EnforceReply>)
    ensures
        ({
            let t = enforce_trace(EnforceStep::AwaitingCredit { now }, replies);
            let cmds = enforce_commands(EnforceStep::AwaitingCredit { now }, replies);
            t.last() matches EnforceStep::Finished { outcome } ==> {
                &&& outcome == Ok::<TimeCreditPermission, UseCaseError>(TimeCreditPermission::Granted)
                    ==> cmds.contains(EnforceCommand::NotifyUnlocked) && !cmds.contains(
                    EnforceCommand::NotifyLocked,
                )
                &&& outcome == Ok::<TimeCreditPermission, UseCaseError>(TimeCreditPermission::Denied)
                    ==> cmds.contains(EnforceCommand::NotifyLocked) && !cmds.contains(
                    EnforceCommand::NotifyUnlocked,
                )
                &&& outcome == Err::<TimeCreditPermission, UseCaseError>(
                    UseCaseError::TimeCreditStorageFailure,
                ) <==> (replies[0] matches EnforceReply::GrantedUntil(Err(_)))
                &&& outcome is Err ==> {
                    &&& (outcome == Err::<TimeCreditPermission, UseCaseError>(
                        UseCaseError::LockDeviceFailure,
                    ) || outcome == Err::<TimeCreditPermission, UseCaseError>(
                        UseCaseError::TimeCreditStorageFailure,
                    ))
                    &&& !cmds.contains(EnforceCommand::NotifyUnlocked)
                    &&& !cmds.contains(EnforceCommand::NotifyLocked)
                }
            }
        }),
{
    let start = EnforceStep::AwaitingCredit { now };
    let t = enforce_trace(start, replies);
    let cmds = enforce_commands(start, replies);
    lemma_trace_shape(start, replies);
    assert(cmds =~= t.map_values(|s: EnforceStep| s.pending()));
    let k = t.len() - 1;
    if t[k] is Finished {
        // the start is not finished, so the run took at least one answer
        assert(k >= 1);
        let next = t[1];
        let rest = replies.drop_first();
        assert(t == seq![start] + enforce_trace(next, rest));
        match next {
            EnforceStep::AwaitingUnlock { now: n, until } => {
                lemma_unlock_branch_stays(next, now, until, rest);
                assert forall|i: int| 0 <= i < t.len() implies on_unlock_branch(#[trigger] t[i], now, until) || i == 0 by {
                    if i > 0 {
                        assert(t[i] == enforce_trace(next, rest)[i - 1]);
                    }
                }
            },
            EnforceStep::AwaitingLock { now: n, credit } => {
                lemma_lock_branch_stays(next, now, credit, rest);
                assert forall|i: int| 0 <= i < t.len() implies on_lock_branch(#[trigger] t[i], now, credit) || i == 0 by {
                    if i > 0 {
                        assert(t[i] == enforce_trace(next, rest)[i - 1]);
                    }
                }
            },
            _ => {
                // the credit could not be read: the run stops right there
                if k > 1 {
                    assert(t[1].fits(replies[1]));
                }
            },
        }
        // a notice step is always followed by the last, successful, step
        assert forall|j: int| 0 <= j < k && (#[trigger] t[j] is AwaitingUnlockedNotice || t[j] is AwaitingLockedNotice) implies j == k - 1 && t[k]->outcome is Ok by {
            assert(t[j + 1] == t[j].after(replies[j]));
            if j + 1 < k {
                assert(t[j + 1].fits(replies[j + 1]));
            }
        }
        let outcome = t[k]->outcome;
        assert(t[k] == t[k - 1].after(replies[k - 1]));
        if outcome == Ok::<TimeCreditPermission, UseCaseError>(TimeCreditPermission::Granted) {
            assert(t[k - 1] is AwaitingUnlockedNotice);
            assert(cmds[k - 1] == EnforceCommand::NotifyUnlocked);
        }
        if outcome == Ok::<TimeCreditPermission, UseCaseError>(TimeCreditPermission::Denied) {
            assert(t[k - 1] is AwaitingLockedNotice);
            assert(cmds[k - 1] == EnforceCommand::NotifyLocked);
        }
        assert forall|i: int| 0 <= i < cmds.len() implies {
            &&& (#[trigger] cmds[i] == EnforceCommand::NotifyUnlocked) ==> outcome
                == Ok::<TimeCreditPermission, UseCaseError>(TimeCreditPermission::Granted)
            &&& cmds[i] == EnforceCommand::NotifyLocked ==> outcome
                == Ok::<TimeCreditPermission, UseCaseError>(TimeCreditPermission::Denied)
        } by {
            assert(cmds[i] == t[i].pending());
            if i < k && cmds[i] == EnforceCommand::NotifyUnlocked {
                assert(t[i] is AwaitingUnlockedNotice);
                assert(t[k] == t[i].after(replies[i]));
            }
            if i < k && cmds[i] == EnforceCommand::NotifyLocked {
                assert(t[i] is AwaitingLockedNotice);
                assert(t[k] == t[i].after(replies[i]));
            }
        }
    }
}

/// When every port succeeds, a run reads the credit and then either unlocks
/// the device, schedules its lock at the credit's end and tells the observer
/// it is unlocked, returning `Granted` (the credit still runs), or locks the
/// device now and tells the observer it is locked, returning `Denied`.
pub proof fn law_enforce_when_ports_succeed(now: u64, credit: GrantedTimeCredit)
    ensures
        credit.is_live_at(now) ==> enforce_commands(
            EnforceStep::AwaitingCredit { now },
            seq![
                EnforceReply::GrantedUntil(Ok(credit)),
                EnforceReply::Device(Ok(())),
                EnforceReply::Device(Ok(())),
                EnforceReply::Notified,
            ],
        ) == seq![
            EnforceCommand::ReadGrantedUntil,
            EnforceCommand::UnlockNow,
            EnforceCommand::ScheduleLock { at: credit->time },
            EnforceCommand::NotifyUnlocked,
            EnforceCommand::Return { outcome: Ok(TimeCreditPermission::Granted) },
        ],
        !credit.is_live_at(now) ==> enforce_commands(
            EnforceStep::AwaitingCredit { now },
            seq![
                EnforceReply::GrantedUntil(Ok(credit)),
                EnforceReply::Device(Ok(())),
                EnforceReply::Notified,
            ],
        ) == seq![
            EnforceCommand::ReadGrantedUntil,
            EnforceCommand::LockNow,
            EnforceCommand::NotifyLocked,
            EnforceCommand::Return { outcome: Ok(TimeCreditPermission::Denied) },
        ],
{
    reveal_with_fuel(enforce_trace, 5);
    let start = EnforceStep::AwaitingCredit { now };
    if credit.is_live_at(now) {
        let rs = seq![
            EnforceReply::GrantedUntil(Ok(credit)),
            EnforceReply::Device(Ok(())),
            EnforceReply::Device(Ok(())),
            EnforceReply::Notified,
        ];
        let s1 = start.after(rs[0]);
        let s2 = s1.after(rs[1]);
        let s3 = s2.after(rs[2]);
        let s4 = s3.after(rs[3]);
        assert(rs.drop_first() =~= seq![rs[1], rs[2], rs[3]]);
        assert(rs.drop_first().drop_first() =~= seq![rs[2], rs[3]]);
        assert(rs.drop_first().drop_first().drop_first() =~= seq![rs[3]]);
        assert(rs.drop_first().drop_first().drop_first().drop_first() =~= Seq::<EnforceReply>::empty());
        assert(enforce_trace(start, rs) =~= seq![start, s1, s2, s3, s4]);
        assert(enforce_commands(start, rs) =~= seq![
            start.pending(),
            s1.pending(),
            s2.pending(),
            s3.pending(),
            s4.pending(),
        ]);
    } else {
        let rs = seq![
            EnforceReply::GrantedUntil(Ok(credit)),
            EnforceReply::Device(Ok(())),
            EnforceReply::Notified,
        ];
        let s1 = start.after(rs[0]);
        let s2 = s1.after(rs[1]);
        let s3 = s2.after(rs[2]);
        assert(rs.drop_first() =~= seq![rs[1], rs[2]]);
        assert(rs.drop_first().drop_first() =~= seq![rs[2]]);
        assert(rs.drop_first().drop_first().drop_first() =~= Seq::<EnforceReply>::empty());
        assert(enforce_trace(start, rs) =~= seq![start, s1, s2, s3]);
        assert(enforce_commands(start, rs) =~= seq![
            start.pending(),
            s1.pending(),
            s2.pending(),
            s3.pending(),
        ]);
    }
}

/// When the storage cannot be read, the run ends at once with
/// `TimeCreditStorageFailure`: the device is neither locked nor unlocked and the
/// observer is told nothing, whatever the ports would answer next.
pub proof fn law_enforce_storage_failure(now: u64, error: StorageError, replies: Seq<EnforceReply>)
    requires
        replies.len() > 0,
        replies[0] == EnforceReply::GrantedUntil(Err(error)),
    ensures
        enforce_commands(EnforceStep::AwaitingCredit { now }, replies) == seq![
            EnforceCommand::ReadGrantedUntil,
            EnforceCommand::Return { outcome: Err(UseCaseError::TimeCreditStorageFailure) },
        ],
{
    reveal_with_fuel(enforce_trace, 2);
    let start = EnforceStep::AwaitingCredit { now };
    let s1 = start.after(replies[0]);
    assert(enforce_trace(s1, replies.drop_first()) =~= seq![s1]);
    assert(enforce_trace(start, replies) =~= seq![start, s1]);
    assert(enforce_commands(start, replies) =~= seq![start.pending(), s1.pending()]);
}

/// Any failure of the device locker, whether it was asked to unlock, to
/// schedule the lock or to lock, ends the run at once with
/// `LockDeviceFailure`: the step that took the failure is the last but one,
/// nothing follows the failed run, and the observer is never told that the
/// device is unlocked or locked.
pub proof fn law_enforce_device_failure_ends_run(
    step: EnforceStep,
    error: DeviceLockerError,
    now: u64,
    replies: Seq<EnforceReply>,
    i: int,
)
    ensures
        step.fits(EnforceReply::Device(Err(error))) ==> step.after(EnforceReply::Device(Err(error)))
            == (EnforceStep::Finished { outcome: Err(UseCaseError::LockDeviceFailure) }),
        ({
            let t = enforce_trace(EnforceStep::AwaitingCredit { now }, replies);
            let cmds = enforce_commands(EnforceStep::AwaitingCredit { now }, replies);
            (0 <= i < t.len() - 1 && replies[i] == EnforceReply::Device(Err(error))) ==> {
                &&& t.len() == i + 2
                &&& t.last() == (EnforceStep::Finished { outcome: Err(UseCaseError::LockDeviceFailure) })
                &&& !cmds.contains(EnforceCommand::NotifyUnlocked)
                &&& !cmds.contains(EnforceCommand::NotifyLocked)
            }
        }),
{
    let start = EnforceStep::AwaitingCredit { now };
    let t = enforce_trace(start, replies);
    lemma_trace_shape(start, replies);
    law_enforce_notice_matches_outcome(now, replies);
    if 0 <= i < t.len() - 1 && replies[i] == EnforceReply::Device(Err(error)) {
        assert(t[i].fits(replies[i]));
        assert(t[i + 1] == t[i].after(replies[i]));
        if i + 2 < t.len() {
            assert(t[i + 1].fits(replies[i + 1]));
        }
    }
}

} // verus!
