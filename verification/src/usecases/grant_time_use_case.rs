use std::sync::Arc;
use std::time::Duration;

use vstd::prelude::*;

use crate::adapters::clock::Clock;
use crate::adapters::device_locker::DeviceLockerError;
use crate::adapters::time_credit_storage::{StorageError, TimeCredit};
use crate::duration::{duration_as_secs, duration_whole_secs};
use crate::usecases::errors::UseCaseError;

verus! {

/// Grants unlocked time: once the PIN is accepted, a credit running from now
/// for the requested duration is stored and the device is unlocked.
pub struct GrantTimeUseCase<S, C, PV, DL> {
    time_storage: Arc<S>,
    clock: Arc<C>,
    pin_validator: Arc<PV>,
    device_locker: Arc<DL>,
}

/// What a grant asks for: how long to unlock the device, and the PIN.
pub struct GrantTimeArgs {
    pub duration: Duration,
    pub pin: u8,
}

/// Where a run of [`GrantTimeUseCase`] stands. Every step but `Finished`
/// waits for the answer to exactly one port call.
#[derive(PartialEq, Eq, Clone, Copy, Debug)]
pub enum GrantStep {
    /// The clock said `now`, `secs` seconds are asked for: `pin` is being checked.
    AwaitingPin { now: u64, secs: u64, pin: u8 },
    /// The PIN was accepted: `credit` is being stored.
    AwaitingGrant { credit: TimeCredit },
    /// `credit` is stored: the device is being unlocked.
    AwaitingUnlock { credit: TimeCredit },
    /// The run is over, with this outcome.
    Finished { outcome: Result<(), UseCaseError> },
}

/// The port call that a step waits for, or the outcome of a finished run.
#[derive(PartialEq, Eq, Clone, Copy, Debug)]
pub enum GrantCommand {
    ValidatePin { pin: u8 },
    Grant { credit: TimeCredit },
    UnlockNow,
    Return { outcome: Result<(), UseCaseError> },
}

/// What a port answered.
#[derive(PartialEq, Eq, Clone, Copy, Debug)]
pub enum GrantReply {
    /// Answer of the PIN validator to `ValidatePin`.
    PinChecked(bool),
    /// Answer of the time credit storage to `Grant`.
    Stored(Result<(), StorageError>),
    /// Answer of the device locker to `UnlockNow`.
    Device(Result<(), DeviceLockerError>),
}

impl GrantStep {
    /// The command that this step waits on.
    pub open spec fn pending(self) -> GrantCommand {
        match self {
            GrantStep::AwaitingPin { pin, .. } => GrantCommand::ValidatePin { pin },
            GrantStep::AwaitingGrant { credit } => GrantCommand::Grant { credit },
            GrantStep::AwaitingUnlock { .. } => GrantCommand::UnlockNow,
            GrantStep::Finished { outcome } => GrantCommand::Return { outcome },
        }
    }

    /// `reply` answers the command this step waits on.
    pub open spec fn fits(self, reply: GrantReply) -> bool {
        match self {
            GrantStep::AwaitingPin { .. } => reply is PinChecked,
            GrantStep::AwaitingGrant { .. } => reply is Stored,
            GrantStep::AwaitingUnlock { .. } => reply is Device,
            GrantStep::Finished { .. } => false,
        }
    }

    /// Accepting the PIN would make the credit's end overflow `u64`: the end
    /// `now + secs` is then not representable (the addition panics).
    pub open spec fn end_overflows(self, reply: GrantReply) -> bool {
        &&& self matches GrantStep::AwaitingPin { now, secs, .. }
        &&& reply == GrantReply::PinChecked(true)
        &&& now + secs > u64::MAX
    }

    /// The step reached when the pending command is answered by `reply`. A
    /// rejected PIN, a storage failure and a device failure each end the run
    /// with their own error; a reply that does not fit leaves the step as it is.
    pub open spec fn after(self, reply: GrantReply) -> GrantStep {
        if !self.fits(reply) {
            self
        } else {
            match self {
                GrantStep::AwaitingPin { now, secs, .. } => match reply {
                    GrantReply::PinChecked(true) => GrantStep::AwaitingGrant {
                        credit: TimeCredit { start: now, end: (now + secs) as u64 },
                    },
                    _ => GrantStep::Finished { outcome: Err(UseCaseError::PinValidationFailure) },
                },
                GrantStep::AwaitingGrant { credit } => match reply {
                    GrantReply::Stored(Ok(())) => GrantStep::AwaitingUnlock { credit },
                    _ => GrantStep::Finished { outcome: Err(UseCaseError::TimeCreditStorageFailure) },
                },
                GrantStep::AwaitingUnlock { .. } => match reply {
                    GrantReply::Device(Ok(())) => GrantStep::Finished { outcome: Ok(()) },
                    _ => GrantStep::Finished { outcome: Err(UseCaseError::LockDeviceFailure) },
                },
                GrantStep::Finished { .. } => self,
            }
        }
    }

    /// The command this step waits on.
    pub fn command(&self) -> (command: GrantCommand)
        ensures
            command == self.pending(),
    {
        match *self {
            GrantStep::AwaitingPin { pin, .. } => GrantCommand::ValidatePin { pin },
            GrantStep::AwaitingGrant { credit } => GrantCommand::Grant { credit },
            GrantStep::AwaitingUnlock { .. } => GrantCommand::UnlockNow,
            GrantStep::Finished { outcome } => GrantCommand::Return { outcome },
        }
    }

    /// Whether `reply` answers the command this step waits on.
    pub fn accepts(&self, reply: &GrantReply) -> (fits: bool)
        ensures
            fits == self.fits(*reply),
    {
        match *self {
            GrantStep::AwaitingPin { .. } => matches!(*reply, GrantReply::PinChecked(_)),
            GrantStep::AwaitingGrant { .. } => matches!(*reply, GrantReply::Stored(_)),
            GrantStep::AwaitingUnlock { .. } => matches!(*reply, GrantReply::Device(_)),
            GrantStep::Finished { .. } => false,
        }
    }

    /// Whether accepting the PIN with `reply` would overflow the credit's end.
    pub fn overflows_with(&self, reply: &GrantReply) -> (overflows: bool)
        ensures
            overflows == self.end_overflows(*reply),
    {
        match *self {
            GrantStep::AwaitingPin { now, secs, .. } => {
                matches!(*reply, GrantReply::PinChecked(true)) && now > u64::MAX - secs
            },
            _ => false,
        }
    }

    /// Moves the run forward with the answer to the pending command.
    pub fn next(self, reply: GrantReply) -> (step: GrantStep)
        requires
            self.fits(reply),
            !self.end_overflows(reply),
        ensures
            step == self.after(reply),
    {
        match self {
            GrantStep::AwaitingPin { now, secs, .. } => match reply {
                GrantReply::PinChecked(true) => GrantStep::AwaitingGrant {
                    credit: TimeCredit { start: now, end: now + secs },
                },
                _ => GrantStep::Finished { outcome: Err(UseCaseError::PinValidationFailure) },
            },
            GrantStep::AwaitingGrant { credit } => match reply {
                GrantReply::Stored(Ok(())) => GrantStep::AwaitingUnlock { credit },
                _ => GrantStep::Finished { outcome: Err(UseCaseError::TimeCreditStorageFailure) },
            },
            GrantStep::AwaitingUnlock { .. } => match reply {
                GrantReply::Device(Ok(())) => GrantStep::Finished { outcome: Ok(()) },
                _ => GrantStep::Finished { outcome: Err(UseCaseError::LockDeviceFailure) },
            },
            GrantStep::Finished { .. } => self,
        }
    }
}

impl<S, C, PV, DL> GrantTimeUseCase<S, C, PV, DL> {
    pub closed spec fn storage(&self) -> Arc<S> {
        self.time_storage
    }

    pub closed spec fn time_source(&self) -> Arc<C> {
        self.clock
    }

    pub closed spec fn validator(&self) -> Arc<PV> {
        self.pin_validator
    }

    pub closed spec fn locker(&self) -> Arc<DL> {
        self.device_locker
    }

    pub fn new(time_storage: Arc<S>, clock: Arc<C>, pin_validator: Arc<PV>, device_locker: Arc<DL>) -> (use_case: Self)
        ensures
            use_case.storage() == time_storage,
            use_case.time_source() == clock,
            use_case.validator() == pin_validator,
            use_case.locker() == device_locker,
    {
        GrantTimeUseCase { time_storage, clock, pin_validator, device_locker }
    }

    /// The port that holds the granted time credit.
    pub fn time_storage(&self) -> (port: &Arc<S>)
        ensures
            *port == self.storage(),
    {
        &self.time_storage
    }

    /// The port that checks the PIN.
    pub fn pin_validator(&self) -> (port: &Arc<PV>)
        ensures
            *port == self.validator(),
    {
        &self.pin_validator
    }

    /// The port that unlocks the device.
    pub fn device_locker(&self) -> (port: &Arc<DL>)
        ensures
            *port == self.locker(),
    {
        &self.device_locker
    }
}

impl<S, C: Clock, PV, DL> GrantTimeUseCase<S, C, PV, DL> {
    /// Starts a run: reads the clock once, then waits for the PIN check. The
    /// instant is one that the clock's `now` may answer.
    pub fn start(&self, args: GrantTimeArgs) -> (step: GrantStep)
        ensures
            step matches GrantStep::AwaitingPin { now, secs, pin } && {
                &&& call_ensures(C::now, (&*self.time_source(),), now)
                &&& secs == duration_whole_secs(args.duration)
                &&& pin == args.pin
            },
    {
        let now = self.clock.now();
        let secs = duration_as_secs(&args.duration);
        GrantStep::AwaitingPin { now, secs, pin: args.pin }
    }
}

/// The steps that a run goes through from `step` when the ports answer
/// `replies` in order. The run stops at the first reply that does not fit
/// (a finished run fits none).
pub open spec fn grant_trace(step: GrantStep, replies: Seq<GrantReply>) -> Seq<GrantStep>
    decreases replies.len(),
{
    if replies.len() > 0 && step.fits(replies[0]) {
        seq![step] + grant_trace(step.after(replies[0]), replies.drop_first())
    } else {
        seq![step]
    }
}

/// The commands that such a run issues, in order; the last one is what the
/// run waits on when the replies run out.
pub open spec fn grant_commands(step: GrantStep, replies: Seq<GrantReply>) -> Seq<GrantCommand> {
    grant_trace(step, replies).map_values(|s: GrantStep| s.pending())
}

/// How many more port answers a step can take before the run finishes.
pub open spec fn grant_calls_left(s: GrantStep) -> nat {
    match s {
        GrantStep::AwaitingPin { .. } => 3,
        GrantStep::AwaitingGrant { .. } => 2,
        GrantStep::AwaitingUnlock { .. } => 1,
        GrantStep::Finished { .. } => 0,
    }
}

/// Each step of a trace is the previous one moved by the matching reply.
proof fn lemma_grant_trace_shape(step: GrantStep, replies: Seq<GrantReply>)
    ensures
        grant_trace(step, replies).len() >= 1,
        grant_trace(step, replies).len() <= replies.len() + 1,
        grant_trace(step, replies)[0] == step,
        forall|i: int|
            0 <= i < grant_trace(step, replies).len() - 1 ==> {
                &&& (#[trigger] grant_trace(step, replies)[i]).fits(replies[i])
                &&& grant_trace(step, replies)[i + 1] == grant_trace(step, replies)[i].after(
                    replies[i],
                )
            },
    decreases replies.len(),
{
    if replies.len() > 0 && step.fits(replies[0]) {
        let rest = replies.drop_first();
        let next = step.after(replies[0]);
        lemma_grant_trace_shape(next, rest);
        let t = grant_trace(step, replies);
        let tr = grant_trace(next, rest);
        assert(t == seq![step] + tr);
        assert forall|i: int| 0 <= i < t.len() - 1 implies {
            &&& (#[trigger] t[i]).fits(replies[i])
            &&& t[i + 1] == t[i].after(replies[i])
        } by {
            if i > 0 {
                assert(t[i] == tr[i - 1]);
                assert(t[i + 1] == tr[i]);
                assert(replies[i] == rest[i - 1]);
            }
        }
    }
}

/// Every answer moves the run strictly closer to its end, and a step that can
/// take no more answers is a finished run: a run ends after at most three port
/// answers, whatever they are.
pub proof fn law_grant_runs_end(step: GrantStep, reply: GrantReply, replies: Seq<GrantReply>)
    ensures
        step.fits(reply) ==> grant_calls_left(step.after(reply)) < grant_calls_left(step),
        grant_calls_left(step) == 0 <==> step is Finished,
        grant_trace(step, replies).len() <= grant_calls_left(step) + 1,
    decreases replies.len(),
{
    if replies.len() > 0 && step.fits(replies[0]) {
        law_grant_runs_end(step.after(replies[0]), reply, replies.drop_first());
    }
}

/// Nothing is stored unless the PIN was accepted, and what is stored is the
/// credit running from the clock's instant for the requested seconds; the
/// device is unlocked only once that credit is stored; and a run succeeds only
/// when the PIN was accepted, the credit stored and the device unlocked.
pub proof fn law_grant_stores_and_unlocks_only_after_pin(
    now: u64,
    secs: u64,
    pin: u8,
    replies: Seq<GrantReply>,
)
    requires
        now + secs <= u64::MAX,
    ensures
        forall|i: int|
            0 <= i < grant_commands(GrantStep::AwaitingPin { now, secs, pin }, replies).len() ==> {
                let c = #[trigger] grant_commands(GrantStep::AwaitingPin { now, secs, pin }, replies)[i];
                &&& c is Grant ==> {
                    &&& replies[0] == GrantReply::PinChecked(true)
                    &&& c->credit == TimeCredit { start: now, end: (now + secs) as u64 }
                    &&& c->credit.end == now + secs
                }
                &&& c is UnlockNow ==> {
                    &&& replies[0] == GrantReply::PinChecked(true)
                    &&& replies[1] matches GrantReply::Stored(Ok(_))
                }
                &&& c == GrantCommand::Return { outcome: Ok(()) } ==> {
                    &&& replies[0] == GrantReply::PinChecked(true)
                    &&& replies[1] matches GrantReply::Stored(Ok(_))
                    &&& replies[2] matches GrantReply::Device(Ok(_))
                }
            },
{
    reveal_with_fuel(grant_trace, 4);
    let start = GrantStep::AwaitingPin { now, secs, pin };
    let t = grant_trace(start, replies);
    let cmds = grant_commands(start, replies);
    assert(cmds =~= t.map_values(|s: GrantStep| s.pending()));
    let credit = TimeCredit { start: now, end: (now + secs) as u64 };
    if replies.len() > 0 && start.fits(replies[0]) {
        let s1 = start.after(replies[0]);
        let r1 = replies.drop_first();
        if r1.len() > 0 && s1.fits(r1[0]) {
            // the PIN was accepted: s1 stores the credit
            assert(replies[0] == GrantReply::PinChecked(true));
            assert(s1 == GrantStep::AwaitingGrant { credit });
            let s2 = s1.after(r1[0]);
            let r2 = r1.drop_first();
            assert(r1[0] == replies[1]);
            if r2.len() > 0 && s2.fits(r2[0]) {
                assert(replies[1] matches GrantReply::Stored(Ok(_)));
                let s3 = s2.after(r2[0]);
                assert(r2[0] == replies[2]);
                assert(grant_trace(s3, r2.drop_first()) =~= seq![s3]);
                assert(t =~= seq![start, s1, s2, s3]);
            } else {
                assert(t =~= seq![start, s1, s2]);
            }
        } else {
            assert(t =~= seq![start, s1]);
        }
    } else {
        assert(t =~= seq![start]);
    }
}

/// Every way a grant can go once the PIN is checked: a rejected PIN ends the
/// run with `PinValidationFailure` before anything is stored or unlocked; an
/// accepted one stores the credit from now for the requested seconds, a
/// storage failure then ends the run with `TimeCreditStorageFailure` with the
/// device left as it was; otherwise the device is unlocked, and the run
/// returns `Ok` or, when unlocking fails, `LockDeviceFailure`.
pub proof fn law_grant_outcomes(
    now: u64,
    secs: u64,
    pin: u8,
    pin_ok: bool,
    stored: Result<(), StorageError>,
    unlocked: Result<(), DeviceLockerError>,
)
    requires
        pin_ok ==> now + secs <= u64::MAX,
    ensures
        ({
            let cmds = grant_commands(
                GrantStep::AwaitingPin { now, secs, pin },
                seq![
                    GrantReply::PinChecked(pin_ok),
                    GrantReply::Stored(stored),
                    GrantReply::Device(unlocked),
                ],
            );
            let credit = TimeCredit { start: now, end: (now + secs) as u64 };
            if !pin_ok {
                cmds == seq![
                    GrantCommand::ValidatePin { pin },
                    GrantCommand::Return { outcome: Err(UseCaseError::PinValidationFailure) },
                ]
            } else if stored is Err {
                cmds == seq![
                    GrantCommand::ValidatePin { pin },
                    GrantCommand::Grant { credit },
                    GrantCommand::Return { outcome: Err(UseCaseError::TimeCreditStorageFailure) },
                ]
            } else if unlocked is Err {
                cmds == seq![
                    GrantCommand::ValidatePin { pin },
                    GrantCommand::Grant { credit },
                    GrantCommand::UnlockNow,
                    GrantCommand::Return { outcome: Err(UseCaseError::LockDeviceFailure) },
                ]
            } else {
                cmds == seq![
                    GrantCommand::ValidatePin { pin },
                    GrantCommand::Grant { credit },
                    GrantCommand::UnlockNow,
                    GrantCommand::Return { outcome: Ok(()) },
                ]
            }
        }),
{
    reveal_with_fuel(grant_trace, 4);
    let start = GrantStep::AwaitingPin { now, secs, pin };
    let rs = seq![
        GrantReply::PinChecked(pin_ok),
        GrantReply::Stored(stored),
        GrantReply::Device(unlocked),
    ];
    let s1 = start.after(rs[0]);
    let s2 = s1.after(rs[1]);
    let s3 = s2.after(rs[2]);
    let r1 = rs.drop_first();
    let r2 = r1.drop_first();
    let r3 = r2.drop_first();
    assert(r1 =~= seq![rs[1], rs[2]]);
    assert(r2 =~= seq![rs[2]]);
    assert(r3 =~= Seq::<GrantReply>::empty());
    if !pin_ok {
        assert(grant_trace(start, rs) =~= seq![start, s1]);
        assert(grant_commands(start, rs) =~= seq![start.pending(), s1.pending()]);
    } else if stored is Err {
        assert(grant_trace(start, rs) =~= seq![start, s1, s2]);
        assert(grant_commands(start, rs) =~= seq![start.pending(), s1.pending(), s2.pending()]);
    } else {
        assert(grant_trace(start, rs) =~= seq![start, s1, s2, s3]);
        assert(grant_commands(start, rs) =~= seq![
            start.pending(),
            s1.pending(),
            s2.pending(),
            s3.pending(),
        ]);
    }
}

/// Only an unrepresentable end stops a grant: accepting the PIN is flagged
/// as overflowing exactly when the credit's end `now + secs` exceeds
/// `u64::MAX`, so any grant whose end fits (of any length) goes on, and no
/// other reply and no other step is ever flagged.
pub proof fn law_grant_overflow_only_when_end_unrepresentable(step: GrantStep, reply: GrantReply)
    ensures
        step.end_overflows(reply) ==> step is AwaitingPin && reply == GrantReply::PinChecked(true),
        step matches GrantStep::AwaitingPin { now, secs, .. } ==> (step.end_overflows(
            GrantReply::PinChecked(true),
        ) <==> now as int + secs as int > u64::MAX as int),
{
}

} // verus!
