use vstd::prelude::*;

use crate::adapters::time_credit_storage::GrantedTimeCredit;
use crate::android::file_time_credit_storage::{granted_until_of_read, CreditFileRead};
use crate::android::kotlin_bridge::credit_of_bridge_value;
use crate::usecases::enforce_time_credit_use_case::{EnforceReply, EnforceStep};
use crate::usecases::grant_time_use_case::{GrantReply, GrantStep};

verus! {

/// A grant of `secs` seconds accepted at `now` unlocks the device until it
/// runs out, then relocks it: once the grant's credit is stored in the credit
/// file and read back, an enforcement run at any later instant unlocks the
/// device up to `now + secs` (scheduling its lock there) when the instant is
/// before that end, and locks it otherwise.
pub proof fn law_file_granted_credit_unlocks_until_it_runs_out(now: u64, secs: u64, pin: u8, later: u64)
    requires
        now + secs <= u64::MAX,
    ensures
        ({
            let stored = GrantStep::AwaitingPin { now, secs, pin }.after(
                GrantReply::PinChecked(true),
            ).pending()->credit;
            let read = granted_until_of_read(
                CreditFileRead::Parsed { start: stored.start, end: stored.end },
            );
            let step = EnforceStep::AwaitingCredit { now: later }.after(EnforceReply::GrantedUntil(read));
            &&& later < now + secs ==> step == (EnforceStep::AwaitingUnlock {
                now: later,
                until: (now + secs) as u64,
            })
            &&& later >= now + secs ==> step is AwaitingLock
        }),
{
}

/// The same through the Kotlin storage bridge: the credit's end is handed
/// over as its raw `long` and read back from it. The one instant this does
/// not hold for is a credit ending at the largest instant, which reads back
/// as no credit (the bridge's sentinel), so that end is left out.
pub proof fn law_bridge_granted_credit_unlocks_until_it_runs_out(now: u64, secs: u64, pin: u8, later: u64)
    requires
        now + secs < u64::MAX,
    ensures
        ({
            let stored = GrantStep::AwaitingPin { now, secs, pin }.after(
                GrantReply::PinChecked(true),
            ).pending()->credit;
            let read: GrantedTimeCredit = credit_of_bridge_value(stored.end as i64);
            let step = EnforceStep::AwaitingCredit { now: later }.after(EnforceReply::GrantedUntil(Ok(read)));
            &&& later < now + secs ==> step == (EnforceStep::AwaitingUnlock {
                now: later,
                until: (now + secs) as u64,
            })
            &&& later >= now + secs ==> step is AwaitingLock
        }),
{
    let end: u64 = (now + secs) as u64;
    crate::android::kotlin_bridge::law_bridge_instant_reads_back(end);
}

} // verus!
