use kiosk_core::adapters::time_credit_storage::{GrantedTimeCredit, TimeCredit};
use kiosk_core::android::file_time_credit_storage::{CreditFileRead, FileTimeCreditStorage};
use kiosk_core::android::kotlin_bridge::{bridge_instant, granted_from_bridge};
use kiosk_core::usecases::enforce_time_credit_use_case::{EnforceCommand, EnforceReply, EnforceStep};
use kiosk_core::usecases::grant_time_use_case::{GrantCommand, GrantReply, GrantStep};

/// The credit a grant of `secs` seconds accepted at `now` stores.
fn granted_credit(now: u64, secs: u64) -> TimeCredit {
    let step = GrantStep::AwaitingPin { now, secs, pin: 0 }.next(GrantReply::PinChecked(true));
    match step.command() {
        GrantCommand::Grant { credit } => credit,
        other => panic!("unexpected command {:?}", other),
    }
}

fn enforcement_command(later: u64, read: GrantedTimeCredit) -> EnforceCommand {
    EnforceStep::AwaitingCredit { now: later }.next(EnforceReply::GrantedUntil(Ok(read))).command()
}

#[test]
fn file_credit_unlocks_until_it_runs_out() {
    let credit = granted_credit(1000, 60);
    let read = FileTimeCreditStorage::granted_until_from(CreditFileRead::Parsed { start: credit.start, end: credit.end })
        .unwrap();
    assert_eq!(enforcement_command(1000, read), EnforceCommand::UnlockNow);
    assert_eq!(enforcement_command(1059, read), EnforceCommand::UnlockNow);
    assert_eq!(enforcement_command(1060, read), EnforceCommand::LockNow);
    assert_eq!(enforcement_command(5000, read), EnforceCommand::LockNow);
}

#[test]
fn bridge_credit_unlocks_until_it_runs_out() {
    let credit = granted_credit(1000, 60);
    let read = granted_from_bridge(bridge_instant(credit.end));
    assert_eq!(read, GrantedTimeCredit::Until { time: 1060 });
    assert_eq!(enforcement_command(1059, read), EnforceCommand::UnlockNow);
    assert_eq!(enforcement_command(1060, read), EnforceCommand::LockNow);
}

#[test]
fn bridge_reads_back_instants_but_the_largest() {
    assert_eq!(granted_from_bridge(bridge_instant(0)), GrantedTimeCredit::Until { time: 0 });
    assert_eq!(granted_from_bridge(bridge_instant(1 << 63)), GrantedTimeCredit::Until { time: 1 << 63 });
    assert_eq!(granted_from_bridge(bridge_instant(u64::MAX)), GrantedTimeCredit::Denied);
}
