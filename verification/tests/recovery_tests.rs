use tipjar::recovery::{Recovery, RecoveryError, RecoveryStatus};

const CREATOR: u64 = 10;
const GUARDIAN: u64 = 20;
const NEW_OWNER: u64 = 30;

fn with_guardian(now: u64) -> Recovery {
    let mut r = Recovery::new();
    r.init_recovery(CREATOR);
    r.add_guardian(now, CREATOR, GUARDIAN, 1).unwrap();
    r
}

#[test]
fn test_recovery_init() {
    let mut r = Recovery::new();
    r.init_recovery(CREATOR);
    assert!(r.get_active_guardians(0, CREATOR).is_empty());
    assert!(r.get_recent_attempts(CREATOR, 0).is_empty());
}

#[test]
fn test_add_guardian() {
    let r = with_guardian(0);
    let active = r.get_active_guardians(0, CREATOR);
    assert_eq!(active.len(), 1);
    assert_eq!((active[0].address, active[0].weight), (GUARDIAN, 1));
}

#[test]
#[should_panic(expected = "Guardian already exists")]
fn test_duplicate_guardian() {
    let mut r = with_guardian(0);
    r.add_guardian(0, CREATOR, GUARDIAN, 1).expect("Guardian already exists");
}

#[test]
fn test_recovery_request_creation() {
    let mut r = with_guardian(0);
    r.create_recovery_request(0, CREATOR, NEW_OWNER).unwrap();

    let request = r.get_recovery_request(1).unwrap();
    assert_eq!(request.id, 1);
    assert_eq!(request.creator, CREATOR);
    assert_eq!(request.new_owner, NEW_OWNER);
    assert_eq!(request.status, RecoveryStatus::Voting);
    assert_eq!(request.approval_count, 0);
}

#[test]
#[should_panic(expected = "No guardians set for recovery")]
fn test_recovery_request_no_guardians() {
    let mut r = Recovery::new();
    r.init_recovery(CREATOR);
    r.create_recovery_request(0, CREATOR, NEW_OWNER).expect("No guardians set for recovery");
}

#[test]
fn test_guardian_approval() {
    let mut r = with_guardian(0);
    r.create_recovery_request(0, CREATOR, NEW_OWNER).unwrap();

    r.approve_recovery(0, 1, GUARDIAN).unwrap();

    let request = r.get_recovery_request(1).unwrap();
    assert_eq!(request.approval_count, 1);
    // 1 of 1 guardians reaches the threshold.
    assert_eq!(request.status, RecoveryStatus::Locked);
    assert!(request.timelock_end > 0);
}

#[test]
#[should_panic(expected = "Already approved")]
fn test_guardian_double_approval() {
    let mut r = with_guardian(0);
    r.create_recovery_request(0, CREATOR, NEW_OWNER).unwrap();
    r.approve_recovery(0, 1, GUARDIAN).unwrap();
    r.approve_recovery(0, 1, GUARDIAN).expect("Already approved");
}

#[test]
#[should_panic(expected = "Not an active guardian")]
fn test_non_guardian_approval() {
    let mut r = with_guardian(0);
    r.create_recovery_request(0, CREATOR, NEW_OWNER).unwrap();
    r.approve_recovery(0, 1, 99).expect("Not an active guardian");
}

#[test]
fn test_multiple_guardians_threshold() {
    let mut r = Recovery::new();
    r.init_recovery(CREATOR);
    r.add_guardian(0, CREATOR, 21, 1).unwrap();
    r.add_guardian(0, CREATOR, 22, 1).unwrap();
    r.add_guardian(0, CREATOR, 23, 1).unwrap();
    r.create_recovery_request(0, CREATOR, NEW_OWNER).unwrap();

    r.approve_recovery(0, 1, 21).unwrap();
    assert_eq!(r.get_recovery_request(1).unwrap().status, RecoveryStatus::Voting);

    r.approve_recovery(0, 1, 22).unwrap();
    assert_eq!(r.get_recovery_request(1).unwrap().status, RecoveryStatus::Locked);
}

#[test]
#[should_panic(expected = "Timelock not expired")]
fn test_recovery_before_timelock() {
    let mut r = with_guardian(0);
    r.create_recovery_request(0, CREATOR, NEW_OWNER).unwrap();
    r.approve_recovery(0, 1, GUARDIAN).unwrap();
    r.execute_recovery(0, 1).expect("Timelock not expired");
}

#[test]
fn test_recovery_after_timelock() {
    let mut r = with_guardian(0);
    r.create_recovery_request(0, CREATOR, NEW_OWNER).unwrap();
    r.approve_recovery(0, 1, GUARDIAN).unwrap();

    let now = 604801;
    let recovered_owner = r.execute_recovery(now, 1).unwrap();
    assert_eq!(recovered_owner, NEW_OWNER);

    let request = r.get_recovery_request(1).unwrap();
    assert_eq!(request.status, RecoveryStatus::Executed);
    assert!(request.executed_at > 0);
}

#[test]
fn test_revoke_guardian() {
    let mut r = with_guardian(0);
    r.revoke_guardian(0, CREATOR, GUARDIAN);

    // Once the revocation delay (a day) has passed the guardian no longer
    // counts, so a request finds no guardian.
    let now = 86401;
    assert!(r.create_recovery_request(now, CREATOR, NEW_OWNER).is_err());
    // Before the delay it still counts.
    assert!(r.create_recovery_request(86399, CREATOR, NEW_OWNER).is_ok());
}

#[test]
fn test_recovery_attempts_tracking() {
    let mut r = with_guardian(0);
    r.create_recovery_request(0, CREATOR, 31).unwrap();
    r.create_recovery_request(0, CREATOR, 32).unwrap();

    let attempts = r.get_recent_attempts(CREATOR, 0);
    assert_eq!(attempts.len(), 2);
    assert_eq!(attempts.first(), Some(&1));
    assert_eq!(attempts.get(1), Some(&2));
}

#[test]
fn executed_request_cannot_run_twice() {
    let mut r = with_guardian(0);
    r.create_recovery_request(0, CREATOR, NEW_OWNER).unwrap();
    r.approve_recovery(0, 1, GUARDIAN).unwrap();
    assert_eq!(r.execute_recovery(604800, 1), Ok(NEW_OWNER));
    assert_eq!(r.execute_recovery(604801, 1), Err(RecoveryError::NotLocked));
    assert_eq!(r.approve_recovery(604801, 1, GUARDIAN), Err(RecoveryError::NotVoting));
}

#[test]
fn unknown_request_is_reported() {
    let mut r = with_guardian(0);
    assert_eq!(r.get_recovery_request(7).unwrap_err(), RecoveryError::RequestNotFound);
    assert_eq!(r.execute_recovery(0, 7), Err(RecoveryError::RequestNotFound));
    assert_eq!(r.approve_recovery(0, 7, GUARDIAN), Err(RecoveryError::RequestNotFound));
}

#[test]
fn approvals_are_counted_against_the_active_weight() {
    // Each approval counts one, against a total active weight of 4.
    let mut r = Recovery::new();
    r.init_recovery(CREATOR);
    r.add_guardian(0, CREATOR, 21, 3).unwrap();
    r.add_guardian(0, CREATOR, 22, 1).unwrap();
    assert_eq!(r.get_total_guardian_weight(0, CREATOR), 4);
    r.create_recovery_request(0, CREATOR, NEW_OWNER).unwrap();
    r.approve_recovery(0, 1, 22).unwrap();
    assert_eq!(r.get_recovery_request(1).unwrap().status, RecoveryStatus::Voting);
}
