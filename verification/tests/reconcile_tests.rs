use ddns::dnspod::interpret_create;
use ddns::dnspod::interpret_ddns;
use ddns::dnspod::interpret_list;
use ddns::dnspod::interpret_modify;
use ddns::dnspod::stale_recovery_error;
use ddns::dnspod::ApiRecord;
use ddns::dnspod::CreatedRecord;
use ddns::dnspod::DdnsState;
use ddns::dnspod::ModifyCommit;
use ddns::dnspod::PlannedCall;
use ddns::dnspod::Record;
use ddns::dnspod::UpdateOutcome;
use ddns::dnspod::UpdatePlan;
use ddns::error::DdnsError;
use ddns::ip::IpFamily;

fn record(id: u64, value: &str, record_type: &str) -> ApiRecord {
    ApiRecord {
        id,
        value: String::from(value),
        record_type: String::from(record_type),
    }
}

#[test]
fn untracked_cycle_creates_and_tracks() {
    // No record exists: the cycle plans exactly one create call, and its
    // success installs the assigned identifier and the observed value.
    let mut state = DdnsState::new();
    let plan = state.plan_update("1.2.3.4").unwrap();
    assert_eq!(
        plan,
        UpdatePlan {
            family: IpFamily::V4,
            call: PlannedCall::CreateCall,
        }
    );
    let created = CreatedRecord {
        id: 42,
        name: String::from("home"),
        status: String::from("enable"),
    };
    let out = state.commit_create(IpFamily::V4, "1.2.3.4", Ok(created));
    assert_eq!(out.unwrap(), UpdateOutcome::Created);
    let slot = state.a.as_ref().unwrap();
    assert_eq!(slot.id, 42);
    assert_eq!(slot.ip, "1.2.3.4");
    assert!(state.aaaa.is_none());
}

#[test]
fn same_ip_plans_no_remote_call() {
    // Idempotence: once the cache holds the observed value, a second cycle
    // with the same address plans no remote call at all.
    let mut state = DdnsState::new();
    let created = CreatedRecord {
        id: 7,
        name: String::from("home"),
        status: String::from("enable"),
    };
    state
        .commit_create(IpFamily::V4, "9.9.9.9", Ok(created))
        .unwrap();
    let plan = state.plan_update("9.9.9.9").unwrap();
    assert_eq!(plan.call, PlannedCall::NoRemoteCall);
}

#[test]
fn changed_ip_plans_one_modify() {
    // A tracked family observing a different address plans exactly one
    // modify of the tracked record.
    let mut state = DdnsState::new();
    let created = CreatedRecord {
        id: 11,
        name: String::from("home"),
        status: String::from("enable"),
    };
    state
        .commit_create(IpFamily::V4, "1.2.3.4", Ok(created))
        .unwrap();
    let plan = state.plan_update("5.6.7.8").unwrap();
    assert_eq!(plan.family, IpFamily::V4);
    assert_eq!(plan.call, PlannedCall::ModifyCall { record_id: 11 });
    let confirmed = record(11, "5.6.7.8", "A");
    let commit = state.commit_modify(IpFamily::V4, "5.6.7.8", Ok(confirmed));
    assert!(matches!(commit, ModifyCommit::Applied));
    assert_eq!(state.a.as_ref().unwrap().ip, "5.6.7.8");
    assert_eq!(state.a.as_ref().unwrap().id, 11);
}

#[test]
fn stale_identity_asks_for_refresh_and_keeps_cache() {
    // Stale-identity recovery: the distinguished code turns into a refresh
    // request, the cache is untouched, and the reported error is the
    // recoverable stale error.
    let mut state = DdnsState::new();
    let created = CreatedRecord {
        id: 5,
        name: String::from("home"),
        status: String::from("enable"),
    };
    state
        .commit_create(IpFamily::V4, "1.2.3.4", Ok(created))
        .unwrap();
    let err = DdnsError::Api {
        code: String::from("8"),
        message: String::from("Record id invalid"),
    };
    let commit = state.commit_modify(IpFamily::V4, "5.6.7.8", Err(err));
    assert!(matches!(commit, ModifyCommit::StaleIdentity));
    // The cache still holds the value confirmed before the failure.
    assert_eq!(state.a.as_ref().unwrap().ip, "1.2.3.4");
    assert_eq!(state.a.as_ref().unwrap().id, 5);
    match stale_recovery_error() {
        DdnsError::Api { code, message } => {
            assert_eq!(code, "8");
            assert!(message.contains("next cycle"));
        }
        other => panic!("unexpected error {:?}", other),
    }
}

#[test]
fn other_api_failure_propagates_unchanged() {
    let mut state = DdnsState::new();
    let created = CreatedRecord {
        id: 5,
        name: String::from("home"),
        status: String::from("enable"),
    };
    state
        .commit_create(IpFamily::V4, "1.2.3.4", Ok(created))
        .unwrap();
    let err = DdnsError::Api {
        code: String::from("6"),
        message: String::from("Domain id invalid"),
    };
    let commit = state.commit_modify(IpFamily::V4, "5.6.7.8", Err(err));
    match commit {
        ModifyCommit::Failed(DdnsError::Api { code, .. }) => assert_eq!(code, "6"),
        other => panic!("unexpected commit {:?}", other),
    }
    assert_eq!(state.a.as_ref().unwrap().ip, "1.2.3.4");
}

#[test]
fn invalid_input_fails_locally() {
    // Text that is neither IPv4 nor IPv6 is rejected before any remote
    // call is planned.
    let state = DdnsState::new();
    match state.plan_update("not-an-ip") {
        Err(DdnsError::InvalidIpFormat(text)) => assert_eq!(text, "not-an-ip"),
        other => panic!("unexpected plan {:?}", other),
    }
}

#[test]
fn create_failure_stays_untracked() {
    let mut state = DdnsState::new();
    let err = DdnsError::Network(String::from("connection reset"));
    let out = state.commit_create(IpFamily::V4, "1.2.3.4", Err(err));
    assert!(matches!(out, Err(DdnsError::Network(_))));
    assert!(state.a.is_none());
}

#[test]
fn families_have_independent_slots() {
    let mut state = DdnsState::new();
    let c4 = CreatedRecord {
        id: 1,
        name: String::from("home"),
        status: String::from("enable"),
    };
    let c6 = CreatedRecord {
        id: 2,
        name: String::from("home"),
        status: String::from("enable"),
    };
    state.commit_create(IpFamily::V4, "1.2.3.4", Ok(c4)).unwrap();
    state.commit_create(IpFamily::V6, "::1", Ok(c6)).unwrap();
    assert_eq!(state.a.as_ref().unwrap().id, 1);
    assert_eq!(state.aaaa.as_ref().unwrap().id, 2);
    let plan = state.plan_update("::2").unwrap();
    assert_eq!(plan.family, IpFamily::V6);
    assert_eq!(plan.call, PlannedCall::ModifyCall { record_id: 2 });
}

#[test]
fn refresh_partitions_by_type_last_wins() {
    let mut state = DdnsState::new();
    let records = vec![
        record(1, "1.1.1.1", "A"),
        record(2, "::1", "AAAA"),
        record(3, "2.2.2.2", "a"),
        record(4, "ignored", "TXT"),
        record(5, "::2", "aaaa"),
    ];
    state.apply_refresh(&records);
    let a = state.a.as_ref().unwrap();
    assert_eq!(a.id, 3);
    assert_eq!(a.ip, "2.2.2.2");
    let aaaa = state.aaaa.as_ref().unwrap();
    assert_eq!(aaaa.id, 5);
    assert_eq!(aaaa.ip, "::2");
}

#[test]
fn empty_listing_refreshes_to_untracked() {
    // The distinguished "no records" answer is an empty listing, and
    // refreshing from it leaves both families untracked.
    let mut state = DdnsState::new();
    let created = CreatedRecord {
        id: 5,
        name: String::from("home"),
        status: String::from("enable"),
    };
    state
        .commit_create(IpFamily::V4, "1.2.3.4", Ok(created))
        .unwrap();
    let listed = interpret_list(String::from("10"), String::from("No records"), None).unwrap();
    assert!(listed.is_empty());
    state.apply_refresh(&listed);
    assert!(state.a.is_none());
    assert!(state.aaaa.is_none());
}

#[test]
fn list_success_hands_records_through() {
    let records = vec![record(1, "1.1.1.1", "A")];
    let listed = interpret_list(String::from("1"), String::from("Action completed"), Some(records))
        .unwrap();
    assert_eq!(listed.len(), 1);
    assert_eq!(listed[0].id, 1);
    let empty = interpret_list(String::from("1"), String::from("Action completed"), None).unwrap();
    assert!(empty.is_empty());
}

#[test]
fn list_failure_carries_code_and_message() {
    match interpret_list(String::from("9"), String::from("login denied"), None) {
        Err(DdnsError::Api { code, message }) => {
            assert_eq!(code, "9");
            assert_eq!(message, "login denied");
        }
        other => panic!("unexpected interpretation {:?}", other),
    }
}

#[test]
fn modify_success_needs_record_object() {
    let got = interpret_modify(
        String::from("1"),
        String::from("Action completed"),
        Some(record(3, "5.6.7.8", "A")),
        String::from("{}"),
    )
    .unwrap();
    assert_eq!(got.id, 3);
    assert_eq!(got.value, "5.6.7.8");
    match interpret_modify(
        String::from("1"),
        String::from("Action completed"),
        None,
        String::from("{\"status\":{\"code\":\"1\"}}"),
    ) {
        Err(DdnsError::ApiResponseDecode { body }) => {
            assert_eq!(body, "{\"status\":{\"code\":\"1\"}}");
        }
        other => panic!("unexpected interpretation {:?}", other),
    }
}

#[test]
fn modify_failure_keeps_provider_code() {
    match interpret_modify(
        String::from("8"),
        String::from("Record id invalid"),
        None,
        String::from("{}"),
    ) {
        Err(DdnsError::Api { code, .. }) => assert_eq!(code, "8"),
        other => panic!("unexpected interpretation {:?}", other),
    }
}

#[test]
fn create_interpretation_mirrors_modify() {
    let created = CreatedRecord {
        id: 9,
        name: String::from("home"),
        status: String::from("enable"),
    };
    let got = interpret_create(
        String::from("1"),
        String::from("Action completed"),
        Some(created),
        String::from("{}"),
    )
    .unwrap();
    assert_eq!(got.id, 9);
    match interpret_create(
        String::from("104"),
        String::from("record already exists"),
        None,
        String::from("{}"),
    ) {
        Err(DdnsError::Api { code, .. }) => assert_eq!(code, "104"),
        other => panic!("unexpected interpretation {:?}", other),
    }
}

#[test]
fn ddns_endpoint_reports_confirmed_value() {
    let got = interpret_ddns(
        String::from("1"),
        String::from("Action completed"),
        Some(Record {
            value: String::from("1.2.3.4"),
        }),
    )
    .unwrap();
    assert_eq!(got, "1.2.3.4");
    let fallback =
        interpret_ddns(String::from("1"), String::from("Action completed"), None).unwrap();
    assert_eq!(fallback, "N/A");
    match interpret_ddns(String::from("-15"), String::from("domain locked"), None) {
        Err(DdnsError::Api { code, .. }) => assert_eq!(code, "-15"),
        other => panic!("unexpected interpretation {:?}", other),
    }
}
