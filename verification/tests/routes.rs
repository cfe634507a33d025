use bind9_rest::db::{deleted_any, DnsRecord};
use bind9_rest::dns_client::DnsError;
use bind9_rest::routes::{
    bad_request, default_ttl, dns_error, get_ptr_reply, internal_error, list_ptrs_reply, not_found,
    to_response, to_responses, validate_set_ptr, ApiError, DeletePtrAction, DeletePtrFlow,
    DeletePtrPhase, SetPtrAction, SetPtrFlow, SetPtrPhase, SetPtrRequest,
};

fn record(zone: &str, name: &str, target: &str, ttl: i32) -> DnsRecord {
    DnsRecord {
        id: 42,
        zone: zone.to_string(),
        name: name.to_string(),
        ptr_target: target.to_string(),
        ttl,
        created_at: 1_700_000_000_000_000,
        updated_at: 1_700_000_000_000_001,
    }
}

fn err_of(e: &ApiError) -> (u16, &str) {
    (e.status, e.body.error.as_str())
}

#[test]
fn default_ttl_is_300() {
    assert_eq!(default_ttl(), 300);
}

#[test]
fn response_shows_zone_name_target_ttl() {
    let r = to_response(&record("z.arpa", "1", "host.example.com", 600));
    assert_eq!((r.zone.as_str(), r.name.as_str(), r.ptr_target.as_str(), r.ttl), ("z.arpa", "1", "host.example.com", 600));
    let v = to_responses(&vec![record("z", "a", "x", 1), record("z", "b", "y", 2)]);
    assert_eq!(v.len(), 2);
    assert_eq!((v[0].name.as_str(), v[1].ptr_target.as_str(), v[1].ttl), ("a", "y", 2));
}

#[test]
fn error_replies_have_their_status() {
    assert_eq!(err_of(&internal_error("db down".into())), (500, "db down"));
    assert_eq!(err_of(&not_found("PTR record not found")), (404, "PTR record not found"));
    assert_eq!(err_of(&bad_request("nope")), (400, "nope"));
    assert_eq!(err_of(&dns_error("Protocol error: x".into())), (502, "DNS update failed: Protocol error: x"));
}

#[test]
fn validation_refuses_empty_target_then_negative_ttl() {
    let req = |t: &str, ttl: i32| SetPtrRequest { ptr_target: t.to_string(), ttl };
    assert!(validate_set_ptr(&req("host.", 0)).is_ok());
    assert_eq!(err_of(&validate_set_ptr(&req("", 300)).unwrap_err()), (400, "ptr_target must not be empty"));
    assert_eq!(err_of(&validate_set_ptr(&req("", -1)).unwrap_err()), (400, "ptr_target must not be empty"));
    assert_eq!(err_of(&validate_set_ptr(&req("host.", -1)).unwrap_err()), (400, "ttl must be non-negative"));
}

#[test]
fn list_and_get_replies() {
    assert_eq!(err_of(&list_ptrs_reply(Err("boom".into())).unwrap_err()), (500, "boom"));
    assert_eq!(list_ptrs_reply(Ok(vec![record("z", "a", "x", 1)])).unwrap()[0].name, "a");
    assert!(list_ptrs_reply(Ok(vec![])).unwrap().is_empty());
    assert_eq!(err_of(&get_ptr_reply(Err("boom".into())).unwrap_err()), (500, "boom"));
    assert_eq!(err_of(&get_ptr_reply(Ok(None)).unwrap_err()), (404, "PTR record not found"));
    assert_eq!(get_ptr_reply(Ok(Some(record("z", "a", "x", 7)))).unwrap().ttl, 7);
}

#[test]
fn set_flow_writes_database_then_dns() {
    let body = SetPtrRequest { ptr_target: "host.example.com".into(), ttl: 600 };
    let (mut flow, action) = SetPtrFlow::start("z.arpa".into(), "1".into(), body);
    match action {
        SetPtrAction::Upsert { zone, name, ptr_target, ttl } => {
            assert_eq!((zone.as_str(), name.as_str(), ptr_target.as_str(), ttl), ("z.arpa", "1", "host.example.com", 600))
        }
        _ => panic!("expected the database write"),
    }
    match flow.on_upserted(Ok(record("z.arpa", "1", "host.example.com", 600))) {
        SetPtrAction::SyncDns { name, ttl, ptr_target, zone } => {
            assert_eq!((name.as_str(), ttl, ptr_target.as_str(), zone.as_str()), ("1", 600u32, "host.example.com", "z.arpa"))
        }
        _ => panic!("expected the DNS update"),
    }
    match flow.on_dns_synced(Ok(())) {
        SetPtrAction::Reply(Ok(r)) => assert_eq!((r.name.as_str(), r.ttl), ("1", 600)),
        _ => panic!("expected the record"),
    }
    assert_eq!(flow.phase(), SetPtrPhase::Done);
}

#[test]
fn set_flow_rolls_back_when_dns_fails() {
    let body = SetPtrRequest { ptr_target: "host.example.com".into(), ttl: 0 };
    let (mut flow, _) = SetPtrFlow::start("z".into(), "1".into(), body);
    flow.on_upserted(Ok(record("z", "1", "host.example.com", 0)));
    match flow.on_dns_synced(Err(DnsError::Response("Query Refused".into()))) {
        SetPtrAction::Rollback { zone, name } => assert_eq!((zone.as_str(), name.as_str()), ("z", "1")),
        _ => panic!("expected the rollback"),
    }
    assert_eq!(flow.phase(), SetPtrPhase::AwaitRollback);
    match flow.on_rolled_back() {
        SetPtrAction::Reply(Err(e)) => {
            assert_eq!(err_of(&e), (502, "DNS update failed: Response error: Query Refused"))
        }
        _ => panic!("expected a 502"),
    }
}

#[test]
fn set_flow_refuses_before_writing() {
    let body = SetPtrRequest { ptr_target: "".into(), ttl: 300 };
    let (flow, action) = SetPtrFlow::start("z".into(), "1".into(), body);
    match action {
        SetPtrAction::Reply(Err(e)) => assert_eq!(err_of(&e), (400, "ptr_target must not be empty")),
        _ => panic!("expected a 400"),
    }
    assert_eq!(flow.phase(), SetPtrPhase::Done);
    let body = SetPtrRequest { ptr_target: "h".into(), ttl: -5 };
    let (_, action) = SetPtrFlow::start("z".into(), "1".into(), body);
    assert!(matches!(action, SetPtrAction::Reply(Err(ApiError { status: 400, .. }))));
    let body = SetPtrRequest { ptr_target: "h".into(), ttl: 5 };
    let (mut flow, _) = SetPtrFlow::start("z".into(), "1".into(), body);
    match flow.on_upserted(Err("duplicate".into())) {
        SetPtrAction::Reply(Err(e)) => assert_eq!(err_of(&e), (500, "duplicate")),
        _ => panic!("expected a 500"),
    }
}

#[test]
fn delete_flow_clears_dns_then_database() {
    let (mut flow, action) = DeletePtrFlow::start("z".into(), "1".into());
    match action {
        DeletePtrAction::ClearDns { name, ttl, ptr_target, zone } => {
            assert_eq!((name.as_str(), ttl, ptr_target.as_str(), zone.as_str()), ("1", 0, "", "z"))
        }
        _ => panic!("expected the DNS clear"),
    }
    assert_eq!(flow.phase(), DeletePtrPhase::AwaitDns);
    // A DNS failure does not stop the deletion.
    match flow.on_dns_cleared(Err(DnsError::Protocol("down".into()))) {
        DeletePtrAction::DeleteRecord { zone, name } => assert_eq!((zone.as_str(), name.as_str()), ("z", "1")),
        _ => panic!("expected the database delete"),
    }
    assert!(matches!(flow.on_deleted(Ok(true)), DeletePtrAction::Reply(Ok(()))));
    assert_eq!(flow.phase(), DeletePtrPhase::Done);
}

#[test]
fn delete_flow_reports_missing_records_and_errors() {
    let (mut flow, _) = DeletePtrFlow::start("z".into(), "1".into());
    flow.on_dns_cleared(Ok(()));
    match flow.on_deleted(Ok(false)) {
        DeletePtrAction::Reply(Err(e)) => assert_eq!(err_of(&e), (404, "PTR record not found")),
        _ => panic!("expected a 404"),
    }
    let (mut flow, _) = DeletePtrFlow::start("z".into(), "1".into());
    flow.on_dns_cleared(Ok(()));
    match flow.on_deleted(Err("db down".into())) {
        DeletePtrAction::Reply(Err(e)) => assert_eq!(err_of(&e), (500, "db down")),
        _ => panic!("expected a 500"),
    }
}

#[test]
fn deleted_any_counts_rows() {
    assert!(!deleted_any(0));
    assert!(deleted_any(1));
    assert!(deleted_any(7));
}
