use bind9_rest::address::{DnsAddress, SockAddr};
use bind9_rest::dns_client::{
    collect_ptr_targets, select_ptr_targets, Answer, AnswerSummary, DnsClient, DnsError,
    LookupAction, LookupPhase, PtrLookup, PtrUpdate, UpdateAction, UpdatePhase,
};
use hickory_proto::op::ResponseCode;
use bind9_rest::dns_proto::TsigAlg;
use hickory_proto::rr::{Name, RData, RecordType};

fn name(s: &str) -> Name {
    Name::from_str_relaxed(s).unwrap()
}

fn long_label() -> String {
    "a".repeat(64)
}

#[test]
fn dns_error_messages_name_their_kind() {
    assert_eq!(DnsError::Protocol("timed out".into()).message(), "Protocol error: timed out");
    assert_eq!(DnsError::Parse("bad".into()).message(), "Parse error: bad");
    assert_eq!(DnsError::Response("Query Refused".into()).message(), "Response error: Query Refused");
}

#[test]
fn client_new_refuses_an_unreadable_address() {
    let r = DnsClient::new(Err(()), "key.", b"secret".to_vec(), TsigAlg::HmacSha512);
    match r {
        Err(DnsError::Parse(m)) => assert_eq!(m, "Invalid address"),
        _ => panic!("expected a parse error"),
    }
}

#[test]
fn client_new_refuses_a_bad_key_name() {
    let bad = long_label();
    let expected = Name::from_ascii(&bad).unwrap_err().to_string();
    let addr = DnsAddress::Udp(SockAddr::V4 { ipv4: 0x7f00_0001, port: 53 });
    match DnsClient::new(Ok(addr), &bad, b"secret".to_vec(), TsigAlg::HmacSha512) {
        Err(DnsError::Parse(m)) => assert_eq!(m, expected),
        _ => panic!("expected a parse error"),
    }
}

#[test]
fn client_new_refuses_an_unsupported_algorithm() {
    let addr = DnsAddress::Udp(SockAddr::V4 { ipv4: 0x7f00_0001, port: 53 });
    match DnsClient::new(Ok(addr), "key.", b"secret".to_vec(), TsigAlg::HmacMd5) {
        Err(DnsError::Parse(m)) => assert_eq!(m, "Tsig unsupported mac algorithm"),
        _ => panic!("expected a parse error"),
    }
    for alg in [TsigAlg::HmacSha256, TsigAlg::HmacSha384] {
        assert!(DnsClient::new(Ok(addr), "key.", b"k".to_vec(), alg).is_ok());
    }
    for alg in [TsigAlg::Gss, TsigAlg::HmacSha1, TsigAlg::HmacSha224, TsigAlg::HmacSha256_128,
        TsigAlg::HmacSha384_192, TsigAlg::HmacSha512_256, TsigAlg::Unknown(name("x."))] {
        assert!(DnsClient::new(Ok(addr), "key.", b"k".to_vec(), alg).is_err());
    }
}

#[test]
fn response_error_texts_follow_the_code_table() {
    let expected = [
        (0u16, "No Error"), (1, "Form Error"), (2, "Server Failure"), (4, "Not Implemented"),
        (5, "Query Refused"), (6, "Name should not exist"), (7, "RR Set should not exist"),
        (8, "RR Set does not exist"), (9, "Not authorized"), (10, "Name not in zone"),
        (11, "Unknown response code"), (16, "TSIG Failure"), (17, "Key not recognized"),
        (18, "Signature out of time window"), (19, "Bad TKEY mode"), (20, "Duplicate key name"),
        (21, "Algorithm not supported"), (22, "Bad truncation"), (23, "Bad server cookie"),
        (4095, "Unknown response code"),
    ];
    for (code, text) in expected {
        let mut u = PtrUpdate::start("a.example", 60, "b.example", "example").ok().expect("update");
        u.on_connected(Ok(()));
        match u.on_reply(Ok(code)) {
            UpdateAction::Finish(Err(DnsError::Response(m))) => assert_eq!(m, text),
            UpdateAction::Finish(Ok(())) if code == 0 => {}
            _ if code == 0 => {}
            _ => panic!("expected a response error for {code}"),
        }
        assert_eq!(<ResponseCode as From<u16>>::from(code).to_string(), text);
    }
}

#[test]
fn client_new_keeps_address_and_signer() {
    let addr = DnsAddress::Tcp(SockAddr::V6 { ipv6: 1, port: 53, flowinfo: 0, scope_id: 0 });
    let c = DnsClient::new(Ok(addr), "update-key.", b"secret".to_vec(), TsigAlg::HmacSha512)
        .ok()
        .expect("client");
    assert_eq!(c.address(), addr);
    let signer = c.signer().expect("signer");
    assert_eq!(signer.fudge(), 60);
    assert_eq!(signer.key(), b"secret");
    assert_eq!(signer.signer_name(), &Name::from_ascii("update-key.").unwrap());
}

#[test]
fn update_refuses_bad_names() {
    let bad = long_label();
    let expected = Name::from_str_relaxed(&bad).unwrap_err().to_string();
    match PtrUpdate::start(&bad, 300, "host.example.com", "0.0.127.in-addr.arpa") {
        Err(DnsError::Parse(m)) => assert_eq!(m, expected),
        _ => panic!("expected a parse error"),
    }
    match PtrUpdate::start("1.0.0.127.in-addr.arpa", 300, "host.example.com", &bad) {
        Err(DnsError::Parse(m)) => assert_eq!(m, expected),
        _ => panic!("expected a parse error"),
    }
}

#[test]
fn update_deletes_then_appends() {
    let mut u = PtrUpdate::start("1.0.0.127.in-addr.arpa.", 600, "host.example.com.", "0.0.127.in-addr.arpa.")
        .ok()
        .expect("update");
    assert_eq!(u.phase(), UpdatePhase::AwaitConnect);
    match u.on_connected(Ok(())) {
        UpdateAction::DeleteRRset { owner, zone, record_type, ttl } => {
            assert_eq!((record_type, ttl), (12, 0));
            assert_eq!(owner, name("1.0.0.127.in-addr.arpa."));
            assert_eq!(zone, name("0.0.127.in-addr.arpa."));
        }
        _ => panic!("expected a delete"),
    }
    assert_eq!(u.phase(), UpdatePhase::AwaitDelete);
    match u.on_reply(Ok(0)) {
        UpdateAction::AppendRRset { rrset, zone, must_exist } => {
            assert!(!must_exist);
            let rrset = rrset.into_record_set();
            assert_eq!(zone, name("0.0.127.in-addr.arpa."));
            assert_eq!(rrset.name(), &name("1.0.0.127.in-addr.arpa."));
            assert_eq!(rrset.record_type(), RecordType::PTR);
            assert_eq!(rrset.ttl(), 600);
            let data: Vec<RData> = rrset.records_without_rrsigs().map(|r| r.data.clone()).collect();
            assert_eq!(data.len(), 1);
            match &data[0] {
                RData::PTR(p) => assert_eq!(p.0, name("host.example.com.")),
                _ => panic!("expected PTR data"),
            }
        }
        _ => panic!("expected an append"),
    }
    assert_eq!(u.phase(), UpdatePhase::AwaitAppend);
    assert!(matches!(u.on_reply(Ok(0)), UpdateAction::Finish(Ok(()))));
    assert_eq!(u.phase(), UpdatePhase::Done);
}

#[test]
fn update_with_empty_target_only_deletes() {
    let mut u = PtrUpdate::start("1.0.0.127.in-addr.arpa", 0, "", "0.0.127.in-addr.arpa").ok().expect("update");
    assert!(matches!(u.on_connected(Ok(())), UpdateAction::DeleteRRset { .. }));
    assert!(matches!(u.on_reply(Ok(0)), UpdateAction::Finish(Ok(()))));
    assert_eq!(u.phase(), UpdatePhase::Done);
}

#[test]
fn update_reports_errors() {
    let mut u = PtrUpdate::start("a.example", 60, "b.example", "example").ok().expect("update");
    match u.on_connected(Err("connection refused".into())) {
        UpdateAction::Finish(Err(DnsError::Protocol(m))) => assert_eq!(m, "connection refused"),
        _ => panic!("expected a protocol error"),
    }
    let mut u = PtrUpdate::start("a.example", 60, "b.example", "example").ok().expect("update");
    u.on_connected(Ok(()));
    match u.on_reply(Ok(5)) {
        UpdateAction::Finish(Err(DnsError::Response(m))) => {
            assert_eq!(m, "Query Refused");
            assert_eq!(m, ResponseCode::Refused.to_string());
        }
        _ => panic!("expected a response error"),
    }
    let mut u = PtrUpdate::start("a.example", 60, "b.example", "example").ok().expect("update");
    u.on_connected(Ok(()));
    match u.on_reply(Err("timed out".into())) {
        UpdateAction::Finish(Err(DnsError::Protocol(m))) => assert_eq!(m, "timed out"),
        _ => panic!("expected a protocol error"),
    }
    let bad = long_label();
    let mut u = PtrUpdate::start("a.example", 60, &bad, "example").ok().expect("update");
    u.on_connected(Ok(()));
    match u.on_reply(Ok(0)) {
        UpdateAction::Finish(Err(DnsError::Parse(m))) => {
            assert_eq!(m, Name::from_str_relaxed(&bad).unwrap_err().to_string())
        }
        _ => panic!("expected a parse error"),
    }
    let mut u = PtrUpdate::start("a.example", 60, "b.example", "example").ok().expect("update");
    u.on_connected(Ok(()));
    assert!(matches!(u.on_reply(Ok(0)), UpdateAction::AppendRRset { .. }));
    match u.on_reply(Ok(9)) {
        UpdateAction::Finish(Err(DnsError::Response(m))) => assert_eq!(m, "Not authorized"),
        _ => panic!("expected a response error"),
    }
}

fn answer(record_type: RecordType, owner: &str, target: Option<&str>) -> Answer {
    Answer { record_type: u16::from(record_type), name: name(owner), ptr_target: target.map(name) }
}

#[test]
fn collect_keeps_ptr_answers_at_the_owner() {
    let owner = name("1.0.0.127.in-addr.arpa.");
    let answers = vec![
        answer(RecordType::PTR, "1.0.0.127.in-addr.arpa.", Some("host.example.com.")),
        answer(RecordType::CNAME, "1.0.0.127.in-addr.arpa.", None),
        answer(RecordType::PTR, "2.0.0.127.in-addr.arpa.", Some("other.example.com.")),
        answer(RecordType::PTR, "1.0.0.127.IN-ADDR.ARPA.", Some("second.example.com")),
        answer(RecordType::PTR, "1.0.0.127.in-addr.arpa.", None),
    ];
    assert_eq!(
        collect_ptr_targets(&answers, &owner),
        vec!["host.example.com".to_string(), "second.example.com".to_string()]
    );
    assert!(collect_ptr_targets(&vec![], &owner).is_empty());
}

#[test]
fn select_applies_type_owner_and_target() {
    let s = |t: u16, m: bool, x: Option<&str>| AnswerSummary {
        record_type: t,
        owner_matches: m,
        target_text: x.map(|x| x.to_string()),
    };
    let v = vec![s(12, true, Some("a.")), s(12, false, Some("b.")), s(5, true, Some("c.")), s(12, true, None), s(12, true, Some("d"))];
    assert_eq!(select_ptr_targets(&v), vec!["a".to_string(), "d".to_string()]);
}

#[test]
fn lookup_runs_to_the_targets() {
    let mut l = PtrLookup::start("1.0.0.127.in-addr.arpa.").ok().expect("lookup");
    assert_eq!(l.phase(), LookupPhase::AwaitConnect);
    match l.on_connected(Ok(())) {
        LookupAction::Query { owner, class, record_type } => {
            assert_eq!(owner, name("1.0.0.127.in-addr.arpa."));
            assert_eq!((class, record_type), (1, 12));
        }
        _ => panic!("expected a query"),
    }
    let answers = vec![answer(RecordType::PTR, "1.0.0.127.in-addr.arpa.", Some("host.example.com."))];
    match l.on_answer(Ok((0, answers))) {
        LookupAction::Finish(Ok(v)) => assert_eq!(v, vec!["host.example.com".to_string()]),
        _ => panic!("expected targets"),
    }
    assert_eq!(l.phase(), LookupPhase::Done);
}

#[test]
fn lookup_treats_nxdomain_as_empty_and_reports_errors() {
    let mut l = PtrLookup::start("x.example").ok().expect("lookup");
    l.on_connected(Ok(()));
    match l.on_answer(Ok((3, vec![]))) {
        LookupAction::Finish(Ok(v)) => assert!(v.is_empty()),
        _ => panic!("expected no targets"),
    }
    let mut l = PtrLookup::start("x.example").ok().expect("lookup");
    l.on_connected(Ok(()));
    match l.on_answer(Ok((2, vec![]))) {
        LookupAction::Finish(Err(DnsError::Response(m))) => assert_eq!(m, "Server Failure"),
        _ => panic!("expected a response error"),
    }
    let mut l = PtrLookup::start("x.example").ok().expect("lookup");
    match l.on_connected(Err("unreachable".into())) {
        LookupAction::Finish(Err(DnsError::Protocol(m))) => assert_eq!(m, "unreachable"),
        _ => panic!("expected a protocol error"),
    }
    let mut l = PtrLookup::start("x.example").ok().expect("lookup");
    l.on_connected(Ok(()));
    match l.on_answer(Err("timed out".into())) {
        LookupAction::Finish(Err(DnsError::Protocol(m))) => assert_eq!(m, "timed out"),
        _ => panic!("expected a protocol error"),
    }
    let bad = long_label();
    match PtrLookup::start(&bad) {
        Err(DnsError::Parse(m)) => assert_eq!(m, Name::from_str_relaxed(&bad).unwrap_err().to_string()),
        _ => panic!("expected a parse error"),
    }
}
