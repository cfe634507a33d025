//! The HTTP API over the PTR records: the request and response bodies, the
//! error replies, and the decisions of each route.
//!
//! `GET /zones/{zone}/ptrs` lists a zone, `GET /zones/{zone}/ptrs/{name}`
//! reads one record, `PUT` sets it (database first, then the DNS server,
//! undoing the database write when the DNS update fails) and `DELETE`
//! removes it (from the DNS server first, then from the database).
use vstd::prelude::*;
use crate::db::DnsRecord;
use crate::dns_client::{DnsError, DnsErrorView};

verus! {

pub const STATUS_BAD_REQUEST: u16 = 400;

pub const STATUS_NOT_FOUND: u16 = 404;

pub const STATUS_INTERNAL_SERVER_ERROR: u16 = 500;

pub const STATUS_BAD_GATEWAY: u16 = 502;

/// A PTR record as the API shows it.
#[derive(Debug, Clone)]
pub struct PtrResponse {
    pub zone: String,
    pub name: String,
    pub ptr_target: String,
    pub ttl: i32,
}

/// The body of an error reply.
#[derive(Debug, Clone)]
pub struct ErrorResponse {
    pub error: String,
}

/// The body of a request that sets a PTR record; a missing TTL is
/// `default_ttl()`.
#[derive(Debug, Clone)]
pub struct SetPtrRequest {
    pub ptr_target: String,
    pub ttl: i32,
}

/// An error reply: its HTTP status and its body.
#[derive(Debug, Clone)]
pub struct ApiError {
    pub status: u16,
    pub body: ErrorResponse,
}

impl View for PtrResponse {
    type V = (Seq<char>, Seq<char>, Seq<char>, i32);

    open spec fn view(&self) -> (Seq<char>, Seq<char>, Seq<char>, i32) {
        (self.zone@, self.name@, self.ptr_target@, self.ttl)
    }
}

impl View for ApiError {
    type V = (u16, Seq<char>);

    open spec fn view(&self) -> (u16, Seq<char>) {
        (self.status, self.body.error@)
    }
}

/// How the API shows a stored record.
pub open spec fn record_response(r: DnsRecord) -> (Seq<char>, Seq<char>, Seq<char>, i32) {
    (r.zone@, r.name@, r.ptr_target@, r.ttl)
}

/// Time to live given to a PTR record when a request names none.
pub fn default_ttl() -> (ttl: i32)
    ensures
        ttl == 300,
{
    300
}

/// How the API shows a stored record: its zone, name, target and TTL.
pub fn to_response(record: &DnsRecord) -> (res: PtrResponse)
    ensures
        res@ == record_response(*record),
        res.zone@ == record.zone@,
        res.name@ == record.name@,
        res.ptr_target@ == record.ptr_target@,
        res.ttl == record.ttl,
{
    PtrResponse {
        zone: record.zone.clone(),
        name: record.name.clone(),
        ptr_target: record.ptr_target.clone(),
        ttl: record.ttl,
    }
}

/// How the API shows a list of stored records, in their order.
pub fn to_responses(records: &Vec<DnsRecord>) -> (res: Vec<PtrResponse>)
    ensures
        res.len() == records.len(),
        forall|i: int| 0 <= i < records.len() ==> #[trigger] res[i]@ == record_response(records[i]),
{
    let mut res: Vec<PtrResponse> = Vec::new();
    let mut i: usize = 0;
    while i < records.len()
        invariant
            i <= records.len(),
            res.len() == i,
            forall|j: int| 0 <= j < i ==> #[trigger] res[j]@ == record_response(records[j]),
        decreases records.len() - i,
    {
        res.push(to_response(&records[i]));
        i = i + 1;
    }
    res
}

/// A 500 reply with the given message.
pub fn internal_error(msg: String) -> (e: ApiError)
    ensures
        e@ == (STATUS_INTERNAL_SERVER_ERROR, msg@),
{
    ApiError { status: STATUS_INTERNAL_SERVER_ERROR, body: ErrorResponse { error: msg } }
}

/// A 404 reply with the given message.
pub fn not_found(msg: &str) -> (e: ApiError)
    ensures
        e@ == (STATUS_NOT_FOUND, msg@),
{
    ApiError { status: STATUS_NOT_FOUND, body: ErrorResponse { error: msg.to_owned() } }
}

/// A 400 reply with the given message.
pub fn bad_request(msg: &str) -> (e: ApiError)
    ensures
        e@ == (STATUS_BAD_REQUEST, msg@),
{
    ApiError { status: STATUS_BAD_REQUEST, body: ErrorResponse { error: msg.to_owned() } }
}

/// A 502 reply saying that the DNS update failed, and why.
pub fn dns_error(msg: String) -> (e: ApiError)
    ensures
        e@ == (STATUS_BAD_GATEWAY, "DNS update failed: "@ + msg@),
{
    ApiError {
        status: STATUS_BAD_GATEWAY,
        body: ErrorResponse { error: String::from_str("DNS update failed: ").concat(msg.as_str()) },
    }
}

/// Why a request to set a record is refused, if it is: an empty target is
/// refused first, then a negative TTL.
pub open spec fn set_request_refusal(target: Seq<char>, ttl: i32) -> Option<(u16, Seq<char>)> {
    if target.len() == 0 {
        Some((STATUS_BAD_REQUEST, "ptr_target must not be empty"@))
    } else if ttl < 0 {
        Some((STATUS_BAD_REQUEST, "ttl must be non-negative"@))
    } else {
        None
    }
}

/// Checks a request to set a record: the target must not be empty and the
/// TTL must not be negative.
pub fn validate_set_ptr(body: &SetPtrRequest) -> (res: Result<(), ApiError>)
    ensures
        res is Ok <==> (body.ptr_target@.len() > 0 && body.ttl >= 0),
        match set_request_refusal(body.ptr_target@, body.ttl) {
            None => res is Ok,
            Some(v) => match res {
                Err(e) => e@ == v,
                Ok(_) => false,
            },
        },
{
    if body.ptr_target.as_str().is_empty() {
        return Err(bad_request("ptr_target must not be empty"));
    }
    if body.ttl < 0 {
        return Err(bad_request("ttl must be non-negative"));
    }
    Ok(())
}

/// The reply to listing a zone, given what the database returned (its
/// records, or the text of its error).
pub fn list_ptrs_reply(records: Result<Vec<DnsRecord>, String>) -> (res: Result<
    Vec<PtrResponse>,
    ApiError,
>)
    ensures
        match records {
            Err(m) => match res {
                Err(e) => e@ == (STATUS_INTERNAL_SERVER_ERROR, m@),
                Ok(_) => false,
            },
            Ok(rs) => match res {
                Ok(v) => v.len() == rs.len() && forall|i: int|
                    0 <= i < rs.len() ==> #[trigger] v[i]@ == record_response(rs[i]),
                Err(_) => false,
            },
        },
{
    match records {
        Err(m) => Err(internal_error(m)),
        Ok(rs) => Ok(to_responses(&rs)),
    }
}

/// The reply to reading one record, given what the database returned.
pub fn get_ptr_reply(found: Result<Option<DnsRecord>, String>) -> (res: Result<
    PtrResponse,
    ApiError,
>)
    ensures
        match found {
            Err(m) => match res {
                Err(e) => e@ == (STATUS_INTERNAL_SERVER_ERROR, m@),
                Ok(_) => false,
            },
            Ok(None) => match res {
                Err(e) => e@ == (STATUS_NOT_FOUND, "PTR record not found"@),
                Ok(_) => false,
            },
            Ok(Some(r)) => match res {
                Ok(p) => p@ == record_response(r),
                Err(_) => false,
            },
        },
{
    match found {
        Err(m) => Err(internal_error(m)),
        Ok(None) => Err(not_found("PTR record not found")),
        Ok(Some(r)) => Ok(to_response(&r)),
    }
}

/// Where a request to set a record stands.
#[derive(Clone, Copy, Debug, PartialEq, Eq, Structural)]
pub enum SetPtrPhase {
    AwaitUpsert,
    AwaitDns,
    AwaitRollback,
    Done,
}

/// What to do next for a request to set a record.
pub enum SetPtrAction {
    /// Insert the record of (zone, name), or update its target and TTL.
    Upsert { zone: String, name: String, ptr_target: String, ttl: i32 },
    /// Set the PTR record on the DNS server.
    SyncDns { name: String, ttl: u32, ptr_target: String, zone: String },
    /// Delete the record of (zone, name) from the database again.
    Rollback { zone: String, name: String },
    /// Answer the request.
    Reply(Result<PtrResponse, ApiError>),
}

pub enum SetPtrActionView {
    Upsert(Seq<char>, Seq<char>, Seq<char>, i32),
    SyncDns(Seq<char>, u32, Seq<char>, Seq<char>),
    Rollback(Seq<char>, Seq<char>),
    ReplyOk((Seq<char>, Seq<char>, Seq<char>, i32)),
    ReplyErr((u16, Seq<char>)),
}

impl View for SetPtrAction {
    type V = SetPtrActionView;

    open spec fn view(&self) -> SetPtrActionView {
        match self {
            SetPtrAction::Upsert { zone, name, ptr_target, ttl } => SetPtrActionView::Upsert(
                zone@,
                name@,
                ptr_target@,
                *ttl,
            ),
            SetPtrAction::SyncDns { name, ttl, ptr_target, zone } => SetPtrActionView::SyncDns(
                name@,
                *ttl,
                ptr_target@,
                zone@,
            ),
            SetPtrAction::Rollback { zone, name } => SetPtrActionView::Rollback(zone@, name@),
            SetPtrAction::Reply(Ok(p)) => SetPtrActionView::ReplyOk(p@),
            SetPtrAction::Reply(Err(e)) => SetPtrActionView::ReplyErr(e@),
        }
    }
}

/// A request to set the PTR record of (zone, name). The record is written to
/// the database first, then to the DNS server; when the DNS update fails,
/// the database write is undone and the reply is a 502.
pub struct SetPtrFlow {
    zone: String,
    name: String,
    ptr_target: String,
    ttl: i32,
    record: Option<DnsRecord>,
    failure: String,
    phase: SetPtrPhase,
}

impl SetPtrFlow {
    pub closed spec fn spec_phase(&self) -> SetPtrPhase {
        self.phase
    }

    /// Zone, name, target and TTL of the request.
    pub closed spec fn spec_request(&self) -> (Seq<char>, Seq<char>, Seq<char>, i32) {
        (self.zone@, self.name@, self.ptr_target@, self.ttl)
    }

    /// The record that the database returned, once it has.
    pub closed spec fn spec_record(&self) -> Option<DnsRecord> {
        self.record
    }

    /// The text of the DNS error, once there is one.
    pub closed spec fn spec_failure(&self) -> Seq<char> {
        self.failure@
    }

    /// A request to set the PTR record of (zone, name) from `body`. A refused
    /// request is answered at once; otherwise the next step is the database.
    pub fn start(zone: String, name: String, body: SetPtrRequest) -> (res: (SetPtrFlow, SetPtrAction))
        ensures
            res.0.spec_request() == (zone@, name@, body.ptr_target@, body.ttl),
            res.0.spec_record() is None,
            match set_request_refusal(body.ptr_target@, body.ttl) {
                Some(v) => res.0.spec_phase() == SetPtrPhase::Done && res.1@
                    == SetPtrActionView::ReplyErr(v),
                None => res.0.spec_phase() == SetPtrPhase::AwaitUpsert && res.1@
                    == SetPtrActionView::Upsert(zone@, name@, body.ptr_target@, body.ttl),
            },
    {
        let checked = validate_set_ptr(&body);
        let mut flow = SetPtrFlow {
            zone,
            name,
            ptr_target: body.ptr_target,
            ttl: body.ttl,
            record: None,
            failure: String::new(),
            phase: SetPtrPhase::Done,
        };
        match checked {
            Err(e) => (flow, SetPtrAction::Reply(Err(e))),
            Ok(_) => {
                flow.phase = SetPtrPhase::AwaitUpsert;
                let action = SetPtrAction::Upsert {
                    zone: flow.zone.clone(),
                    name: flow.name.clone(),
                    ptr_target: flow.ptr_target.clone(),
                    ttl: flow.ttl,
                };
                (flow, action)
            },
        }
    }

    /// Where the request stands.
    pub fn phase(&self) -> (p: SetPtrPhase)
        ensures
            p == self.spec_phase(),
    {
        self.phase
    }

    /// What the database write gave: its error is a 500; the record written
    /// leads to the DNS update, with the request's name, TTL, target and zone.
    pub fn on_upserted(&mut self, written: Result<DnsRecord, String>) -> (action: SetPtrAction)
        requires
            old(self).spec_phase() == SetPtrPhase::AwaitUpsert,
        ensures
            final(self).spec_request() == old(self).spec_request(),
            match written {
                Err(m) => final(self).spec_phase() == SetPtrPhase::Done && action@
                    == SetPtrActionView::ReplyErr((STATUS_INTERNAL_SERVER_ERROR, m@)),
                Ok(r) => {
                    let (zone, name, target, ttl) = old(self).spec_request();
                    &&& final(self).spec_phase() == SetPtrPhase::AwaitDns
                    &&& final(self).spec_record() == Some(r)
                    &&& action@ == SetPtrActionView::SyncDns(name, ttl as u32, target, zone)
                },
            },
    {
        match written {
            Err(m) => {
                self.phase = SetPtrPhase::Done;
                SetPtrAction::Reply(Err(internal_error(m)))
            },
            Ok(r) => {
                self.record = Some(r);
                self.phase = SetPtrPhase::AwaitDns;
                SetPtrAction::SyncDns {
                    name: self.name.clone(),
                    ttl: self.ttl as u32,
                    ptr_target: self.ptr_target.clone(),
                    zone: self.zone.clone(),
                }
            },
        }
    }

    /// What the DNS update gave: success answers with the record written;
    /// failure leads to deleting it from the database again.
    pub fn on_dns_synced(&mut self, synced: Result<(), DnsError>) -> (action: SetPtrAction)
        requires
            old(self).spec_phase() == SetPtrPhase::AwaitDns,
            old(self).spec_record() is Some,
        ensures
            final(self).spec_request() == old(self).spec_request(),
            final(self).spec_record() == old(self).spec_record(),
            match synced {
                Ok(_) => final(self).spec_phase() == SetPtrPhase::Done && action@
                    == SetPtrActionView::ReplyOk(record_response(old(self).spec_record()->0)),
                Err(e) => {
                    let (zone, name, _, _) = old(self).spec_request();
                    &&& final(self).spec_phase() == SetPtrPhase::AwaitRollback
                    &&& final(self).spec_failure() == e@.message()
                    &&& action@ == SetPtrActionView::Rollback(zone, name)
                },
            },
    {
        match synced {
            Ok(_) => {
                self.phase = SetPtrPhase::Done;
                match &self.record {
                    Some(r) => SetPtrAction::Reply(Ok(to_response(r))),
                    None => unreached(),
                }
            },
            Err(e) => {
                self.failure = e.message();
                self.phase = SetPtrPhase::AwaitRollback;
                SetPtrAction::Rollback { zone: self.zone.clone(), name: self.name.clone() }
            },
        }
    }

    /// The database write has been undone (whatever the delete gave): the
    /// answer is a 502 that says why the DNS update failed.
    pub fn on_rolled_back(&mut self) -> (action: SetPtrAction)
        requires
            old(self).spec_phase() == SetPtrPhase::AwaitRollback,
        ensures
            final(self).spec_phase() == SetPtrPhase::Done,
            final(self).spec_request() == old(self).spec_request(),
            action@ == SetPtrActionView::ReplyErr(
                (STATUS_BAD_GATEWAY, "DNS update failed: "@ + old(self).spec_failure()),
            ),
    {
        self.phase = SetPtrPhase::Done;
        SetPtrAction::Reply(Err(dns_error(self.failure.clone())))
    }
}

/// Where a request to delete a record stands.
#[derive(Clone, Copy, Debug, PartialEq, Eq, Structural)]
pub enum DeletePtrPhase {
    AwaitDns,
    AwaitDelete,
    Done,
}

/// What to do next for a request to delete a record.
pub enum DeletePtrAction {
    /// Set the PTR record of the name on the DNS server (an empty target
    /// deletes it).
    ClearDns { name: String, ttl: u32, ptr_target: String, zone: String },
    /// Delete the record of (zone, name) from the database.
    DeleteRecord { zone: String, name: String },
    /// Answer the request.
    Reply(Result<(), ApiError>),
}

pub enum DeletePtrActionView {
    ClearDns(Seq<char>, u32, Seq<char>, Seq<char>),
    DeleteRecord(Seq<char>, Seq<char>),
    ReplyOk,
    ReplyErr((u16, Seq<char>)),
}

impl View for DeletePtrAction {
    type V = DeletePtrActionView;

    open spec fn view(&self) -> DeletePtrActionView {
        match self {
            DeletePtrAction::ClearDns { name, ttl, ptr_target, zone } => DeletePtrActionView::ClearDns(
                name@,
                *ttl,
                ptr_target@,
                zone@,
            ),
            DeletePtrAction::DeleteRecord { zone, name } => DeletePtrActionView::DeleteRecord(
                zone@,
                name@,
            ),
            DeletePtrAction::Reply(Ok(_)) => DeletePtrActionView::ReplyOk,
            DeletePtrAction::Reply(Err(e)) => DeletePtrActionView::ReplyErr(e@),
        }
    }
}

/// A request to delete the PTR record of (zone, name): the DNS server is
/// cleared first (a failure there does not stop the deletion), then the
/// database; a record that was not in the database is a 404.
pub struct DeletePtrFlow {
    zone: String,
    name: String,
    phase: DeletePtrPhase,
}

impl DeletePtrFlow {
    pub closed spec fn spec_phase(&self) -> DeletePtrPhase {
        self.phase
    }

    /// Zone and name of the request.
    pub closed spec fn spec_request(&self) -> (Seq<char>, Seq<char>) {
        (self.zone@, self.name@)
    }

    /// A request to delete the record of (zone, name): the first step clears
    /// the name on the DNS server (TTL 0, empty target).
    pub fn start(zone: String, name: String) -> (res: (DeletePtrFlow, DeletePtrAction))
        ensures
            res.0.spec_request() == (zone@, name@),
            res.0.spec_phase() == DeletePtrPhase::AwaitDns,
            res.1@ == DeletePtrActionView::ClearDns(name@, 0, Seq::<char>::empty(), zone@),
    {
        let action = DeletePtrAction::ClearDns {
            name: name.clone(),
            ttl: 0,
            ptr_target: String::new(),
            zone: zone.clone(),
        };
        (DeletePtrFlow { zone, name, phase: DeletePtrPhase::AwaitDns }, action)
    }

    /// Where the request stands.
    pub fn phase(&self) -> (p: DeletePtrPhase)
        ensures
            p == self.spec_phase(),
    {
        self.phase
    }

    /// The DNS server has been asked to clear the name, whatever came of it:
    /// the next step deletes the record from the database.
    pub fn on_dns_cleared(&mut self, cleared: Result<(), DnsError>) -> (action: DeletePtrAction)
        requires
            old(self).spec_phase() == DeletePtrPhase::AwaitDns,
        ensures
            final(self).spec_request() == old(self).spec_request(),
            final(self).spec_phase() == DeletePtrPhase::AwaitDelete,
            action@ == DeletePtrActionView::DeleteRecord(
                old(self).spec_request().0,
                old(self).spec_request().1,
            ),
    {
        self.phase = DeletePtrPhase::AwaitDelete;
        DeletePtrAction::DeleteRecord { zone: self.zone.clone(), name: self.name.clone() }
    }

    /// What the database delete gave: its error is a 500, a deleted record an
    /// empty success, and a record that was not there a 404.
    pub fn on_deleted(&mut self, deleted: Result<bool, String>) -> (action: DeletePtrAction)
        requires
            old(self).spec_phase() == DeletePtrPhase::AwaitDelete,
        ensures
            final(self).spec_request() == old(self).spec_request(),
            final(self).spec_phase() == DeletePtrPhase::Done,
            action@ == match deleted {
                Err(m) => DeletePtrActionView::ReplyErr((STATUS_INTERNAL_SERVER_ERROR, m@)),
                Ok(true) => DeletePtrActionView::ReplyOk,
                Ok(false) => DeletePtrActionView::ReplyErr(
                    (STATUS_NOT_FOUND, "PTR record not found"@),
                ),
            },
    {
        self.phase = DeletePtrPhase::Done;
        match deleted {
            Err(m) => DeletePtrAction::Reply(Err(internal_error(m))),
            Ok(true) => DeletePtrAction::Reply(Ok(())),
            Ok(false) => DeletePtrAction::Reply(Err(not_found("PTR record not found"))),
        }
    }
}

/// A request to set a record is refused exactly when its target is empty
/// or its TTL is negative, always with a 400: an empty target is named
/// first, and otherwise the TTL. Every TTL from 0 up is accepted.
pub proof fn lemma_set_request_refused_only_for_empty_target_or_negative_ttl(
    target: Seq<char>,
    ttl: i32,
)
    ensures
        set_request_refusal(target, ttl) is Some <==> (target.len() == 0 || ttl < 0),
        set_request_refusal(target, ttl) matches Some(v) ==> v.0 == STATUS_BAD_REQUEST,
        target.len() == 0 ==> set_request_refusal(target, ttl) == Some(
            (STATUS_BAD_REQUEST, "ptr_target must not be empty"@),
        ),
        target.len() > 0 && ttl < 0 ==> set_request_refusal(target, ttl) == Some(
            (STATUS_BAD_REQUEST, "ttl must be non-negative"@),
        ),
{
}

/// The API shows a stored record as its zone, name, target and TTL, each as
/// stored.
pub proof fn lemma_response_shows_the_record_as_stored(r: DnsRecord)
    ensures
        record_response(r).0 == r.zone@,
        record_response(r).1 == r.name@,
        record_response(r).2 == r.ptr_target@,
        record_response(r).3 == r.ttl,
{
}

/// A request whose target is not empty and whose TTL is not negative is
/// written to the database as given, whatever the TTL.
pub proof fn lemma_valid_set_request_is_written_as_given(target: Seq<char>, ttl: i32)
    requires
        target.len() > 0,
        ttl >= 0,
    ensures
        set_request_refusal(target, ttl) is None,
{
}

} // verus!
