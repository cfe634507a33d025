//! The reconciler: at each tick it reads every stored record and makes the
//! DNS server agree with it. For each record, in order, it lists the PTR
//! targets that the server has at the record's name; when they are not
//! exactly the record's target, it sets the record on the server again. The
//! first error ends the round.
use vstd::prelude::*;
use crate::db::DnsRecord;
use crate::dns_client::{strings_view, DnsError, DnsErrorView};

verus! {

/// Why a round of the reconciler ended early.
#[derive(Debug, Clone)]
pub enum ReconcileError {
    /// Reading the records failed, with this message.
    Database(String),
    /// Talking to the DNS server failed.
    Dns(DnsError),
}

pub enum ReconcileErrorView {
    Database(Seq<char>),
    Dns(DnsErrorView),
}

impl View for ReconcileError {
    type V = ReconcileErrorView;

    open spec fn view(&self) -> ReconcileErrorView {
        match self {
            ReconcileError::Database(m) => ReconcileErrorView::Database(m@),
            ReconcileError::Dns(e) => ReconcileErrorView::Dns(e@),
        }
    }
}

impl ReconcileError {
    /// The text that describes the error.
    pub fn message(&self) -> (s: String)
        ensures
            s@ == match self@ {
                ReconcileErrorView::Database(m) => m,
                ReconcileErrorView::Dns(e) => e.message(),
            },
    {
        match self {
            ReconcileError::Database(m) => m.clone(),
            ReconcileError::Dns(e) => e.message(),
        }
    }
}

/// What to do next in a round.
pub enum ReconcileAction {
    /// List the PTR targets that the DNS server has at `name`.
    ListPtrs { name: String },
    /// Set the PTR record of `name` in `zone` on the DNS server.
    SetPtr { name: String, ttl: u32, ptr_target: String, zone: String },
    /// The round is over, with this outcome.
    Finish(Result<(), ReconcileError>),
}

pub enum ReconcileActionView {
    ListPtrs(Seq<char>),
    SetPtr(Seq<char>, u32, Seq<char>, Seq<char>),
    Done,
    Failed(ReconcileErrorView),
}

impl View for ReconcileAction {
    type V = ReconcileActionView;

    open spec fn view(&self) -> ReconcileActionView {
        match self {
            ReconcileAction::ListPtrs { name } => ReconcileActionView::ListPtrs(name@),
            ReconcileAction::SetPtr { name, ttl, ptr_target, zone } => ReconcileActionView::SetPtr(
                name@,
                *ttl,
                ptr_target@,
                zone@,
            ),
            ReconcileAction::Finish(Ok(_)) => ReconcileActionView::Done,
            ReconcileAction::Finish(Err(e)) => ReconcileActionView::Failed(e@),
        }
    }
}

/// What the reconciler reads of a stored record.
pub struct RecordView {
    pub zone: Seq<char>,
    pub name: Seq<char>,
    pub ptr_target: Seq<char>,
    pub ttl: i32,
}

pub open spec fn record_view(r: DnsRecord) -> RecordView {
    RecordView { zone: r.zone@, name: r.name@, ptr_target: r.ptr_target@, ttl: r.ttl }
}

pub open spec fn records_view(rs: Seq<DnsRecord>) -> Seq<RecordView> {
    rs.map_values(|r: DnsRecord| record_view(r))
}

/// Where a round stands.
#[derive(Clone, Copy, Debug, PartialEq, Eq, Structural)]
pub enum ReconcilePhase {
    AwaitListing,
    AwaitUpdate,
    Done,
}

/// A round as a state: the records, the one at hand, and the phase.
pub struct ReconcileState {
    pub records: Seq<RecordView>,
    pub current: int,
    pub phase: ReconcilePhase,
}

/// The server agrees with a record when it lists exactly its target.
pub open spec fn in_sync(found: Seq<Seq<char>>, target: Seq<char>) -> bool {
    found == seq![target]
}

/// Moving on to the record at `i`: list it, or end the round when there is
/// none left.
pub open spec fn visit(records: Seq<RecordView>, i: int) -> (ReconcileState, ReconcileActionView) {
    if i < records.len() {
        (
            ReconcileState { records, current: i, phase: ReconcilePhase::AwaitListing },
            ReconcileActionView::ListPtrs(records[i].name),
        )
    } else {
        (
            ReconcileState { records, current: i, phase: ReconcilePhase::Done },
            ReconcileActionView::Done,
        )
    }
}

/// The step that follows the listing of the record at hand: an error ends
/// the round; a server that agrees leads to the next record; otherwise the
/// record is set again.
pub open spec fn on_listing_step(s: ReconcileState, found: Result<Seq<Seq<char>>, DnsErrorView>) -> (
    ReconcileState,
    ReconcileActionView,
) {
    match found {
        Err(e) => (
            ReconcileState { phase: ReconcilePhase::Done, ..s },
            ReconcileActionView::Failed(ReconcileErrorView::Dns(e)),
        ),
        Ok(f) => {
            let r = s.records[s.current];
            if in_sync(f, r.ptr_target) {
                visit(s.records, s.current + 1)
            } else {
                (
                    ReconcileState { phase: ReconcilePhase::AwaitUpdate, ..s },
                    ReconcileActionView::SetPtr(r.name, r.ttl as u32, r.ptr_target, r.zone),
                )
            }
        },
    }
}

/// The step that follows setting the record at hand: an error ends the
/// round, success leads to the next record.
pub open spec fn on_updated_step(s: ReconcileState, r: Result<(), DnsErrorView>) -> (
    ReconcileState,
    ReconcileActionView,
) {
    match r {
        Err(e) => (
            ReconcileState { phase: ReconcilePhase::Done, ..s },
            ReconcileActionView::Failed(ReconcileErrorView::Dns(e)),
        ),
        Ok(_) => visit(s.records, s.current + 1),
    }
}

/// The outcome of a DNS exchange as a view, its success value replaced by `ok`.
pub open spec fn dns_result_view<T, U>(r: Result<T, DnsError>, ok: U) -> Result<U, DnsErrorView> {
    match r {
        Ok(_) => Ok(ok),
        Err(e) => Err(e@),
    }
}

/// A round of the reconciler over the stored records. Made by `start` from
/// what the database returned; then each listing is handed to `on_listing`
/// and each update's outcome to `on_updated`.
pub struct Reconciliation {
    records: Vec<DnsRecord>,
    current: usize,
    phase: ReconcilePhase,
}

impl View for Reconciliation {
    type V = ReconcileState;

    closed spec fn view(&self) -> ReconcileState {
        ReconcileState {
            records: records_view(self.records@),
            current: self.current as int,
            phase: self.phase,
        }
    }
}

impl Reconciliation {
    /// The record at hand exists while the round is not over.
    pub closed spec fn wf(&self) -> bool {
        self.phase != ReconcilePhase::Done ==> self.current < self.records.len()
    }

    /// A round over what the database returned: its error ends the round at
    /// once; otherwise the round begins with the first record.
    pub fn start(records: Result<Vec<DnsRecord>, String>) -> (res: (Reconciliation, ReconcileAction))
        ensures
            res.0.wf(),
            match records {
                Err(m) => res.0@.phase == ReconcilePhase::Done && res.1@
                    == ReconcileActionView::Failed(ReconcileErrorView::Database(m@)),
                Ok(rs) => (res.0@, res.1@) == visit(records_view(rs@), 0),
            },
    {
        match records {
            Err(m) => (
                Reconciliation { records: Vec::new(), current: 0, phase: ReconcilePhase::Done },
                ReconcileAction::Finish(Err(ReconcileError::Database(m))),
            ),
            Ok(rs) => {
                let mut r = Reconciliation { records: rs, current: 0, phase: ReconcilePhase::Done };
                let action = r.visit(0);
                (r, action)
            },
        }
    }

    fn visit(&mut self, i: usize) -> (action: ReconcileAction)
        requires
            i <= old(self).records.len(),
        ensures
            final(self).records == old(self).records,
            final(self).wf(),
            (final(self)@, action@) == visit(old(self)@.records, i as int),
    {
        self.current = i;
        if i < self.records.len() {
            self.phase = ReconcilePhase::AwaitListing;
            ReconcileAction::ListPtrs { name: self.records[i].name.clone() }
        } else {
            self.phase = ReconcilePhase::Done;
            ReconcileAction::Finish(Ok(()))
        }
    }

    /// Where the round stands.
    pub fn phase(&self) -> (p: ReconcilePhase)
        ensures
            p == self@.phase,
    {
        self.phase
    }

    /// The targets that the server lists at the name of the record at hand,
    /// or the error of the lookup.
    pub fn on_listing(&mut self, found: Result<Vec<String>, DnsError>) -> (action: ReconcileAction)
        requires
            old(self).wf(),
            old(self)@.phase == ReconcilePhase::AwaitListing,
        ensures
            final(self).wf(),
            (final(self)@, action@) == on_listing_step(
                old(self)@,
                match found {
                    Ok(f) => Ok(strings_view(f@)),
                    Err(e) => Err(e@),
                },
            ),
            found matches Ok(f) ==> (strings_view(f@) != seq![
                old(self)@.records[old(self)@.current].ptr_target,
            ] <==> action@ is SetPtr),
            found matches Ok(f) ==> (strings_view(f@) != seq![
                old(self)@.records[old(self)@.current].ptr_target,
            ] ==> action@ == ReconcileActionView::SetPtr(
                old(self)@.records[old(self)@.current].name,
                old(self)@.records[old(self)@.current].ttl as u32,
                old(self)@.records[old(self)@.current].ptr_target,
                old(self)@.records[old(self)@.current].zone,
            )),
    {
        match found {
            Err(e) => {
                self.phase = ReconcilePhase::Done;
                ReconcileAction::Finish(Err(ReconcileError::Dns(e)))
            },
            Ok(f) => {
                proof {
                    lemma_listing_sets_again_unless_exactly_the_target(self@, strings_view(f@));
                }
                let i: usize = self.current;
                let ghost r = self.records@[i as int];
                assert(records_view(self.records@)[i as int] == record_view(r));
                let agrees = f.len() == 1 && f[0] == self.records[i].ptr_target;
                proof {
                    let fv = strings_view(f@);
                    let t = r.ptr_target@;
                    assert(fv.len() == f@.len());
                    if agrees {
                        assert(fv[0] == f@[0]@);
                        assert(fv =~= seq![t]);
                    }
                    if in_sync(fv, t) {
                        assert(fv.len() == 1);
                        assert(fv[0] == t);
                        assert(f@[0]@ == fv[0]);
                    }
                }
                if agrees {
                    self.visit(i + 1)
                } else {
                    self.phase = ReconcilePhase::AwaitUpdate;
                    let rec = &self.records[i];
                    ReconcileAction::SetPtr {
                        name: rec.name.clone(),
                        ttl: rec.ttl as u32,
                        ptr_target: rec.ptr_target.clone(),
                        zone: rec.zone.clone(),
                    }
                }
            },
        }
    }

    /// The outcome of setting the record at hand on the server.
    pub fn on_updated(&mut self, updated: Result<(), DnsError>) -> (action: ReconcileAction)
        requires
            old(self).wf(),
            old(self)@.phase == ReconcilePhase::AwaitUpdate,
        ensures
            final(self).wf(),
            (final(self)@, action@) == on_updated_step(old(self)@, dns_result_view(updated, ())),
    {
        match updated {
            Err(e) => {
                self.phase = ReconcilePhase::Done;
                ReconcileAction::Finish(Err(ReconcileError::Dns(e)))
            },
            Ok(_) => {
                let i: usize = self.current;
                self.visit(i + 1)
            },
        }
    }
}

/// A round driven from state `s`: the server lists `listings[i]` at the name
/// of the i-th record, and every update succeeds. The actions, in order.
pub open spec fn drive(s: ReconcileState, listings: Seq<Seq<Seq<char>>>) -> Seq<ReconcileActionView>
    decreases s.records.len() - s.current,
{
    if s.phase != ReconcilePhase::AwaitListing || !(0 <= s.current < s.records.len()) {
        seq![]
    } else {
        let (s1, a1) = on_listing_step(s, Ok(listings[s.current]));
        if s1.phase == ReconcilePhase::AwaitUpdate {
            let (s2, a2) = on_updated_step(s1, Ok(()));
            seq![a1, a2] + drive(s2, listings)
        } else {
            seq![a1] + drive(s1, listings)
        }
    }
}

/// The action that moves past the record at `i`: listing the next record,
/// or the end of the round.
pub open spec fn next_after(records: Seq<RecordView>, i: int) -> ReconcileActionView {
    if i + 1 < records.len() {
        ReconcileActionView::ListPtrs(records[i + 1].name)
    } else {
        ReconcileActionView::Done
    }
}

/// What a round does from the record at `i` on, when every update succeeds:
/// for each record in order, it sets the record again exactly when the
/// server's listing is not its target alone, then moves on.
pub open spec fn expected_actions(
    records: Seq<RecordView>,
    listings: Seq<Seq<Seq<char>>>,
    i: int,
) -> Seq<ReconcileActionView>
    decreases records.len() - i,
{
    if i < 0 || i >= records.len() {
        seq![]
    } else {
        let r = records[i];
        let here = if in_sync(listings[i], r.ptr_target) {
            seq![next_after(records, i)]
        } else {
            seq![
                ReconcileActionView::SetPtr(r.name, r.ttl as u32, r.ptr_target, r.zone),
                next_after(records, i),
            ]
        };
        here + expected_actions(records, listings, i + 1)
    }
}

proof fn lemma_drive_from(records: Seq<RecordView>, listings: Seq<Seq<Seq<char>>>, i: int)
    requires
        0 <= i <= records.len(),
    ensures
        drive(visit(records, i).0, listings) == expected_actions(records, listings, i),
    decreases records.len() - i,
{
    let s = visit(records, i).0;
    if i < records.len() {
        lemma_drive_from(records, listings, i + 1);
        let r = records[i];
        let (s1, a1) = on_listing_step(s, Ok(listings[i]));
        if in_sync(listings[i], r.ptr_target) {
            assert(s1 == visit(records, i + 1).0);
            assert(drive(s, listings) =~= seq![a1] + drive(s1, listings));
            assert(drive(s, listings) =~= expected_actions(records, listings, i));
        } else {
            let (s2, a2) = on_updated_step(s1, Ok(()));
            assert(s2 == visit(records, i + 1).0);
            assert(drive(s, listings) =~= seq![a1, a2] + drive(s2, listings));
            assert(drive(s, listings) =~= expected_actions(records, listings, i));
        }
    } else {
        assert(drive(s, listings) =~= seq![]);
    }
}

/// A round in which every update succeeds lists the records in their order,
/// sets again exactly those that the server lists otherwise than as their
/// target alone (with the record's name, TTL, target and zone), and ends
/// once every record has been seen.
pub proof fn lemma_round_resets_exactly_the_records_out_of_sync(
    records: Seq<RecordView>,
    listings: Seq<Seq<Seq<char>>>,
)
    requires
        listings.len() == records.len(),
    ensures
        ({
            let (s0, a0) = visit(records, 0);
            seq![a0] + drive(s0, listings) == if records.len() == 0 {
                seq![ReconcileActionView::Done]
            } else {
                seq![ReconcileActionView::ListPtrs(records[0].name)] + expected_actions(
                    records,
                    listings,
                    0,
                )
            }
        }),
{
    lemma_drive_from(records, listings, 0);
    let (s0, a0) = visit(records, 0);
    if records.len() == 0 {
        assert(drive(s0, listings) =~= seq![]);
        assert(seq![a0] + drive(s0, listings) =~= seq![ReconcileActionView::Done]);
    }
}

/// After a listing of the record at hand, the round sets that record again
/// (with its name, TTL, target and zone) exactly when the server did not
/// list its target and nothing else; otherwise it moves on to the next record
/// or ends.
pub proof fn lemma_listing_sets_again_unless_exactly_the_target(
    s: ReconcileState,
    found: Seq<Seq<char>>,
)
    requires
        0 <= s.current < s.records.len(),
    ensures
        ({
            let r = s.records[s.current];
            let (s1, a1) = on_listing_step(s, Ok(found));
            &&& (found != seq![r.ptr_target]) == (a1 is SetPtr)
            &&& found != seq![r.ptr_target] ==> a1 == ReconcileActionView::SetPtr(
                r.name,
                r.ttl as u32,
                r.ptr_target,
                r.zone,
            ) && s1.phase == ReconcilePhase::AwaitUpdate && s1.current == s.current
            &&& found == seq![r.ptr_target] ==> s1.current == s.current + 1 && (a1
                == ReconcileActionView::Done || a1 == ReconcileActionView::ListPtrs(
                s.records[s.current + 1].name,
            ))
        }),
{
}

} // verus!
