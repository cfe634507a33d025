//! The DNS client: its configuration, its errors, and the decisions of the
//! two exchanges it has with the server. Replacing the PTR records of a name
//! (`PtrUpdate`) deletes them and, unless the new target is empty, appends
//! the new one; listing them (`PtrLookup`) queries the name and keeps the PTR
//! answers that belong to it. The network traffic itself is carried out by
//! the caller, which performs each action and hands back what came of it.
use vstd::prelude::*;
use hickory_proto::rr::{Name, TSigner};
use crate::address::DnsAddress;
use crate::dns_proto::{
    add_record_data, ascii_name, ascii_name_error, clone_name, name_to_utf8, name_utf8,
    names_equal, names_match, new_record_set, new_tsigner, parse_name_ascii, parse_name_relaxed,
    relaxed_name, relaxed_name_error, response_code_message, response_code_text, ModeledRecordSet,
    RecordData, Signer, TsigAlg,
};
use crate::text::{spec_strip_trailing_dot, strip_trailing_dot};

verus! {

/// Record type number of PTR records.
pub const PTR_RECORD_TYPE: u16 = 12;

/// Number of the DNS class IN (Internet).
pub const DNS_CLASS_IN: u16 = 1;

/// Response code of a successful exchange (`NoError`).
pub const RCODE_NO_ERROR: u16 = 0;

/// Response code for a name that does not exist (`NXDomain`).
pub const RCODE_NX_DOMAIN: u16 = 3;

/// How long, in seconds, a signed message stays valid (the TSIG fudge).
pub const TSIG_FUDGE: u16 = 60;

/// What went wrong in an exchange with the DNS server.
#[derive(Debug, Clone)]
pub enum DnsError {
    /// The connection or the exchange failed.
    Protocol(String),
    /// A name, address or key could not be read.
    Parse(String),
    /// The server answered with an error code.
    Response(String),
}

pub enum DnsErrorView {
    Protocol(Seq<char>),
    Parse(Seq<char>),
    Response(Seq<char>),
}

impl View for DnsError {
    type V = DnsErrorView;

    open spec fn view(&self) -> DnsErrorView {
        match self {
            DnsError::Protocol(m) => DnsErrorView::Protocol(m@),
            DnsError::Parse(m) => DnsErrorView::Parse(m@),
            DnsError::Response(m) => DnsErrorView::Response(m@),
        }
    }
}

impl DnsErrorView {
    /// The text that describes the error: its kind, then its message.
    pub open spec fn message(self) -> Seq<char> {
        match self {
            DnsErrorView::Protocol(m) => "Protocol error: "@ + m,
            DnsErrorView::Parse(m) => "Parse error: "@ + m,
            DnsErrorView::Response(m) => "Response error: "@ + m,
        }
    }
}

impl DnsError {
    /// The text that describes the error: its kind, then its message.
    pub fn message(&self) -> (s: String)
        ensures
            s@ == self@.message(),
    {
        match self {
            DnsError::Protocol(m) => String::from_str("Protocol error: ").concat(m.as_str()),
            DnsError::Parse(m) => String::from_str("Parse error: ").concat(m.as_str()),
            DnsError::Response(m) => String::from_str("Response error: ").concat(m.as_str()),
        }
    }
}

/// The error that an outcome holds, if any, as a view.
pub open spec fn error_view<T>(r: Result<T, DnsError>) -> Option<DnsErrorView> {
    match r {
        Ok(_) => None,
        Err(e) => Some(e@),
    }
}

/// A DNS server and the TSIG key that signs what is sent to it.
#[derive(Clone)]
pub struct DnsClient {
    addr: DnsAddress,
    signer: Option<Signer>,
}

/// The text of the error that `TSigner::new` reports.
pub open spec fn tsigner_error_text() -> Seq<char> {
    "Tsig unsupported mac algorithm"@
}

/// `signer` is made of this key, algorithm, key name and fudge.
pub open spec fn signer_made_of(
    signer: Option<Signer>,
    key: Seq<u8>,
    algorithm: TsigAlg,
    name: Name,
    fudge: u16,
) -> bool {
    match signer {
        Some(s) => s.key() == key && s.algorithm() == algorithm && s.name() == name && s.fudge()
            == fudge,
        None => false,
    }
}

impl DnsClient {
    pub closed spec fn spec_address(&self) -> DnsAddress {
        self.addr
    }

    pub closed spec fn spec_signer(&self) -> Option<Signer> {
        self.signer
    }

    pub open spec fn has_signer(&self) -> bool {
        self.spec_signer() is Some
    }

    /// A client for the server at `addr` (the outcome of reading its address
    /// string), signing with the key `key` named `key_name`. An address that
    /// could not be read gives `Parse("Invalid address")`; a key name that
    /// `Name::from_ascii` refuses gives `Parse` with its error; otherwise the
    /// signer is made of the key, the algorithm, the parsed key name and a
    /// fudge of 60 seconds, and an unsupported algorithm gives `Parse` with
    /// the signer's error.
    pub fn new(addr: Result<DnsAddress, ()>, key_name: &str, key: Vec<u8>, algorithm: TsigAlg) -> (res:
        Result<DnsClient, DnsError>)
        ensures
            addr is Err ==> error_view(res) == Some(DnsErrorView::Parse("Invalid address"@)),
            addr is Ok && ascii_name_error(key_name@) is Some ==> error_view(res) == Some(
                DnsErrorView::Parse(ascii_name_error(key_name@)->0),
            ),
            addr is Ok && ascii_name_error(key_name@) is None ==> (res is Ok
                <==> algorithm.supported()),
            addr is Ok && ascii_name_error(key_name@) is None ==> match res {
                Ok(c) => c.spec_address() == addr->Ok_0 && signer_made_of(
                    c.spec_signer(),
                    key@,
                    algorithm,
                    ascii_name(key_name@),
                    TSIG_FUDGE,
                ),
                Err(e) => e@ == DnsErrorView::Parse(tsigner_error_text()),
            },
    {
        let addr = match addr {
            Ok(a) => a,
            Err(_) => {
                return Err(DnsError::Parse(String::from_str("Invalid address")));
            },
        };
        let signer_name = match parse_name_ascii(key_name) {
            Ok(n) => n,
            Err(m) => {
                return Err(DnsError::Parse(m));
            },
        };
        match new_tsigner(key, algorithm, signer_name, TSIG_FUDGE) {
            Ok(signer) => Ok(DnsClient { addr, signer: Some(signer) }),
            Err(m) => Err(DnsError::Parse(m)),
        }
    }

    /// The server's address.
    pub fn address(&self) -> (a: DnsAddress)
        ensures
            a == self.spec_address(),
    {
        self.addr
    }

    /// The signer of the messages, if there is one.
    pub fn signer(&self) -> (s: Option<&TSigner>)
        ensures
            s is Some == self.has_signer(),
            s matches Some(t) ==> *t == self.spec_signer()->Some_0.spec_tsigner(),
    {
        match &self.signer {
            Some(s) => Some(s.tsigner()),
            None => None,
        }
    }
}

/// Where an update of the PTR records of a name stands.
#[derive(Clone, Copy, Debug, PartialEq, Eq, Structural)]
pub enum UpdatePhase {
    AwaitConnect,
    AwaitDelete,
    AwaitAppend,
    Done,
}

/// What to do next in an update.
pub enum UpdateAction {
    /// Send an update to `zone` that deletes every PTR record at `owner`.
    /// The record names the owner, the record type and TTL 0, with no data.
    DeleteRRset { owner: Name, zone: Name, record_type: u16, ttl: u32 },
    /// Send an update to `zone` that appends `rrset`.
    /// With `must_exist`, only when the set already exists.
    AppendRRset { rrset: ModeledRecordSet, zone: Name, must_exist: bool },
    /// The update is over, with this outcome.
    Finish(Result<(), DnsError>),
}

impl UpdateAction {
    /// The update ends with this error.
    pub open spec fn fails_with(&self, e: DnsErrorView) -> bool {
        match self {
            UpdateAction::Finish(Err(x)) => x@ == e,
            _ => false,
        }
    }

    /// The update ends successfully.
    pub open spec fn succeeds(&self) -> bool {
        match self {
            UpdateAction::Finish(Ok(_)) => true,
            _ => false,
        }
    }

    /// The next step deletes the PTR records at `owner` in `zone`: its record
    /// names `owner`, the PTR type and TTL 0.
    pub open spec fn deletes(&self, owner: Name, zone: Name) -> bool {
        match self {
            UpdateAction::DeleteRRset { owner: o, zone: z, record_type, ttl } => *o == owner
                && *z == zone && *record_type == PTR_RECORD_TYPE && *ttl == 0,
            _ => false,
        }
    }

    /// The next step appends to `zone` the set of PTR records at `owner`
    /// with this TTL that holds exactly one record, pointing at `target`.
    pub open spec fn appends(&self, owner: Name, ttl: u32, target: Name, zone: Name) -> bool {
        match self {
            UpdateAction::AppendRRset { rrset, zone: z, must_exist } => {
                &&& *z == zone
                &&& !*must_exist
                &&& rrset.owner() == owner
                &&& rrset.record_type() == PTR_RECORD_TYPE
                &&& rrset.ttl() == ttl
                &&& rrset.data() == seq![RecordData::Ptr(target)]
            },
            _ => false,
        }
    }
}

/// Replacing (or, with an empty target, deleting) the PTR record at a name.
/// Made by `start`, after which the caller connects to the server and hands
/// the outcome to `on_connected`, then hands each reply to `on_reply`.
pub struct PtrUpdate {
    owner: Name,
    zone: Name,
    ttl: u32,
    ptr_target: String,
    phase: UpdatePhase,
}

impl PtrUpdate {
    pub closed spec fn spec_phase(&self) -> UpdatePhase {
        self.phase
    }

    pub closed spec fn spec_owner(&self) -> Name {
        self.owner
    }

    pub closed spec fn spec_zone(&self) -> Name {
        self.zone
    }

    pub closed spec fn spec_ttl(&self) -> u32 {
        self.ttl
    }

    pub closed spec fn spec_target(&self) -> Seq<char> {
        self.ptr_target@
    }

    /// An update of the PTR record at `name` in `zone`, to point at
    /// `ptr_target` with the given TTL. Both names are read with
    /// `Name::from_str_relaxed`; the first that fails gives `Parse`.
    /// Otherwise the next step is to connect to the server.
    pub fn start(name: &str, ttl: u32, ptr_target: &str, zone: &str) -> (res: Result<
        PtrUpdate,
        DnsError,
    >)
        ensures
            relaxed_name_error(name@) is Some ==> error_view(res) == Some(
                DnsErrorView::Parse(relaxed_name_error(name@)->0),
            ),
            relaxed_name_error(name@) is None && relaxed_name_error(zone@) is Some ==> error_view(res)
                == Some(DnsErrorView::Parse(relaxed_name_error(zone@)->0)),
            relaxed_name_error(name@) is None && relaxed_name_error(zone@) is None ==> match res {
                Ok(u) => u.spec_phase() == UpdatePhase::AwaitConnect && u.spec_ttl() == ttl
                    && u.spec_target() == ptr_target@ && u.spec_owner() == relaxed_name(name@)
                    && u.spec_zone() == relaxed_name(zone@),
                Err(_) => false,
            },
    {
        let owner = match parse_name_relaxed(name) {
            Ok(n) => n,
            Err(m) => {
                return Err(DnsError::Parse(m));
            },
        };
        let zone = match parse_name_relaxed(zone) {
            Ok(n) => n,
            Err(m) => {
                return Err(DnsError::Parse(m));
            },
        };
        Ok(PtrUpdate {
            owner,
            zone,
            ttl,
            ptr_target: ptr_target.to_owned(),
            phase: UpdatePhase::AwaitConnect,
        })
    }

    /// Where the update stands.
    pub fn phase(&self) -> (p: UpdatePhase)
        ensures
            p == self.spec_phase(),
    {
        self.phase
    }

    /// The outcome of connecting: a failure ends the update with `Protocol`;
    /// a connection leads to deleting the PTR records at the owner.
    pub fn on_connected(&mut self, connected: Result<(), String>) -> (action: UpdateAction)
        requires
            old(self).spec_phase() == UpdatePhase::AwaitConnect,
        ensures
            final(self).spec_owner() == old(self).spec_owner(),
            final(self).spec_zone() == old(self).spec_zone(),
            final(self).spec_ttl() == old(self).spec_ttl(),
            final(self).spec_target() == old(self).spec_target(),
            match connected {
                Err(m) => final(self).spec_phase() == UpdatePhase::Done && action.fails_with(
                    DnsErrorView::Protocol(m@),
                ),
                Ok(_) => final(self).spec_phase() == UpdatePhase::AwaitDelete && action.deletes(
                    old(self).spec_owner(),
                    old(self).spec_zone(),
                ),
            },
    {
        match connected {
            Err(m) => {
                self.phase = UpdatePhase::Done;
                UpdateAction::Finish(Err(DnsError::Protocol(m)))
            },
            Ok(_) => {
                self.phase = UpdatePhase::AwaitDelete;
                UpdateAction::DeleteRRset {
                    owner: clone_name(&self.owner),
                    zone: clone_name(&self.zone),
                    record_type: PTR_RECORD_TYPE,
                    ttl: 0,
                }
            },
        }
    }

    /// The reply to the delete or to the append: a failed exchange ends the
    /// update with `Protocol`, a reply with an error code with `Response`.
    /// After a successful delete, an empty target ends the update; otherwise
    /// the target is read (a failure gives `Parse`) and appended. After a
    /// successful append the update is done.
    pub fn on_reply(&mut self, reply: Result<u16, String>) -> (action: UpdateAction)
        requires
            old(self).spec_phase() == UpdatePhase::AwaitDelete || old(self).spec_phase()
                == UpdatePhase::AwaitAppend,
        ensures
            final(self).spec_owner() == old(self).spec_owner(),
            final(self).spec_zone() == old(self).spec_zone(),
            final(self).spec_ttl() == old(self).spec_ttl(),
            final(self).spec_target() == old(self).spec_target(),
            match reply {
                Err(m) => final(self).spec_phase() == UpdatePhase::Done && action.fails_with(
                    DnsErrorView::Protocol(m@),
                ),
                Ok(code) => if code != RCODE_NO_ERROR {
                    final(self).spec_phase() == UpdatePhase::Done && action.fails_with(
                        DnsErrorView::Response(response_code_message(code)),
                    )
                } else if old(self).spec_phase() == UpdatePhase::AwaitAppend
                    || old(self).spec_target().len() == 0 {
                    final(self).spec_phase() == UpdatePhase::Done && action.succeeds()
                } else if relaxed_name_error(old(self).spec_target()) is Some {
                    final(self).spec_phase() == UpdatePhase::Done && action.fails_with(
                        DnsErrorView::Parse(relaxed_name_error(old(self).spec_target())->0),
                    )
                } else {
                    final(self).spec_phase() == UpdatePhase::AwaitAppend && action.appends(
                        old(self).spec_owner(),
                        old(self).spec_ttl(),
                        relaxed_name(old(self).spec_target()),
                        old(self).spec_zone(),
                    )
                },
            },
    {
        let code: u16 = match reply {
            Err(m) => {
                self.phase = UpdatePhase::Done;
                return UpdateAction::Finish(Err(DnsError::Protocol(m)));
            },
            Ok(code) => code,
        };
        if code != RCODE_NO_ERROR {
            self.phase = UpdatePhase::Done;
            return UpdateAction::Finish(Err(DnsError::Response(response_code_text(code))));
        }
        if self.phase == UpdatePhase::AwaitAppend || self.ptr_target.as_str().is_empty() {
            self.phase = UpdatePhase::Done;
            return UpdateAction::Finish(Ok(()));
        }
        let target = match parse_name_relaxed(self.ptr_target.as_str()) {
            Ok(n) => n,
            Err(m) => {
                self.phase = UpdatePhase::Done;
                return UpdateAction::Finish(Err(DnsError::Parse(m)));
            },
        };
        let mut rrset = new_record_set(clone_name(&self.owner), PTR_RECORD_TYPE, self.ttl);
        add_record_data(&mut rrset, RecordData::Ptr(target));
        self.phase = UpdatePhase::AwaitAppend;
        UpdateAction::AppendRRset { rrset, zone: clone_name(&self.zone), must_exist: false }
    }
}

/// An answer record as the lookup reads it: its type number, its owner
/// name, and for PTR data the name it points at.
pub struct Answer {
    pub record_type: u16,
    pub name: Name,
    pub ptr_target: Option<Name>,
}

/// What the lookup learnt of one answer: its type number, whether its owner
/// is the name asked for, and the text of the name it points at.
pub struct AnswerSummary {
    pub record_type: u16,
    pub owner_matches: bool,
    pub target_text: Option<String>,
}

impl View for AnswerSummary {
    type V = (u16, bool, Option<Seq<char>>);

    open spec fn view(&self) -> (u16, bool, Option<Seq<char>>) {
        (
            self.record_type,
            self.owner_matches,
            match self.target_text {
                Some(t) => Some(t@),
                None => None,
            },
        )
    }
}

/// Whether an answer yields a PTR target: a PTR record at the name asked
/// for that holds a target.
pub open spec fn yields_target(a: (u16, bool, Option<Seq<char>>)) -> bool {
    a.0 == PTR_RECORD_TYPE && a.1 && a.2 is Some
}

/// The targets that the answers yield, in order, each without a trailing dot.
pub open spec fn spec_select_ptr_targets(answers: Seq<(u16, bool, Option<Seq<char>>)>) -> Seq<
    Seq<char>,
>
    decreases answers.len(),
{
    if answers.len() == 0 {
        seq![]
    } else {
        let rest = spec_select_ptr_targets(answers.drop_last());
        if yields_target(answers.last()) {
            rest.push(spec_strip_trailing_dot(answers.last().2->0))
        } else {
            rest
        }
    }
}

/// Selecting from answers one after the other gives the targets of the
/// first answers followed by those of the rest; a single answer gives its
/// target, without a trailing dot, exactly when it is a PTR record (type 12)
/// at the name asked for that holds a target, and nothing otherwise.
pub proof fn lemma_select_ptr_targets_keeps_matching_ptr_answers(
    a: Seq<(u16, bool, Option<Seq<char>>)>,
    b: Seq<(u16, bool, Option<Seq<char>>)>,
    x: (u16, bool, Option<Seq<char>>),
)
    ensures
        spec_select_ptr_targets(a + b) == spec_select_ptr_targets(a) + spec_select_ptr_targets(b),
        spec_select_ptr_targets(seq![x]) == if x.0 == 12 && x.1 && x.2 is Some {
            seq![spec_strip_trailing_dot(x.2->0)]
        } else {
            Seq::<Seq<char>>::empty()
        },
    decreases b.len(),
{
    assert(seq![x].drop_last() =~= Seq::<(u16, bool, Option<Seq<char>>)>::empty());
    assert(seq![x].last() == x);
    assert(spec_select_ptr_targets(Seq::<(u16, bool, Option<Seq<char>>)>::empty()) =~= Seq::<
        Seq<char>,
    >::empty());
    if x.0 == 12 && x.1 && x.2 is Some {
        assert(Seq::<Seq<char>>::empty().push(spec_strip_trailing_dot(x.2->0)) =~= seq![
            spec_strip_trailing_dot(x.2->0),
        ]);
    }
    if b.len() == 0 {
        assert(a + b =~= a);
        assert(spec_select_ptr_targets(b) =~= Seq::<Seq<char>>::empty());
    } else {
        lemma_select_ptr_targets_keeps_matching_ptr_answers(a, b.drop_last(), x);
        assert((a + b).drop_last() =~= a + b.drop_last());
        assert((a + b).last() == b.last());
        if yields_target(b.last()) {
            assert(spec_select_ptr_targets(a) + spec_select_ptr_targets(b) =~= (
            spec_select_ptr_targets(a) + spec_select_ptr_targets(b.drop_last())).push(
                spec_strip_trailing_dot(b.last().2->0),
            ));
        }
    }
}

/// The texts of a sequence of strings.
pub open spec fn strings_view(v: Seq<String>) -> Seq<Seq<char>> {
    v.map_values(|s: String| s@)
}

/// The targets of the PTR answers at the name asked for, in the order of
/// the answers, each without a trailing dot.
pub fn select_ptr_targets(answers: &Vec<AnswerSummary>) -> (out: Vec<String>)
    ensures
        strings_view(out@) == spec_select_ptr_targets(answers@.map_values(|a: AnswerSummary| a@)),
{
    let ghost views = answers@.map_values(|a: AnswerSummary| a@);
    let mut out: Vec<String> = Vec::new();
    let mut i: usize = 0;
    while i < answers.len()
        invariant
            i <= answers.len(),
            views == answers@.map_values(|a: AnswerSummary| a@),
            strings_view(out@) == spec_select_ptr_targets(views.take(i as int)),
        decreases answers.len() - i,
    {
        assert(views.take(i + 1).drop_last() =~= views.take(i as int));
        let a = &answers[i];
        assert(views.take(i + 1).last() == a@);
        if a.record_type == PTR_RECORD_TYPE && a.owner_matches {
            match &a.target_text {
                Some(t) => {
                    let s = strip_trailing_dot(t.as_str());
                    let ghost prev = out@;
                    let ghost sv = s@;
                    out.push(s);
                    assert(strings_view(out@) =~= strings_view(prev).push(sv));
                },
                None => {},
            }
        }
        i = i + 1;
    }
    assert(views.take(answers.len() as int) =~= views);
    out
}

/// What the lookup reads of an answer for the name `owner`: its type; whether
/// it is a PTR record whose owner matches `owner` (by `Name`'s `==`); for such
/// a record with PTR data, the text of the name it points at.
pub open spec fn answer_summary(a: Answer, owner: Name) -> (u16, bool, Option<Seq<char>>) {
    let matches = a.record_type == PTR_RECORD_TYPE && names_match(a.name, owner);
    (
        a.record_type,
        matches,
        if matches {
            match a.ptr_target {
                Some(t) => Some(name_utf8(t)),
                None => None,
            }
        } else {
            None
        },
    )
}

/// `out` are the PTR targets that the answers give for the name `owner`.
pub open spec fn ptr_targets_of(answers: Seq<Answer>, owner: Name, out: Seq<Seq<char>>) -> bool {
    out == spec_select_ptr_targets(answers.map_values(|a: Answer| answer_summary(a, owner)))
}

/// The targets of the PTR answers at `owner`, in the order of the answers,
/// each as text without a trailing dot. An answer is looked at further only
/// when it is of type PTR, and its target only when its owner is `owner`.
pub fn collect_ptr_targets(answers: &Vec<Answer>, owner: &Name) -> (out: Vec<String>)
    ensures
        ptr_targets_of(answers@, *owner, strings_view(out@)),
{
    let mut summaries: Vec<AnswerSummary> = Vec::new();
    let mut i: usize = 0;
    while i < answers.len()
        invariant
            i <= answers.len(),
            summaries.len() == i,
            forall|j: int|
                0 <= j < i ==> #[trigger] summaries@[j]@ == answer_summary(answers@[j], *owner),
        decreases answers.len() - i,
    {
        let a = &answers[i];
        let matches = a.record_type == PTR_RECORD_TYPE && names_equal(&a.name, owner);
        let text = if matches {
            match &a.ptr_target {
                Some(t) => Some(name_to_utf8(t)),
                None => None,
            }
        } else {
            None
        };
        summaries.push(
            AnswerSummary { record_type: a.record_type, owner_matches: matches, target_text: text },
        );
        i = i + 1;
    }
    let out = select_ptr_targets(&summaries);
    assert(summaries@.map_values(|a: AnswerSummary| a@) =~= answers@.map_values(
        |a: Answer| answer_summary(a, *owner),
    ));
    out
}

/// Where a lookup of the PTR records of a name stands.
#[derive(Clone, Copy, Debug, PartialEq, Eq, Structural)]
pub enum LookupPhase {
    AwaitConnect,
    AwaitAnswer,
    Done,
}

/// What to do next in a lookup.
pub enum LookupAction {
    /// Query the PTR records of class IN at `owner`.
    /// Query the records of this class and type number at `owner`.
    Query { owner: Name, class: u16, record_type: u16 },
    /// The lookup is over, with these targets or this error.
    Finish(Result<Vec<String>, DnsError>),
}

impl LookupAction {
    /// The lookup ends with this error.
    pub open spec fn fails_with(&self, e: DnsErrorView) -> bool {
        match self {
            LookupAction::Finish(Err(x)) => x@ == e,
            _ => false,
        }
    }

    /// The lookup ends with the PTR targets that `answers` give for `owner`.
    pub open spec fn yields_targets_of(&self, answers: Seq<Answer>, owner: Name) -> bool {
        match self {
            LookupAction::Finish(Ok(v)) => ptr_targets_of(answers, owner, strings_view(v@)),
            _ => false,
        }
    }
}

/// Listing the PTR records at a name. Made by `start`, after which the
/// caller connects to the server and hands the outcome to `on_connected`,
/// then hands the answer to the query to `on_answer`.
pub struct PtrLookup {
    owner: Name,
    phase: LookupPhase,
}

impl PtrLookup {
    pub closed spec fn spec_phase(&self) -> LookupPhase {
        self.phase
    }

    pub closed spec fn spec_owner(&self) -> Name {
        self.owner
    }

    /// A lookup of the PTR records at `name`, read with
    /// `Name::from_str_relaxed` (a failure gives `Parse`). Otherwise the next
    /// step is to connect to the server.
    pub fn start(name: &str) -> (res: Result<PtrLookup, DnsError>)
        ensures
            relaxed_name_error(name@) is Some ==> error_view(res) == Some(
                DnsErrorView::Parse(relaxed_name_error(name@)->0),
            ),
            relaxed_name_error(name@) is None ==> match res {
                Ok(l) => l.spec_phase() == LookupPhase::AwaitConnect && l.spec_owner()
                    == relaxed_name(name@),
                Err(_) => false,
            },
    {
        match parse_name_relaxed(name) {
            Ok(owner) => Ok(PtrLookup { owner, phase: LookupPhase::AwaitConnect }),
            Err(m) => Err(DnsError::Parse(m)),
        }
    }

    /// Where the lookup stands.
    pub fn phase(&self) -> (p: LookupPhase)
        ensures
            p == self.spec_phase(),
    {
        self.phase
    }

    /// The outcome of connecting: a failure ends the lookup with `Protocol`;
    /// a connection leads to the query.
    pub fn on_connected(&mut self, connected: Result<(), String>) -> (action: LookupAction)
        requires
            old(self).spec_phase() == LookupPhase::AwaitConnect,
        ensures
            final(self).spec_owner() == old(self).spec_owner(),
            match connected {
                Err(m) => final(self).spec_phase() == LookupPhase::Done && action.fails_with(
                    DnsErrorView::Protocol(m@),
                ),
                Ok(_) => final(self).spec_phase() == LookupPhase::AwaitAnswer && match action {
                    LookupAction::Query { owner, class, record_type } => owner == old(
                        self,
                    ).spec_owner() && class == DNS_CLASS_IN && record_type == PTR_RECORD_TYPE,
                    _ => false,
                },
            },
    {
        match connected {
            Err(m) => {
                self.phase = LookupPhase::Done;
                LookupAction::Finish(Err(DnsError::Protocol(m)))
            },
            Ok(_) => {
                self.phase = LookupPhase::AwaitAnswer;
                LookupAction::Query {
                    owner: clone_name(&self.owner),
                    class: DNS_CLASS_IN,
                    record_type: PTR_RECORD_TYPE,
                }
            },
        }
    }

    /// The answer to the query (its response code and its answer records): a
    /// failed exchange ends the lookup with `Protocol`, a code other than
    /// `NoError` and `NXDomain` with `Response`; otherwise the lookup ends
    /// with the PTR targets of the answers at the name.
    pub fn on_answer(&mut self, answer: Result<(u16, Vec<Answer>), String>) -> (action: LookupAction)
        requires
            old(self).spec_phase() == LookupPhase::AwaitAnswer,
        ensures
            final(self).spec_owner() == old(self).spec_owner(),
            final(self).spec_phase() == LookupPhase::Done,
            match answer {
                Err(m) => action.fails_with(DnsErrorView::Protocol(m@)),
                Ok((code, answers)) => if code != RCODE_NO_ERROR && code != RCODE_NX_DOMAIN {
                    action.fails_with(DnsErrorView::Response(response_code_message(code)))
                } else {
                    action.yields_targets_of(answers@, old(self).spec_owner())
                },
            },
    {
        self.phase = LookupPhase::Done;
        match answer {
            Err(m) => LookupAction::Finish(Err(DnsError::Protocol(m))),
            Ok((code, answers)) => {
                if code != RCODE_NO_ERROR && code != RCODE_NX_DOMAIN {
                    LookupAction::Finish(Err(DnsError::Response(response_code_text(code))))
                } else {
                    LookupAction::Finish(Ok(collect_ptr_targets(&answers, &self.owner)))
                }
            },
        }
    }
}

} // verus!
