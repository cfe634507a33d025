//! The parts of `hickory_proto` that the DNS logic uses: domain names, the
//! record set that an update appends, the TSIG signer, and the text of a
//! response code. Everything here is trusted: each item says what it claims
//! of the call it makes.
use vstd::prelude::*;
use hickory_proto::op::ResponseCode;
use hickory_proto::rr::rdata::tsig::TsigAlgorithm;
use hickory_proto::rr::rdata::PTR;
use hickory_proto::rr::{Name, RData, RecordSet, RecordType, TSigner};

verus! {

/// `hickory_proto::rr::Name`, a domain name; opaque here.
#[verifier::external_type_specification]
#[verifier::external_body]
pub struct ExName(Name);

/// `hickory_proto::rr::RecordSet`, the records of one name and type; opaque here.
#[verifier::external_type_specification]
#[verifier::external_body]
pub struct ExRecordSet(RecordSet);

/// `hickory_proto::rr::TSigner`, the key that signs updates; opaque here.
#[verifier::external_type_specification]
#[verifier::external_body]
pub struct ExTSigner(TSigner);

/// What `Name::from_str_relaxed` gives for a text: `None` when it parses,
/// else the text of the error it reports.
pub uninterp spec fn relaxed_name_error(text: Seq<char>) -> Option<Seq<char>>;

/// The name that `Name::from_str_relaxed` parses from a text, when it does.
pub uninterp spec fn relaxed_name(text: Seq<char>) -> Name;

/// What `Name::from_ascii` gives for a text: `None` when it parses, else the
/// text of the error it reports.
pub uninterp spec fn ascii_name_error(text: Seq<char>) -> Option<Seq<char>>;

/// The name that `Name::from_ascii` parses from a text, when it does.
pub uninterp spec fn ascii_name(text: Seq<char>) -> Name;

/// What `Name`'s `==` says of two names (equal when both or neither are
/// fully qualified and their labels match ignoring ASCII case).
pub uninterp spec fn names_match(a: Name, b: Name) -> bool;

/// The text that `Name::to_utf8` gives for a name.
pub uninterp spec fn name_utf8(name: Name) -> Seq<char>;

/// The text that `ResponseCode`'s `Display` shows for the code with this
/// number, as `ResponseCode::from(u16)` and `ResponseCode::to_str` give it.
pub open spec fn response_code_message(code: u16) -> Seq<char> {
    if code == 0 {
        "No Error"@
    } else if code == 1 {
        "Form Error"@
    } else if code == 2 {
        "Server Failure"@
    } else if code == 3 {
        "Non-Existent Domain"@
    } else if code == 4 {
        "Not Implemented"@
    } else if code == 5 {
        "Query Refused"@
    } else if code == 6 {
        "Name should not exist"@
    } else if code == 7 {
        "RR Set should not exist"@
    } else if code == 8 {
        "RR Set does not exist"@
    } else if code == 9 {
        "Not authorized"@
    } else if code == 10 {
        "Name not in zone"@
    } else if code == 16 {
        "TSIG Failure"@
    } else if code == 17 {
        "Key not recognized"@
    } else if code == 18 {
        "Signature out of time window"@
    } else if code == 19 {
        "Bad TKEY mode"@
    } else if code == 20 {
        "Duplicate key name"@
    } else if code == 21 {
        "Algorithm not supported"@
    } else if code == 22 {
        "Bad truncation"@
    } else if code == 23 {
        "Bad server cookie"@
    } else {
        "Unknown response code"@
    }
}

/// Calls `Name::from_str_relaxed` (UTF-8 with IDNA first, then ASCII).
/// Claimed: the call fails exactly when `relaxed_name_error` names an error,
/// with that error's text, and otherwise gives `relaxed_name` of the text.
#[verifier::external_body]
pub(crate) fn parse_name_relaxed(text: &str) -> (res: Result<Name, String>)
    ensures
        res is Err <==> relaxed_name_error(text@) is Some,
        res matches Err(m) ==> relaxed_name_error(text@) == Some(m@),
        res matches Ok(n) ==> n == relaxed_name(text@),
{
    match Name::from_str_relaxed(text) {
        Ok(name) => Ok(name),
        Err(e) => Err(e.to_string()),
    }
}

/// Calls `Name::from_ascii`.
/// Claimed: the call fails exactly when `ascii_name_error` names an error,
/// with that error's text, and otherwise gives `ascii_name` of the text.
#[verifier::external_body]
pub(crate) fn parse_name_ascii(text: &str) -> (res: Result<Name, String>)
    ensures
        res is Err <==> ascii_name_error(text@) is Some,
        res matches Err(m) ==> ascii_name_error(text@) == Some(m@),
        res matches Ok(n) ==> n == ascii_name(text@),
{
    match Name::from_ascii(text) {
        Ok(name) => Ok(name),
        Err(e) => Err(e.to_string()),
    }
}

/// Calls `Name::clone` (derived). Claimed: the copy equals the name it was
/// made from.
#[verifier::external_body]
pub(crate) fn clone_name(name: &Name) -> (res: Name)
    ensures
        res == *name,
{
    name.clone()
}

/// Calls `Name`'s `==`. Claimed: the answer is `names_match` of the two
/// names, and a name equals itself.
#[verifier::external_body]
pub(crate) fn names_equal(a: &Name, b: &Name) -> (res: bool)
    ensures
        res == names_match(*a, *b),
        *a == *b ==> res,
{
    *a == *b
}

/// Calls `Name::to_utf8`. Claimed: the text is `name_utf8` of the name.
#[verifier::external_body]
pub(crate) fn name_to_utf8(name: &Name) -> (res: String)
    ensures
        res@ == name_utf8(*name),
{
    name.to_utf8()
}

/// The MAC algorithm of a TSIG key, as `hickory_proto`'s `TsigAlgorithm`
/// names them.
pub enum TsigAlg {
    HmacMd5,
    Gss,
    HmacSha1,
    HmacSha224,
    HmacSha256,
    HmacSha256_128,
    HmacSha384,
    HmacSha384_192,
    HmacSha512,
    HmacSha512_256,
    Unknown(Name),
}

impl TsigAlg {
    /// The algorithms with which a signer can be made (`TsigAlgorithm::supported`).
    pub open spec fn supported(&self) -> bool {
        match self {
            TsigAlg::HmacSha256 | TsigAlg::HmacSha384 | TsigAlg::HmacSha512 => true,
            _ => false,
        }
    }
}

/// A TSIG signer together with what it was made of: the key, the
/// algorithm, the key's name (which the signer makes fully qualified) and
/// the fudge in seconds.
#[derive(Clone)]
pub struct Signer {
    signer: TSigner,
    key: Ghost<Seq<u8>>,
    algorithm: Ghost<TsigAlg>,
    name: Ghost<Name>,
    fudge: Ghost<u16>,
}

impl Signer {
    pub closed spec fn key(&self) -> Seq<u8> {
        self.key@
    }

    pub closed spec fn algorithm(&self) -> TsigAlg {
        self.algorithm@
    }

    pub closed spec fn name(&self) -> Name {
        self.name@
    }

    pub closed spec fn fudge(&self) -> u16 {
        self.fudge@
    }

    /// The signer that the model describes.
    pub closed spec fn spec_tsigner(&self) -> TSigner {
        self.signer
    }

    /// The signer itself, for the messages sent.
    pub fn tsigner(&self) -> (t: &TSigner)
        ensures
            *t == self.spec_tsigner(),
    {
        &self.signer
    }
}

/// `Clone` of `TSigner` (derived; the signer is shared, not copied). Nothing
/// is claimed of the copy beyond what `Signer` keeps beside it.
pub assume_specification[ <TSigner as Clone>::clone ](signer: &TSigner) -> TSigner;

/// Calls `TSigner::new`, which fails exactly when the algorithm is not one
/// of HMAC-SHA256, HMAC-SHA384 and HMAC-SHA512 (with the text "Tsig
/// unsupported mac algorithm"), and otherwise keeps key, algorithm, name and
/// fudge. The algorithm is converted one variant for one.
#[verifier::external_body]
pub(crate) fn new_tsigner(key: Vec<u8>, algorithm: TsigAlg, signer_name: Name, fudge: u16) -> (res:
    Result<Signer, String>)
    ensures
        res is Ok <==> algorithm.supported(),
        res matches Err(m) ==> m@ == "Tsig unsupported mac algorithm"@,
        res matches Ok(s) ==> s.key() == key@ && s.algorithm() == algorithm && s.name()
            == signer_name && s.fudge() == fudge,
{
    let model = (Ghost(key@), Ghost(algorithm), Ghost(signer_name), Ghost(fudge));
    let alg = match algorithm {
        TsigAlg::HmacMd5 => TsigAlgorithm::HmacMd5, TsigAlg::Gss => TsigAlgorithm::Gss,
        TsigAlg::HmacSha1 => TsigAlgorithm::HmacSha1, TsigAlg::HmacSha224 => TsigAlgorithm::HmacSha224,
        TsigAlg::HmacSha256 => TsigAlgorithm::HmacSha256, TsigAlg::HmacSha256_128 => TsigAlgorithm::HmacSha256_128,
        TsigAlg::HmacSha384 => TsigAlgorithm::HmacSha384, TsigAlg::HmacSha384_192 => TsigAlgorithm::HmacSha384_192,
        TsigAlg::HmacSha512 => TsigAlgorithm::HmacSha512, TsigAlg::HmacSha512_256 => TsigAlgorithm::HmacSha512_256,
        TsigAlg::Unknown(name) => TsigAlgorithm::Unknown(name),
    };
    match TSigner::new(key, alg, signer_name, fudge) {
        Ok(signer) => Ok(Signer { signer, key: model.0, algorithm: model.1, name: model.2, fudge: model.3 }),
        Err(e) => Err(e.to_string()),
    }
}

/// The data of a resource record, as the library makes them.
pub enum RecordData {
    /// PTR data: the name it points at.
    Ptr(Name),
}

impl RecordData {
    /// The record type number of the data.
    pub open spec fn record_type(&self) -> u16 {
        match self {
            RecordData::Ptr(_) => 12,
        }
    }
}

/// A record set together with what it holds: its owner, its record type
/// number, its TTL and the data of its records, in the order added.
pub struct ModeledRecordSet {
    set: RecordSet,
    owner: Ghost<Name>,
    record_type: Ghost<u16>,
    ttl: Ghost<u32>,
    data: Ghost<Seq<RecordData>>,
}

impl ModeledRecordSet {
    pub closed spec fn owner(&self) -> Name {
        self.owner@
    }

    pub closed spec fn record_type(&self) -> u16 {
        self.record_type@
    }

    pub closed spec fn ttl(&self) -> u32 {
        self.ttl@
    }

    pub closed spec fn data(&self) -> Seq<RecordData> {
        self.data@
    }

    /// The record set that the model describes.
    pub closed spec fn spec_set(&self) -> RecordSet {
        self.set
    }

    /// The record set itself, to be sent.
    pub fn into_record_set(self) -> (res: RecordSet)
        ensures
            res == self.spec_set(),
    {
        self.set
    }
}

/// Calls `RecordSet::with_ttl`, the type converted with `RecordType::from(u16)`.
/// Claimed: an empty set with that owner, type and TTL.
#[verifier::external_body]
pub(crate) fn new_record_set(owner: Name, record_type: u16, ttl: u32) -> (res: ModeledRecordSet)
    ensures
        res.owner() == owner,
        res.record_type() == record_type,
        res.ttl() == ttl,
        res.data() == Seq::<RecordData>::empty(),
{
    let (model_owner, model_data) = (Ghost(owner), Ghost(Seq::empty()));
    let set = RecordSet::with_ttl(owner, RecordType::from(record_type), ttl);
    ModeledRecordSet { set, owner: model_owner, record_type: Ghost(record_type), ttl: Ghost(ttl), data: model_data }
}

/// Calls `RecordSet::add_rdata`, the data converted one variant for one.
/// It panics unless the data's type is the set's, hence the `requires`.
/// Claimed, for an empty set: the data is added, owner, type and TTL stay,
/// and the call reports the insertion.
#[verifier::external_body]
pub(crate) fn add_record_data(set: &mut ModeledRecordSet, data: RecordData) -> (inserted: bool)
    requires
        old(set).record_type() == data.record_type(),
        old(set).data().len() == 0,
    ensures
        inserted,
        final(set).owner() == old(set).owner(),
        final(set).record_type() == old(set).record_type(),
        final(set).ttl() == old(set).ttl(),
        final(set).data() == seq![data],
{
    set.data = Ghost(seq![data]);
    let rdata = match data {
        RecordData::Ptr(name) => RData::PTR(PTR(name)),
    };
    set.set.add_rdata(rdata)
}

/// Calls `ResponseCode::from(u16)` and its `Display`.
/// Claimed: the text is `response_code_message` of the code.
#[verifier::external_body]
pub(crate) fn response_code_text(code: u16) -> (res: String)
    ensures
        res@ == response_code_message(code),
{
    <ResponseCode as From<u16>>::from(code).to_string()
}

} // verus!
