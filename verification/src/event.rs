use vstd::prelude::*;
use vstd::string::StringExecFns;

use crate::strutil::hex0x_of;
use crate::strutil::hex_encode;
use crate::strutil::hex_encode_prefixed;
use crate::strutil::hex_of;

verus! {

/// A raw log entry as the log source hands it over: the fields the engine
/// reads, as plain values.  Fields that a pending log may lack are optional
/// here and are given defined defaults by `normalize`.
pub struct RawLog {
    pub block_number: Option<u64>,
    pub transaction_hash: Option<Vec<u8>>,
    pub log_index: Option<u64>,
    pub topics: Vec<Vec<u8>>,
    pub data: Vec<u8>,
}

/// The mathematical value of a raw log entry.
pub ghost struct RawLogView {
    pub block_number: Option<u64>,
    pub transaction_hash: Option<Seq<u8>>,
    pub log_index: Option<u64>,
    pub topics: Seq<Seq<u8>>,
    pub data: Seq<u8>,
}

impl RawLog {
    pub open spec fn model(&self) -> RawLogView {
        RawLogView {
            block_number: self.block_number,
            transaction_hash: match self.transaction_hash {
                Some(h) => Some(h@),
                None => None,
            },
            log_index: self.log_index,
            topics: Seq::new(self.topics@.len(), |i: int| self.topics@[i]@),
            data: self.data@,
        }
    }
}

/// The canonical event record: one per discovered raw log entry, immutable
/// once constructed.
#[derive(Clone, Debug)]
pub struct EventData {
    pub timestamp: String,
    pub chain_id: Option<u64>,
    pub chain_name: String,
    pub block_number: u64,
    pub transaction_hash: String,
    pub log_index: u64,
    pub contract_address: String,
    pub topics: Vec<String>,
    pub data: String,
    pub event_signature: Option<String>,
}

/// The mathematical value of a canonical event record.
#[verifier::ext_equal]
pub ghost struct EventView {
    pub timestamp: Seq<char>,
    pub chain_id: Option<u64>,
    pub chain_name: Seq<char>,
    pub block_number: u64,
    pub transaction_hash: Seq<char>,
    pub log_index: u64,
    pub contract_address: Seq<char>,
    pub topics: Seq<Seq<char>>,
    pub data: Seq<char>,
    pub event_signature: Option<Seq<char>>,
}

impl EventData {
    pub open spec fn model(&self) -> EventView {
        EventView {
            timestamp: self.timestamp@,
            chain_id: self.chain_id,
            chain_name: self.chain_name@,
            block_number: self.block_number,
            transaction_hash: self.transaction_hash@,
            log_index: self.log_index,
            contract_address: self.contract_address@,
            topics: Seq::new(self.topics@.len(), |i: int| self.topics@[i]@),
            data: self.data@,
            event_signature: match self.event_signature {
                Some(s) => Some(s@),
                None => None,
            },
        }
    }
}

/// The view of an optional string.
pub open spec fn opt_str_view(s: Option<String>) -> Option<Seq<char>> {
    match s {
        Some(s) => Some(s@),
        None => None,
    }
}

/// What `normalize` returns: a pure function of the raw entry, the cycle
/// metadata and the observation timestamp.  A missing block number or log
/// index becomes `0`; a missing transaction hash becomes the empty string;
/// hashes, addresses and topics are rendered as `0x`-prefixed lowercase hex,
/// the data payload as unprefixed hex.
pub open spec fn spec_normalize(
    raw: RawLogView,
    chain_id: Option<u64>,
    chain_name: Seq<char>,
    contract_address: Seq<u8>,
    event_signature: Option<Seq<char>>,
    timestamp: Seq<char>,
) -> EventView {
    EventView {
        timestamp: timestamp,
        chain_id: chain_id,
        chain_name: chain_name,
        block_number: match raw.block_number {
            Some(n) => n,
            None => 0,
        },
        transaction_hash: match raw.transaction_hash {
            Some(h) => hex0x_of(h),
            None => Seq::empty(),
        },
        log_index: match raw.log_index {
            Some(n) => n,
            None => 0,
        },
        contract_address: hex0x_of(contract_address),
        topics: Seq::new(raw.topics.len(), |i: int| hex0x_of(raw.topics[i])),
        data: hex_of(raw.data),
        event_signature: event_signature,
    }
}

/// Map a raw log entry plus cycle metadata to its canonical event record.
/// The timestamp is the caller's observation time: everything else about the
/// record is determined by the raw entry and the metadata alone.
pub fn normalize(
    raw: &RawLog,
    chain_id: Option<u64>,
    chain_name: &str,
    contract_address: &[u8],
    event_signature: &Option<String>,
    timestamp: &str,
) -> (e: EventData)
    ensures
        e.model() == spec_normalize(
            raw.model(),
            chain_id,
            chain_name@,
            contract_address@,
            opt_str_view(*event_signature),
            timestamp@,
        ),
{
    let transaction_hash = match &raw.transaction_hash {
        Some(h) => hex_encode_prefixed(h.as_slice()),
        None => String::new(),
    };
    let mut topics: Vec<String> = Vec::new();
    let n = raw.topics.len();
    let mut i: usize = 0;
    while i < n
        invariant
            n == raw.topics@.len(),
            i <= n,
            topics@.len() == i,
            forall|k: int| 0 <= k < i ==> topics@[k]@ == hex0x_of(raw.topics@[k]@),
        decreases n - i,
    {
        topics.push(hex_encode_prefixed(raw.topics[i].as_slice()));
        i += 1;
    }
    let e = EventData {
        timestamp: String::from_str(timestamp),
        chain_id,
        chain_name: String::from_str(chain_name),
        block_number: match raw.block_number {
            Some(n) => n,
            None => 0,
        },
        transaction_hash,
        log_index: match raw.log_index {
            Some(n) => n,
            None => 0,
        },
        contract_address: hex_encode_prefixed(contract_address),
        topics,
        data: hex_encode(raw.data.as_slice()),
        event_signature: match event_signature {
            Some(s) => Some(String::from_str(s.as_str())),
            None => None,
        },
    };
    proof {
        assert(e.model() =~= spec_normalize(
            raw.model(),
            chain_id,
            chain_name@,
            contract_address@,
            opt_str_view(*event_signature),
            timestamp@,
        ));
    }
    e
}

/// Relies on chrono: `Local::now().to_rfc3339()`, the wall-clock time of the
/// call as an RFC 3339 string.  The result depends on the clock; nothing is
/// assumed about it.
#[verifier::external_body]
fn now_rfc3339() -> String {
    chrono::Local::now().to_rfc3339()
}

/// Normalize a raw log entry at the moment of observation: the record is
/// `normalize` of the entry and the metadata, stamped with the wall-clock
/// time of this call.  Every field but the timestamp is determined by the
/// arguments alone.
pub fn observe(
    raw: &RawLog,
    chain_id: Option<u64>,
    chain_name: &str,
    contract_address: &[u8],
    event_signature: &Option<String>,
) -> (e: EventData)
    ensures
        e.model() == spec_normalize(
            raw.model(),
            chain_id,
            chain_name@,
            contract_address@,
            opt_str_view(*event_signature),
            e.model().timestamp,
        ),
{
    let ts = now_rfc3339();
    normalize(raw, chain_id, chain_name, contract_address, event_signature, ts.as_str())
}

/// Normalizing the same raw entry with the same metadata twice yields the
/// same canonical record in every field but the timestamp, which carries the
/// observation time of each run.
pub proof fn lemma_normalize_idempotent(
    raw: RawLogView,
    chain_id: Option<u64>,
    chain_name: Seq<char>,
    contract_address: Seq<u8>,
    event_signature: Option<Seq<char>>,
    t1: Seq<char>,
    t2: Seq<char>,
)
    ensures
        ({
            let a = spec_normalize(raw, chain_id, chain_name, contract_address, event_signature, t1);
            let b = spec_normalize(raw, chain_id, chain_name, contract_address, event_signature, t2);
            a.timestamp == t1 && b.timestamp == t2 && a.chain_id == b.chain_id && a.chain_name
                == b.chain_name && a.block_number == b.block_number && a.transaction_hash
                == b.transaction_hash && a.log_index == b.log_index && a.contract_address
                == b.contract_address && a.topics == b.topics && a.data == b.data
                && a.event_signature == b.event_signature
        }),
{
}

} // verus!
