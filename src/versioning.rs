use std::collections::HashMap;
use vstd::prelude::*;
use crate::types::{Address, ContractError};

verus! {

broadcast use vstd::std_specs::hash::group_hash_axioms;

/// One immutable entry of a record's history.
#[derive(Clone, Debug, PartialEq, Eq)]
pub struct RecordVersion {
    pub record_id: u64,
    pub version: u32,
    pub data_hash: String,
    pub modified_by: Address,
    pub modified_at: u64,
}

impl RecordVersion {
    /// A field-by-field copy.
    pub fn duplicate(&self) -> (r: RecordVersion)
        ensures
            r == *self,
    {
        RecordVersion {
            record_id: self.record_id,
            version: self.version,
            data_hash: self.data_hash.clone(),
            modified_by: self.modified_by,
            modified_at: self.modified_at,
        }
    }
}

/// Two version snapshots of one record side by side.
#[derive(Clone, Debug, PartialEq, Eq)]
pub struct RecordComparison {
    pub record_id: u64,
    pub from_version: u32,
    pub to_version: u32,
    pub from_data_hash: String,
    pub to_data_hash: String,
    pub from_modified_at: u64,
    pub to_modified_at: u64,
    pub changed: bool,
}

/// The comparison of two entries: `changed` tells whether the content hashes differ.
pub open spec fn comparison_of(
    record_id: u64,
    from_version: u32,
    to_version: u32,
    from: RecordVersion,
    to: RecordVersion,
) -> RecordComparison {
    RecordComparison {
        record_id,
        from_version,
        to_version,
        from_data_hash: from.data_hash,
        to_data_hash: to.data_hash,
        from_modified_at: from.modified_at,
        to_modified_at: to.modified_at,
        changed: from.data_hash@ != to.data_hash@,
    }
}

/// The append-only histories of all records, by record id.
pub struct VersionLog {
    histories: HashMap<u64, Vec<RecordVersion>>,
}

impl VersionLog {
    /// The history of `record_id`, oldest first; empty when nothing was appended.
    pub closed spec fn history(&self, record_id: u64) -> Seq<RecordVersion> {
        if self.histories@.contains_key(record_id) {
            self.histories@[record_id]@
        } else {
            Seq::empty()
        }
    }

    /// Each history is numbered `1..=len` in order, carries its record id, and its
    /// length fits a version number.
    pub open spec fn wf(&self) -> bool {
        forall|id: u64|
            {
                &&& #[trigger] self.history(id).len() <= u32::MAX
                &&& forall|i: int|
                    0 <= i < self.history(id).len() ==> {
                        &&& (#[trigger] self.history(id)[i]).version == i + 1
                        &&& self.history(id)[i].record_id == id
                    }
            }
    }

    pub fn new() -> (r: VersionLog)
        ensures
            r.wf(),
            forall|id: u64| r.history(id).len() == 0,
    {
        VersionLog { histories: HashMap::new() }
    }
}

/// The entry with number `version` in a well-formed history, if there is one.
pub open spec fn version_in(h: Seq<RecordVersion>, version: u32) -> Option<RecordVersion> {
    if 1 <= version <= h.len() {
        Some(h[version - 1])
    } else {
        None
    }
}

/// The latest version number of a history: its length, or none when it is empty.
pub open spec fn latest_of(h: Seq<RecordVersion>) -> Option<u32> {
    if h.len() == 0 {
        None
    } else {
        Some(h.len() as u32)
    }
}

/// A copy of the whole history of `record_id`.
pub fn get_history(log: &VersionLog, record_id: u64) -> (r: Vec<RecordVersion>)
    ensures
        r@ == log.history(record_id),
{
    let mut out: Vec<RecordVersion> = Vec::new();
    match log.histories.get(&record_id) {
        Some(h) => {
            let mut i: usize = 0;
            while i < h.len()
                invariant
                    0 <= i <= h@.len(),
                    h@ == log.history(record_id),
                    out@ == h@.subrange(0, i as int),
                decreases h@.len() - i,
            {
                out.push(h[i].duplicate());
                i += 1;
                assert(out@ =~= h@.subrange(0, i as int));
            }
            assert(out@ =~= h@);
        },
        None => {
            assert(out@ =~= log.history(record_id));
        },
    }
    out
}

/// The latest version number of `record_id`: the history's length, none when empty.
pub fn latest_version(log: &VersionLog, record_id: u64) -> (r: Option<u32>)
    requires
        log.wf(),
    ensures
        r == latest_of(log.history(record_id)),
{
    match log.histories.get(&record_id) {
        Some(h) => {
            assert(log.history(record_id).len() <= u32::MAX);
            if h.len() == 0 {
                None
            } else {
                Some(h.len() as u32)
            }
        },
        None => None,
    }
}

/// The entry numbered `version` of `record_id`, found by a scan of its history.
pub fn get_version(log: &VersionLog, record_id: u64, version: u32) -> (r: Option<RecordVersion>)
    requires
        log.wf(),
    ensures
        r == version_in(log.history(record_id), version),
{
    match log.histories.get(&record_id) {
        Some(h) => {
            let ghost hs = log.history(record_id);
            assert(hs.len() <= u32::MAX);
            let mut i: usize = 0;
            while i < h.len()
                invariant
                    0 <= i <= h@.len(),
                    h@ == hs,
                    hs == log.history(record_id),
                    hs.len() <= u32::MAX,
                    forall|j: int| 0 <= j < hs.len() ==> (#[trigger] hs[j]).version == j + 1,
                    forall|j: int| 0 <= j < i ==> hs[j].version != version,
                decreases h@.len() - i,
            {
                if h[i].version == version {
                    assert(hs[i as int].version == i + 1);
                    return Some(h[i].duplicate());
                }
                i += 1;
            }
            assert(!(1 <= version <= hs.len())) by {
                if 1 <= version <= hs.len() {
                    assert(hs[version - 1].version == version);
                }
            }
            None
        },
        None => None,
    }
}

/// Appends the next entry (numbered length + 1) to the history of `record_id` and
/// returns it. When the history already holds `u32::MAX` entries no number is left:
/// `InvalidInput`, and nothing changes.
pub fn append_version(
    log: &mut VersionLog,
    record_id: u64,
    data_hash: String,
    modified_by: Address,
    modified_at: u64,
) -> (r: Result<RecordVersion, ContractError>)
    requires
        old(log).wf(),
    ensures
        final(log).wf(),
        old(log).history(record_id).len() == u32::MAX <==> r is Err,
        r is Err ==> r == Err::<RecordVersion, ContractError>(ContractError::InvalidInput)
            && *final(log) == *old(log),
        r is Ok ==> r == Ok::<RecordVersion, ContractError>(
            RecordVersion {
                record_id,
                version: (old(log).history(record_id).len() + 1) as u32,
                data_hash,
                modified_by,
                modified_at,
            },
        ),
        r is Ok ==> final(log).history(record_id) == old(log).history(record_id).push(r->Ok_0),
        forall|id: u64| id != record_id ==> final(log).history(id) == old(log).history(id),
{
    let ghost prev = log.history(record_id);
    assert(prev.len() <= u32::MAX);
    let len = match log.histories.get(&record_id) {
        Some(h) => h.len(),
        None => 0,
    };
    if len >= u32::MAX as usize {
        return Err(ContractError::InvalidInput);
    }
    let mut h = match log.histories.remove(&record_id) {
        Some(h) => h,
        None => Vec::new(),
    };
    let entry = RecordVersion {
        record_id,
        version: (len + 1) as u32,
        data_hash,
        modified_by,
        modified_at,
    };
    h.push(entry.duplicate());
    log.histories.insert(record_id, h);
    assert(log.history(record_id) == prev.push(entry));
    assert forall|id: u64| id != record_id implies log.history(id) == old(log).history(id) by {}
    assert(log.wf()) by {
        assert forall|id: u64| #[trigger] log.history(id).len() <= u32::MAX by {
            if id != record_id {
                assert(old(log).history(id).len() <= u32::MAX);
            }
        }
        assert forall|id: u64, i: int| 0 <= i < log.history(id).len() implies {
            &&& (#[trigger] log.history(id)[i]).version == i + 1
            &&& log.history(id)[i].record_id == id
        } by {
            if id != record_id {
                assert(old(log).history(id).len() <= u32::MAX);
                assert(old(log).history(id)[i] == log.history(id)[i]);
            } else if i < prev.len() {
                assert(old(log).history(id).len() <= u32::MAX);
                assert(old(log).history(id)[i] == log.history(id)[i]);
            }
        }
    }
    Ok(entry)
}

/// Compares two entries of `record_id`; none when either is missing.
pub fn compare_versions(log: &VersionLog, record_id: u64, from_version: u32, to_version: u32) -> (r:
    Option<RecordComparison>)
    requires
        log.wf(),
    ensures
        r == match (
            version_in(log.history(record_id), from_version),
            version_in(log.history(record_id), to_version),
        ) {
            (Some(f), Some(t)) => Some(comparison_of(record_id, from_version, to_version, f, t)),
            _ => None,
        },
{
    let from = match get_version(log, record_id, from_version) {
        Some(v) => v,
        None => return None,
    };
    let to = match get_version(log, record_id, to_version) {
        Some(v) => v,
        None => return None,
    };
    let changed = from.data_hash != to.data_hash;
    Some(
        RecordComparison {
            record_id,
            from_version,
            to_version,
            from_data_hash: from.data_hash.clone(),
            to_data_hash: to.data_hash.clone(),
            from_modified_at: from.modified_at,
            to_modified_at: to.modified_at,
            changed,
        },
    )
}

/// In a well-formed log, the latest version of every record is the length of its
/// history (none when it is empty), and the history is numbered `1..=length` in order.
pub proof fn lemma_latest_is_history_length(log: &VersionLog, record_id: u64)
    requires
        log.wf(),
    ensures
        log.history(record_id).len() == 0 ==> latest_of(log.history(record_id)) is None,
        log.history(record_id).len() > 0 ==> latest_of(log.history(record_id)) == Some(
            log.history(record_id).len() as u32,
        ) && log.history(record_id).len() as u32 == log.history(record_id).len(),
        forall|i: int|
            0 <= i < log.history(record_id).len() ==> (#[trigger] log.history(record_id)[i]).version
                == i + 1,
{
    assert(log.history(record_id).len() <= u32::MAX);
}

} // verus!