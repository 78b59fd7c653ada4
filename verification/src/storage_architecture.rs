//! Storage layers, storage policies, storage audit and storage versioning.

use vstd::prelude::*;
use crate::str_map::{StrMap, kv_insert, lookup, key_pos};
use crate::ids::{new_id, now_timestamp};
use crate::text::owned;

verus! {

/// Storage layer types.
#[derive(Debug, Clone, Copy, PartialEq, Eq, Structural, Hash)]
pub enum StorageLayer {
    /// Hot storage: working memory, active session.
    Hot,
    /// Warm storage: recent experience, active knowledge.
    Warm,
    /// Cold storage: long-term knowledge, archived experience.
    Cold,
    /// Frozen storage: archived historical data.
    Frozen,
}

/// The label of a layer.
pub open spec fn layer_label(l: StorageLayer) -> Seq<char> {
    match l {
        StorageLayer::Hot => "Hot"@,
        StorageLayer::Warm => "Warm"@,
        StorageLayer::Cold => "Cold"@,
        StorageLayer::Frozen => "Frozen"@,
    }
}

/// Only the hot and warm layers accept writes.
pub open spec fn layer_writable(l: StorageLayer) -> bool {
    l == StorageLayer::Hot || l == StorageLayer::Warm
}

impl StorageLayer {
    /// Return layer label.
    pub fn label(&self) -> (r: &'static str)
        ensures
            r@ == layer_label(*self),
    {
        match self {
            StorageLayer::Hot => "Hot",
            StorageLayer::Warm => "Warm",
            StorageLayer::Cold => "Cold",
            StorageLayer::Frozen => "Frozen",
        }
    }

    /// Check if layer supports write operations.
    pub fn supports_write(&self) -> (r: bool)
        ensures
            r == layer_writable(*self),
    {
        match self {
            StorageLayer::Hot | StorageLayer::Warm => true,
            _ => false,
        }
    }

    /// Check if layer supports read operations: every layer does.
    pub fn supports_read(&self) -> (r: bool)
        ensures
            r,
    {
        true
    }
}

/// Storage policy defining retention and promotion rules.
///
/// The promotion threshold is a confidence score (an `f32`); it is carried
/// here as its IEEE-754 bit pattern (`f32::to_bits`), since comparing
/// confidences is floating-point work done outside this library.
#[derive(Debug, Clone, Copy, PartialEq, Eq, Structural)]
pub struct StoragePolicy {
    /// Layer this policy applies to.
    pub layer: StorageLayer,
    /// Retention period in days.
    pub retention_days: u32,
    /// Promotion threshold (confidence score), as `f32` bits.
    pub promotion_threshold_bits: u32,
    /// Demotion threshold (access count).
    pub demotion_access_threshold: u32,
    /// Cleanup enabled.
    pub cleanup_enabled: bool,
}

impl StoragePolicy {
    /// Create a new storage policy: demotion below three accesses, cleanup on.
    pub fn new(layer: StorageLayer, retention_days: u32, promotion_threshold_bits: u32) -> (p: Self)
        ensures
            p == (StoragePolicy {
                layer,
                retention_days,
                promotion_threshold_bits,
                demotion_access_threshold: 3,
                cleanup_enabled: true,
            }),
    {
        StoragePolicy {
            layer,
            retention_days,
            promotion_threshold_bits,
            demotion_access_threshold: 3,
            cleanup_enabled: true,
        }
    }

    /// Check if data should be demoted: it was accessed fewer times than the threshold.
    pub fn should_demote(&self, access_count: u32) -> (r: bool)
        ensures
            r == (access_count < self.demotion_access_threshold),
    {
        access_count < self.demotion_access_threshold
    }
}

/// Storage audit record tracking provenance and versions.
#[derive(Debug)]
pub struct StorageAuditRecord {
    /// Audit entry ID.
    pub audit_id: String,
    /// Data identifier.
    pub data_id: String,
    /// Storage layer.
    pub layer: StorageLayer,
    /// Action (store, retrieve, promote, demote, archive, delete).
    pub action: String,
    /// Actor performing action.
    pub actor: String,
    /// Timestamp.
    pub timestamp: i64,
    /// Schema version.
    pub schema_version: String,
    /// Data version.
    pub data_version: String,
    /// Provenance chain.
    pub provenance: Vec<String>,
}

impl StorageAuditRecord {
    /// Create a new storage audit record with a fresh id and the current time,
    /// schema version "v0.0.2.1", data version "1.0" and no provenance.
    pub fn new(data_id: &str, layer: StorageLayer, action: &str, actor: &str) -> (r: Self)
        ensures
            r.data_id@ == data_id@,
            r.layer == layer,
            r.action@ == action@,
            r.actor@ == actor@,
            r.audit_id@.len() == 36,
            r.schema_version@ == "v0.0.2.1"@,
            r.data_version@ == "1.0"@,
            r.provenance@.len() == 0,
    {
        StorageAuditRecord {
            audit_id: new_id(),
            data_id: owned(data_id),
            layer,
            action: owned(action),
            actor: owned(actor),
            timestamp: now_timestamp(),
            schema_version: owned("v0.0.2.1"),
            data_version: owned("1.0"),
            provenance: Vec::new(),
        }
    }

    /// Add provenance entry at the end of the chain; nothing else changes.
    pub fn add_provenance(&mut self, source: &str)
        ensures
            final(self).provenance@.len() == old(self).provenance@.len() + 1,
            final(self).provenance@.drop_last() == old(self).provenance@,
            final(self).provenance@.last()@ == source@,
            final(self).audit_id == old(self).audit_id,
            final(self).data_id == old(self).data_id,
            final(self).layer == old(self).layer,
            final(self).action == old(self).action,
            final(self).actor == old(self).actor,
            final(self).timestamp == old(self).timestamp,
            final(self).schema_version == old(self).schema_version,
            final(self).data_version == old(self).data_version,
    {
        self.provenance.push(owned(source));
    }
}

/// Storage version tracking.
#[derive(Debug, PartialEq, Eq, Hash)]
pub enum StorageVersion {
    /// Schema version.
    Schema(String),
    /// Data version.
    Data(String),
    /// Migration version.
    Migration(String),
}

/// The version text carried by any kind of version.
pub open spec fn version_text(v: StorageVersion) -> Seq<char> {
    match v {
        StorageVersion::Schema(s) => s@,
        StorageVersion::Data(s) => s@,
        StorageVersion::Migration(s) => s@,
    }
}

impl StorageVersion {
    /// Return version label: the version text itself.
    pub fn label(&self) -> (r: String)
        ensures
            r@ == version_text(*self),
    {
        match self {
            StorageVersion::Schema(s) => s.clone(),
            StorageVersion::Data(s) => s.clone(),
            StorageVersion::Migration(s) => s.clone(),
        }
    }
}

/// The records about one data item, in the order they were audited.
pub open spec fn records_for(records: Seq<StorageAuditRecord>, data_id: Seq<char>) -> Seq<
    StorageAuditRecord,
> {
    records.filter(|r: StorageAuditRecord| r.data_id@ == data_id)
}

/// Storage layer manager coordinating storage operations.
pub struct StorageArchitecture {
    /// Active storage policies by layer.
    policies: StrMap<StoragePolicy>,
    /// Audit records.
    audit_records: Vec<StorageAuditRecord>,
    /// Storage versions tracked.
    versions: StrMap<StorageVersion>,
}

impl StorageArchitecture {
    /// Policies by layer name, in insertion order.
    pub closed spec fn policies(self) -> Seq<(Seq<char>, StoragePolicy)> {
        self.policies@
    }

    /// Audit records, oldest first.
    pub closed spec fn audit_records(self) -> Seq<StorageAuditRecord> {
        self.audit_records@
    }

    /// Tracked versions by id, in insertion order.
    pub closed spec fn versions(self) -> Seq<(Seq<char>, StorageVersion)> {
        self.versions@
    }

    /// Create a new storage architecture manager with nothing in it.
    pub fn new() -> (r: Self)
        ensures
            r.policies().len() == 0,
            r.audit_records().len() == 0,
            r.versions().len() == 0,
    {
        StorageArchitecture {
            policies: StrMap::new(),
            audit_records: Vec::new(),
            versions: StrMap::new(),
        }
    }

    /// Set a storage policy for a layer, replacing any earlier one.
    pub fn set_policy(&mut self, layer_name: &str, policy: StoragePolicy)
        ensures
            final(self).policies() == kv_insert(old(self).policies(), layer_name@, policy),
            final(self).audit_records() == old(self).audit_records(),
            final(self).versions() == old(self).versions(),
    {
        self.policies.insert(owned(layer_name), policy);
    }

    /// Get policy for a layer.
    pub fn get_policy(&self, layer_name: &str) -> (r: Option<&StoragePolicy>)
        ensures
            match r {
                Some(p) => lookup(self.policies(), layer_name@) == Some(*p),
                None => lookup(self.policies(), layer_name@) is None,
            },
    {
        self.policies.get(layer_name)
    }

    /// Record a storage audit entry.
    pub fn audit(&mut self, record: StorageAuditRecord)
        ensures
            final(self).audit_records() == old(self).audit_records().push(record),
            final(self).policies() == old(self).policies(),
            final(self).versions() == old(self).versions(),
    {
        self.audit_records.push(record);
    }

    /// Track a storage version, replacing any earlier one for the same id.
    pub fn track_version(&mut self, id: &str, version: StorageVersion)
        ensures
            final(self).versions() == kv_insert(old(self).versions(), id@, version),
            final(self).policies() == old(self).policies(),
            final(self).audit_records() == old(self).audit_records(),
    {
        self.versions.insert(owned(id), version);
    }

    /// Number of policies, audit records and tracked versions.
    pub fn counts(&self) -> (r: (usize, usize, usize))
        ensures
            r == (self.policies().len() as usize, self.audit_records().len() as usize, self.versions().len() as usize),
    {
        (self.policies.len(), self.audit_records.len(), self.versions.len())
    }

    /// Get audit records for a data item, oldest first.
    pub fn get_audit_for_data(&self, data_id: &str) -> (r: Vec<&StorageAuditRecord>)
        ensures
            r@.map_values(|x: &StorageAuditRecord| *x) == records_for(self.audit_records(), data_id@),
    {
        let mut r: Vec<&StorageAuditRecord> = Vec::new();
        let mut i: usize = 0;
        while i < self.audit_records.len()
            invariant
                i <= self.audit_records@.len(),
                r@.map_values(|x: &StorageAuditRecord| *x) == records_for(
                    self.audit_records@.take(i as int),
                    data_id@,
                ),
            decreases self.audit_records.len() - i,
        {
            let rec = &self.audit_records[i];
            let ghost before = r@;
            proof {
                let t = self.audit_records@.take(i + 1);
                assert(t.drop_last() =~= self.audit_records@.take(i as int));
                reveal_with_fuel(Seq::filter, 1);
            }
            if crate::text::str_eq(rec.data_id.as_str(), data_id) {
                r.push(rec);
                assert(r@.map_values(|x: &StorageAuditRecord| *x) =~= before.map_values(
                    |x: &StorageAuditRecord| *x,
                ).push(*rec));
            }
            i += 1;
        }
        assert(self.audit_records@.take(self.audit_records@.len() as int) =~= self.audit_records@);
        r
    }

    /// Check if cleanup should run for a layer: its policy exists and enables cleanup.
    pub fn should_cleanup(&self, layer_name: &str) -> (r: bool)
        ensures
            r == match lookup(self.policies(), layer_name@) {
                Some(p) => p.cleanup_enabled,
                None => false,
            },
    {
        match self.get_policy(layer_name) {
            Some(p) => p.cleanup_enabled,
            None => false,
        }
    }
}

/// Bit patterns of the `f32` promotion thresholds 0.9, 0.7, 0.5 and 0.0.
pub const HOT_PROMOTION_BITS: u32 = 0x3F66_6666;
pub const WARM_PROMOTION_BITS: u32 = 0x3F33_3333;
pub const COLD_PROMOTION_BITS: u32 = 0x3F00_0000;
pub const FROZEN_PROMOTION_BITS: u32 = 0;

/// The four policies set up at start, by layer name.
pub open spec fn initial_policies() -> Seq<(Seq<char>, StoragePolicy)> {
    seq![
        ("hot"@, StoragePolicy { layer: StorageLayer::Hot, retention_days: 7, promotion_threshold_bits: HOT_PROMOTION_BITS, demotion_access_threshold: 3, cleanup_enabled: true }),
        ("warm"@, StoragePolicy { layer: StorageLayer::Warm, retention_days: 30, promotion_threshold_bits: WARM_PROMOTION_BITS, demotion_access_threshold: 3, cleanup_enabled: true }),
        ("cold"@, StoragePolicy { layer: StorageLayer::Cold, retention_days: 365, promotion_threshold_bits: COLD_PROMOTION_BITS, demotion_access_threshold: 3, cleanup_enabled: true }),
        ("frozen"@, StoragePolicy { layer: StorageLayer::Frozen, retention_days: 0, promotion_threshold_bits: FROZEN_PROMOTION_BITS, demotion_access_threshold: 3, cleanup_enabled: true }),
    ]
}

/// Storage layer initialization: hot, warm, cold and frozen layers.
pub fn initialize_storage_layers() -> (a: StorageArchitecture)
    ensures
        a.policies() == initial_policies(),
        a.audit_records().len() == 0,
        a.versions().len() == 0,
{
    let mut architecture = StorageArchitecture::new();
    proof {
        reveal_strlit("hot");
        reveal_strlit("warm");
        reveal_strlit("cold");
        reveal_strlit("frozen");
    }
    let ghost ip = initial_policies();
    architecture.set_policy("hot", StoragePolicy::new(StorageLayer::Hot, 7, HOT_PROMOTION_BITS));
    assert(architecture.policies() =~= ip.take(1));
    architecture.set_policy("warm", StoragePolicy::new(StorageLayer::Warm, 30, WARM_PROMOTION_BITS));
    proof {
        assert("hot"@.len() != "warm"@.len() || "hot"@[0] != "warm"@[0]);
        assert(key_pos(ip.take(1), "warm"@) is None) by {
            reveal_with_fuel(crate::str_map::key_pos, 2);
        }
    }
    assert(architecture.policies() =~= ip.take(2));
    architecture.set_policy("cold", StoragePolicy::new(StorageLayer::Cold, 365, COLD_PROMOTION_BITS));
    proof {
        assert("hot"@.len() != "cold"@.len() || "hot"@[0] != "cold"@[0]);
        assert("warm"@.len() != "cold"@.len() || "warm"@[0] != "cold"@[0]);
        assert(key_pos(ip.take(2), "cold"@) is None) by {
            reveal_with_fuel(crate::str_map::key_pos, 3);
        }
    }
    assert(architecture.policies() =~= ip.take(3));
    architecture.set_policy(
        "frozen",
        StoragePolicy::new(StorageLayer::Frozen, 0, FROZEN_PROMOTION_BITS),
    );
    proof {
        assert("hot"@.len() != "frozen"@.len() || "hot"@[0] != "frozen"@[0]);
        assert("warm"@.len() != "frozen"@.len() || "warm"@[0] != "frozen"@[0]);
        assert("cold"@.len() != "frozen"@.len() || "cold"@[0] != "frozen"@[0]);
        assert(key_pos(ip.take(3), "frozen"@) is None) by {
            reveal_with_fuel(crate::str_map::key_pos, 4);
        }
    }
    assert(architecture.policies() =~= ip);
    architecture
}

/// Exercise the storage contracts: set up the layers, audit one store of
/// "data-1" and track its schema version. Returns the number of policies,
/// audit records and tracked versions, which are 4, 1 and 1.
pub fn reference_storage_architecture() -> (r: (usize, usize, usize))
    ensures
        r == (4usize, 1usize, 1usize),
{
    let mut arch = initialize_storage_layers();
    let audit = StorageAuditRecord::new("data-1", StorageLayer::Hot, "store", "agent");
    arch.audit(audit);
    arch.track_version("data-1", StorageVersion::Schema(owned("v0.0.2.1")));
    proof {
        reveal_with_fuel(crate::str_map::key_pos, 1);
    }
    arch.counts()
}

} // verus!
