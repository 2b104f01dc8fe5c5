//! What a database says of itself, and the reply that reports it.
use vstd::prelude::*;

verus! {

/// The metadata section of a loaded database.
pub struct DbMetadata {
    pub binary_format_major_version: u16,
    pub binary_format_minor_version: u16,
    pub build_epoch: u64,
    pub database_type: String,
    /// Descriptions keyed by language code.
    pub description: Vec<(String, String)>,
    pub ip_version: u16,
    pub languages: Vec<String>,
    pub node_count: u32,
    pub record_size: u16,
}

/// The metadata as the service reports it.
pub struct MetadataReply {
    pub binary_format_major_version: u32,
    pub binary_format_minor_version: u32,
    pub build_epoch: u64,
    pub database_type: String,
    pub description: Vec<(String, String)>,
    pub ip_version: u32,
    pub languages: Vec<String>,
    pub node_count: u32,
    pub record_size: u32,
}

/// `r` reports `m`: every field carried over, the narrow integers widened.
pub open spec fn reports(m: DbMetadata, r: MetadataReply) -> bool {
    &&& r.binary_format_major_version == m.binary_format_major_version as u32
    &&& r.binary_format_minor_version == m.binary_format_minor_version as u32
    &&& r.build_epoch == m.build_epoch
    &&& r.database_type == m.database_type
    &&& r.description == m.description
    &&& r.ip_version == m.ip_version as u32
    &&& r.languages == m.languages
    &&& r.node_count == m.node_count
    &&& r.record_size == m.record_size as u32
}

impl MetadataReply {
    /// The reply that reports `m`.
    pub fn from_metadata(m: DbMetadata) -> (r: MetadataReply)
        ensures
            reports(m, r),
    {
        MetadataReply {
            binary_format_major_version: m.binary_format_major_version as u32,
            binary_format_minor_version: m.binary_format_minor_version as u32,
            build_epoch: m.build_epoch,
            database_type: m.database_type,
            description: m.description,
            ip_version: m.ip_version as u32,
            languages: m.languages,
            node_count: m.node_count,
            record_size: m.record_size as u32,
        }
    }
}

} // verus!
