//! Records of the recovery data kept for groups of archive volumes: a group
//! of volumes is encoded into data shards and parity shards.
use vstd::prelude::*;
use crate::utils::unix_timestamp_now;

verus! {

/// A recovery group. Its status is kept as the text stored in the index.
#[derive(Debug, Clone)]
pub struct RecoveryGroup {
    pub id: Option<i64>,
    pub group_id: String,
    pub num_data_shards: u64,
    pub num_parity_shards: u64,
    pub shard_size: u64,
    pub data_shards_stored: bool,
    pub last_verified: Option<i64>,
    pub status: String,
    pub created_at: i64,
    pub updated_at: i64,
}

/// The parameters of a new recovery group.
#[derive(Debug, Clone)]
pub struct CreateRecoveryGroupParams {
    pub group_id: String,
    pub num_data_shards: u64,
    pub num_parity_shards: u64,
    pub shard_size: u64,
    pub data_shards_stored: bool,
    pub status: String,
    pub last_verified: Option<i64>,
}

impl RecoveryGroup {
    /// A recovery group that has not been stored yet, made from its
    /// parameters and stamped with the current time (both timestamps read
    /// from the clock); `None` when the system clock cannot be read as a time
    /// after the Unix epoch.
    pub fn new(params: CreateRecoveryGroupParams) -> (r: Option<Self>)
        ensures
            r matches Some(g) ==> {
                &&& g.id is None
                &&& g.group_id == params.group_id
                &&& g.num_data_shards == params.num_data_shards
                &&& g.num_parity_shards == params.num_parity_shards
                &&& g.shard_size == params.shard_size
                &&& g.data_shards_stored == params.data_shards_stored
                &&& g.last_verified == params.last_verified
                &&& g.status == params.status
                &&& g.created_at >= 0
                &&& g.updated_at >= 0
            },
    {
        let created_at = match unix_timestamp_now() {
            Some(t) => t,
            None => return None,
        };
        let updated_at = match unix_timestamp_now() {
            Some(t) => t,
            None => return None,
        };
        Some(RecoveryGroup {
            id: None,
            group_id: params.group_id,
            num_data_shards: params.num_data_shards,
            num_parity_shards: params.num_parity_shards,
            shard_size: params.shard_size,
            data_shards_stored: params.data_shards_stored,
            last_verified: params.last_verified,
            status: params.status,
            created_at,
            updated_at,
        })
    }
}

/// A data shard of a recovery group; it may have no stored copy.
#[derive(Debug, Clone)]
pub struct RecoveryDataShard {
    pub id: i64,
    pub group_id: i64,
    pub shard_index: i64,
    pub shard_path: Option<String>,
    pub shard_hash: String,
    pub status: String,
    pub last_verified: Option<i64>,
    pub created_at: i64,
    pub updated_at: i64,
}

/// A parity shard of a recovery group; parity shards are always stored.
#[derive(Debug, Clone)]
pub struct RecoveryParityShard {
    pub id: i64,
    pub group_id: i64,
    pub shard_index: i64,
    pub shard_path: String,
    pub shard_hash: String,
    pub status: String,
    pub last_verified: Option<i64>,
    pub created_at: i64,
    pub updated_at: i64,
}

/// Links an archive volume to the data shard that holds it, with the
/// volume's place in the shard and its hash when it was encoded.
#[derive(Debug, Clone)]
pub struct MapArchiveDataShard {
    pub id: i64,
    pub shard_id: i64,
    pub archive_id: i64,
    pub archive_order: u64,
    pub original_archive_hash: String,
    pub status: String,
    pub created_at: i64,
    pub updated_at: i64,
}

} // verus!
