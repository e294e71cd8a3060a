//! Merkleized maps: values by key, with a digest over all entries.

use vstd::prelude::*;

use crate::merkledb_interface::binary_data::BinaryData;
use crate::merkledb_interface::common::plan_read;
use crate::merkledb_interface::common::plan_write;
use crate::merkledb_interface::common::IndexKind;
use crate::merkledb_interface::common::IndexRead;
use crate::merkledb_interface::common::IndexWrite;
use crate::types::RawIndexAccess;
use crate::types::RawString;

verus! {

/// What can be asked of a merkleized map.
#[derive(Clone, Debug, PartialEq, Eq)]
pub enum ProofMapQuery {
    /// The value under a key, if there is one.
    Get { key: Vec<u8> },
    /// The digest over all entries.
    ObjectHash,
}

/// What can be done to a merkleized map.
#[derive(Clone, Debug, PartialEq, Eq)]
pub enum ProofMapUpdate {
    /// Stores a value under a key.
    Put { key: Vec<u8>, value: Vec<u8> },
    /// Removes the entry of a key.
    Remove { key: Vec<u8> },
    /// Removes all entries.
    Clear,
}

/// A handle of one merkleized map: the access token and the name of the index.
#[derive(Debug)]
pub struct RawProofMapIndex<F, S> {
    pub access: RawIndexAccess<F, S>,
    pub index_name: RawString,
}

/// Makes the handle of the merkleized map `index_name` as seen through `access`.
pub fn merkledb_proof_map_index<F, S>(
    access: RawIndexAccess<F, S>,
    index_name: RawString,
) -> (index: RawProofMapIndex<F, S>)
    ensures
        index.access == access,
        index.index_name@ == index_name@,
{
    RawProofMapIndex { access, index_name }
}

impl<F, S> RawProofMapIndex<F, S> {
    /// Reads the value under `key`. A key without an entry yields no value, not
    /// an error.
    pub fn get(&self, key: &BinaryData) -> (read: IndexRead<'_, F, S, ProofMapQuery>)
        requires
            key.wf(),
        ensures
            read.targets(&self.access, IndexKind::ProofMapIndex, self.index_name@),
            (read.query matches ProofMapQuery::Get { key: asked } && asked@ == key@),
    {
        let query = ProofMapQuery::Get { key: key.to_vec() };
        plan_read(&self.access, IndexKind::ProofMapIndex, &self.index_name, query)
    }

    /// Reads the digest over all entries.
    pub fn object_hash(&self) -> (read: IndexRead<'_, F, S, ProofMapQuery>)
        ensures
            read.targets(&self.access, IndexKind::ProofMapIndex, self.index_name@),
            read.query is ObjectHash,
    {
        let query = ProofMapQuery::ObjectHash;
        plan_read(&self.access, IndexKind::ProofMapIndex, &self.index_name, query)
    }

    /// Stores `value` under `key`. The token has to allow writes: through any
    /// other token the operation is a breach of the protocol.
    pub fn put(&self, key: &BinaryData, value: &BinaryData) -> (write: IndexWrite<'_, F, ProofMapUpdate>)
        requires
            self.access.mutable(),
            key.wf(),
            value.wf(),
        ensures
            write.targets(self.access, IndexKind::ProofMapIndex, self.index_name@),
            (write.update matches ProofMapUpdate::Put { key: stored_key, value: stored }
                && stored_key@ == key@ && stored@ == value@),
    {
        let update = ProofMapUpdate::Put { key: key.to_vec(), value: value.to_vec() };
        plan_write(&self.access, IndexKind::ProofMapIndex, &self.index_name, update)
    }

    /// Removes the entry of `key`. The token has to allow writes: through any
    /// other token the operation is a breach of the protocol.
    pub fn remove(&self, key: &BinaryData) -> (write: IndexWrite<'_, F, ProofMapUpdate>)
        requires
            self.access.mutable(),
            key.wf(),
        ensures
            write.targets(self.access, IndexKind::ProofMapIndex, self.index_name@),
            (write.update matches ProofMapUpdate::Remove { key: removed } && removed@ == key@),
    {
        let update = ProofMapUpdate::Remove { key: key.to_vec() };
        plan_write(&self.access, IndexKind::ProofMapIndex, &self.index_name, update)
    }

    /// Removes all entries. The token has to allow writes: through any other
    /// token the operation is a breach of the protocol.
    pub fn clear(&self) -> (write: IndexWrite<'_, F, ProofMapUpdate>)
        requires
            self.access.mutable(),
        ensures
            write.targets(self.access, IndexKind::ProofMapIndex, self.index_name@),
            (write.update is Clear),
    {
        let update = ProofMapUpdate::Clear;
        plan_write(&self.access, IndexKind::ProofMapIndex, &self.index_name, update)
    }
}

} // verus!
