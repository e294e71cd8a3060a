//! Merkleized lists: elements by position, with a digest over all of them.

use vstd::prelude::*;

use crate::merkledb_interface::binary_data::BinaryData;
use crate::merkledb_interface::common::plan_read;
use crate::merkledb_interface::common::plan_write;
use crate::merkledb_interface::common::IndexKind;
use crate::merkledb_interface::common::IndexRead;
use crate::merkledb_interface::common::IndexWrite;
use crate::types::RawIndexAccess;
use crate::types::RawString;

verus! {

/// What can be asked of a merkleized list.
#[derive(Clone, Copy, Debug, PartialEq, Eq, Structural)]
pub enum ProofListQuery {
    /// The element at a position, if there is one.
    Get { index: u64 },
    /// The number of elements.
    Len,
    /// The digest over all elements.
    ObjectHash,
}

/// What can be done to a merkleized list.
#[derive(Clone, Debug, PartialEq, Eq)]
pub enum ProofListUpdate {
    /// Appends an element.
    Push { value: Vec<u8> },
    /// Replaces the element at a position.
    SetAt { index: u64, value: Vec<u8> },
    /// Removes all elements.
    Clear,
}

/// A handle of one merkleized list: the access token and the name of the index.
#[derive(Debug)]
pub struct RawProofListIndex<F, S> {
    pub access: RawIndexAccess<F, S>,
    pub index_name: RawString,
}

/// Makes the handle of the merkleized list `index_name` as seen through `access`.
pub fn merkledb_proof_list_index<F, S>(
    access: RawIndexAccess<F, S>,
    index_name: RawString,
) -> (index: RawProofListIndex<F, S>)
    ensures
        index.access == access,
        index.index_name@ == index_name@,
{
    RawProofListIndex { access, index_name }
}

impl<F, S> RawProofListIndex<F, S> {
    /// Reads the element at `idx`. A position past the end yields no value, not
    /// an error.
    pub fn get(&self, idx: u64) -> (read: IndexRead<'_, F, S, ProofListQuery>)
        ensures
            read.targets(&self.access, IndexKind::ProofListIndex, self.index_name@),
            read.query == (ProofListQuery::Get { index: idx }),
    {
        let query = ProofListQuery::Get { index: idx };
        plan_read(&self.access, IndexKind::ProofListIndex, &self.index_name, query)
    }

    /// Reads the number of elements.
    pub fn len(&self) -> (read: IndexRead<'_, F, S, ProofListQuery>)
        ensures
            read.targets(&self.access, IndexKind::ProofListIndex, self.index_name@),
            read.query == ProofListQuery::Len,
    {
        let query = ProofListQuery::Len;
        plan_read(&self.access, IndexKind::ProofListIndex, &self.index_name, query)
    }

    /// Reads the digest over all elements.
    pub fn object_hash(&self) -> (read: IndexRead<'_, F, S, ProofListQuery>)
        ensures
            read.targets(&self.access, IndexKind::ProofListIndex, self.index_name@),
            read.query == ProofListQuery::ObjectHash,
    {
        let query = ProofListQuery::ObjectHash;
        plan_read(&self.access, IndexKind::ProofListIndex, &self.index_name, query)
    }

    /// Appends `value`. The token has to allow writes: through any other token
    /// the operation is a breach of the protocol.
    pub fn push(&self, value: &BinaryData) -> (write: IndexWrite<'_, F, ProofListUpdate>)
        requires
            self.access.mutable(),
            value.wf(),
        ensures
            write.targets(self.access, IndexKind::ProofListIndex, self.index_name@),
            (write.update matches ProofListUpdate::Push { value: pushed } && pushed@ == value@),
    {
        let update = ProofListUpdate::Push { value: value.to_vec() };
        plan_write(&self.access, IndexKind::ProofListIndex, &self.index_name, update)
    }

    /// Replaces the element at `idx` by `value`. The token has to allow writes:
    /// through any other token the operation is a breach of the protocol.
    pub fn set(&self, idx: u64, value: &BinaryData) -> (write: IndexWrite<'_, F, ProofListUpdate>)
        requires
            self.access.mutable(),
            value.wf(),
        ensures
            write.targets(self.access, IndexKind::ProofListIndex, self.index_name@),
            (write.update matches ProofListUpdate::SetAt { index, value: stored } && index == idx
                && stored@ == value@),
    {
        let update = ProofListUpdate::SetAt { index: idx, value: value.to_vec() };
        plan_write(&self.access, IndexKind::ProofListIndex, &self.index_name, update)
    }

    /// Removes all elements. The token has to allow writes: through any other
    /// token the operation is a breach of the protocol.
    pub fn clear(&self) -> (write: IndexWrite<'_, F, ProofListUpdate>)
        requires
            self.access.mutable(),
        ensures
            write.targets(self.access, IndexKind::ProofListIndex, self.index_name@),
            (write.update is Clear),
    {
        let update = ProofListUpdate::Clear;
        plan_write(&self.access, IndexKind::ProofListIndex, &self.index_name, update)
    }
}

} // verus!
