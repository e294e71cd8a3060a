//! Maps: values by key.

use vstd::prelude::*;

use crate::merkledb_interface::binary_data::BinaryData;
use crate::merkledb_interface::common::plan_read;
use crate::merkledb_interface::common::plan_write;
use crate::merkledb_interface::common::IndexKind;
use crate::merkledb_interface::common::IndexRead;
use crate::merkledb_interface::common::IndexWrite;
use crate::types::RawIndexAccess;
use crate::types::RawString;

verus! {

/// What can be asked of a map.
#[derive(Clone, Debug, PartialEq, Eq)]
pub enum MapQuery {
    /// The value under a key, if there is one.
    Get { key: Vec<u8> },
}

/// What can be done to a map.
#[derive(Clone, Debug, PartialEq, Eq)]
pub enum MapUpdate {
    /// Stores a value under a key.
    Put { key: Vec<u8>, value: Vec<u8> },
    /// Removes the entry of a key.
    Remove { key: Vec<u8> },
    /// Removes all entries.
    Clear,
}

/// A handle of one map: the access token and the name of the index.
#[derive(Debug)]
pub struct RawMapIndex<F, S> {
    pub access: RawIndexAccess<F, S>,
    pub index_name: RawString,
}

/// Makes the handle of the map `index_name` as seen through `access`.
pub fn merkledb_map_index<F, S>(
    access: RawIndexAccess<F, S>,
    index_name: RawString,
) -> (index: RawMapIndex<F, S>)
    ensures
        index.access == access,
        index.index_name@ == index_name@,
{
    RawMapIndex { access, index_name }
}

impl<F, S> RawMapIndex<F, S> {
    /// Reads the value under `key`. A key without an entry yields no value, not
    /// an error.
    pub fn get(&self, key: &BinaryData) -> (read: IndexRead<'_, F, S, MapQuery>)
        requires
            key.wf(),
        ensures
            read.targets(&self.access, IndexKind::MapIndex, self.index_name@),
            (read.query matches MapQuery::Get { key: asked } && asked@ == key@),
    {
        let query = MapQuery::Get { key: key.to_vec() };
        plan_read(&self.access, IndexKind::MapIndex, &self.index_name, query)
    }

    /// Stores `value` under `key`. The token has to allow writes: through any
    /// other token the operation is a breach of the protocol.
    pub fn put(&self, key: &BinaryData, value: &BinaryData) -> (write: IndexWrite<'_, F, MapUpdate>)
        requires
            self.access.mutable(),
            key.wf(),
            value.wf(),
        ensures
            write.targets(self.access, IndexKind::MapIndex, self.index_name@),
            (write.update matches MapUpdate::Put { key: stored_key, value: stored }
                && stored_key@ == key@ && stored@ == value@),
    {
        let update = MapUpdate::Put { key: key.to_vec(), value: value.to_vec() };
        plan_write(&self.access, IndexKind::MapIndex, &self.index_name, update)
    }

    /// Removes the entry of `key`. The token has to allow writes: through any
    /// other token the operation is a breach of the protocol.
    pub fn remove(&self, key: &BinaryData) -> (write: IndexWrite<'_, F, MapUpdate>)
        requires
            self.access.mutable(),
            key.wf(),
        ensures
            write.targets(self.access, IndexKind::MapIndex, self.index_name@),
            (write.update matches MapUpdate::Remove { key: removed } && removed@ == key@),
    {
        let update = MapUpdate::Remove { key: key.to_vec() };
        plan_write(&self.access, IndexKind::MapIndex, &self.index_name, update)
    }

    /// Removes all entries. The token has to allow writes: through any other
    /// token the operation is a breach of the protocol.
    pub fn clear(&self) -> (write: IndexWrite<'_, F, MapUpdate>)
        requires
            self.access.mutable(),
        ensures
            write.targets(self.access, IndexKind::MapIndex, self.index_name@),
            (write.update is Clear),
    {
        let update = MapUpdate::Clear;
        plan_write(&self.access, IndexKind::MapIndex, &self.index_name, update)
    }
}

} // verus!
