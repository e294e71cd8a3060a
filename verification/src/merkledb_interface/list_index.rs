//! Lists: elements by position.

use vstd::prelude::*;

use crate::merkledb_interface::binary_data::BinaryData;
use crate::merkledb_interface::common::plan_read;
use crate::merkledb_interface::common::plan_write;
use crate::merkledb_interface::common::IndexKind;
use crate::merkledb_interface::common::IndexRead;
use crate::merkledb_interface::common::IndexWrite;
use crate::types::RawIndexAccess;
use crate::types::RawString;

verus! {

/// What can be asked of a list.
#[derive(Clone, Copy, Debug, PartialEq, Eq, Structural)]
pub enum ListQuery {
    /// The element at a position, if there is one.
    Get { index: u64 },
    /// The number of elements.
    Len,
}

/// What can be done to a list.
#[derive(Clone, Debug, PartialEq, Eq)]
pub enum ListUpdate {
    /// Appends an element.
    Push { value: Vec<u8> },
    /// Removes the last element and hands it out.
    Pop,
    /// Replaces the element at a position.
    SetAt { index: u64, value: Vec<u8> },
    /// Removes all elements.
    Clear,
}

/// A handle of one list: the access token and the name of the index.
#[derive(Debug)]
pub struct RawListIndex<F, S> {
    pub access: RawIndexAccess<F, S>,
    pub index_name: RawString,
}

/// Makes the handle of the list `index_name` as seen through `access`.
pub fn merkledb_list_index<F, S>(
    access: RawIndexAccess<F, S>,
    index_name: RawString,
) -> (index: RawListIndex<F, S>)
    ensures
        index.access == access,
        index.index_name@ == index_name@,
{
    RawListIndex { access, index_name }
}

impl<F, S> RawListIndex<F, S> {
    /// Reads the element at `idx`. A position past the end yields no value, not
    /// an error.
    pub fn get(&self, idx: u64) -> (read: IndexRead<'_, F, S, ListQuery>)
        ensures
            read.targets(&self.access, IndexKind::ListIndex, self.index_name@),
            read.query == (ListQuery::Get { index: idx }),
    {
        let query = ListQuery::Get { index: idx };
        plan_read(&self.access, IndexKind::ListIndex, &self.index_name, query)
    }

    /// Reads the number of elements.
    pub fn len(&self) -> (read: IndexRead<'_, F, S, ListQuery>)
        ensures
            read.targets(&self.access, IndexKind::ListIndex, self.index_name@),
            read.query == ListQuery::Len,
    {
        let query = ListQuery::Len;
        plan_read(&self.access, IndexKind::ListIndex, &self.index_name, query)
    }

    /// Appends `value`. The token has to allow writes: through any other token
    /// the operation is a breach of the protocol.
    pub fn push(&self, value: &BinaryData) -> (write: IndexWrite<'_, F, ListUpdate>)
        requires
            self.access.mutable(),
            value.wf(),
        ensures
            write.targets(self.access, IndexKind::ListIndex, self.index_name@),
            (write.update matches ListUpdate::Push { value: pushed } && pushed@ == value@),
    {
        let update = ListUpdate::Push { value: value.to_vec() };
        plan_write(&self.access, IndexKind::ListIndex, &self.index_name, update)
    }

    /// Removes the last element and hands it out. The token has to allow
    /// writes: through any other token the operation is a breach of the
    /// protocol.
    pub fn pop(&self) -> (write: IndexWrite<'_, F, ListUpdate>)
        requires
            self.access.mutable(),
        ensures
            write.targets(self.access, IndexKind::ListIndex, self.index_name@),
            (write.update is Pop),
    {
        let update = ListUpdate::Pop;
        plan_write(&self.access, IndexKind::ListIndex, &self.index_name, update)
    }

    /// Replaces the element at `idx` by `value`. The token has to allow writes:
    /// through any other token the operation is a breach of the protocol.
    pub fn set(&self, idx: u64, value: &BinaryData) -> (write: IndexWrite<'_, F, ListUpdate>)
        requires
            self.access.mutable(),
            value.wf(),
        ensures
            write.targets(self.access, IndexKind::ListIndex, self.index_name@),
            (write.update matches ListUpdate::SetAt { index, value: stored } && index == idx
                && stored@ == value@),
    {
        let update = ListUpdate::SetAt { index: idx, value: value.to_vec() };
        plan_write(&self.access, IndexKind::ListIndex, &self.index_name, update)
    }

    /// Removes all elements. The token has to allow writes: through any other
    /// token the operation is a breach of the protocol.
    pub fn clear(&self) -> (write: IndexWrite<'_, F, ListUpdate>)
        requires
            self.access.mutable(),
        ensures
            write.targets(self.access, IndexKind::ListIndex, self.index_name@),
            (write.update is Clear),
    {
        let update = ListUpdate::Clear;
        plan_write(&self.access, IndexKind::ListIndex, &self.index_name, update)
    }
}

} // verus!
