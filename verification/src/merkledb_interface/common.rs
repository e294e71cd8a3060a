//! What the four families of indexes share: how an index is named and
//! reached, and what is handed to the host's storage for one operation.

use vstd::prelude::*;

use crate::errors::ProtocolViolation;
use crate::types::c_str_content;
use crate::types::decode_lossy;
use crate::types::RawIndexAccess;
use crate::types::RawString;
use crate::types::ReadAccess;

verus! {

/// The families of indexes. An index is identified by its family together
/// with its name: indexes of different families never alias.
#[derive(Clone, Copy, Debug, PartialEq, Eq, Structural)]
pub enum IndexKind {
    ListIndex,
    MapIndex,
    ProofListIndex,
    ProofMapIndex,
}

/// One read of an index: where to read, which index, and what.
#[derive(Debug)]
pub struct IndexRead<'a, F, S, Q> {
    pub access: ReadAccess<'a, F, S>,
    pub kind: IndexKind,
    pub index_name: String,
    pub query: Q,
}

/// One write to an index: the transactional view to write to, which index,
/// and what.
#[derive(Debug)]
pub struct IndexWrite<'a, F, U> {
    pub fork: &'a F,
    pub kind: IndexKind,
    pub index_name: String,
    pub update: U,
}

impl<'a, F, S, Q> IndexRead<'a, F, S, Q> {
    /// The read goes to what `access` allows to read, and to the index of
    /// family `kind` that `index_name` names.
    pub open spec fn targets(
        &self,
        access: &'a RawIndexAccess<F, S>,
        kind: IndexKind,
        index_name: Seq<u8>,
    ) -> bool {
        &&& self.access == read_target(access)
        &&& self.kind == kind
        &&& self.index_name@ == decode_lossy(index_name)
    }
}

impl<'a, F, U> IndexWrite<'a, F, U> {
    /// The write goes to the transactional view that `access` holds, and to
    /// the index of family `kind` that `index_name` names.
    pub open spec fn targets<S>(
        &self,
        access: RawIndexAccess<F, S>,
        kind: IndexKind,
        index_name: Seq<u8>,
    ) -> bool {
        &&& access == RawIndexAccess::<F, S>::Fork(*self.fork)
        &&& self.kind == kind
        &&& self.index_name@ == decode_lossy(index_name)
    }
}

/// What a read through a token goes to.
pub open spec fn read_target<'a, F, S>(access: &'a RawIndexAccess<F, S>) -> ReadAccess<'a, F, S> {
    match access {
        RawIndexAccess::Fork(fork) => ReadAccess::Fork(fork),
        RawIndexAccess::Snapshot(snapshot) => ReadAccess::Snapshot(snapshot),
        RawIndexAccess::SnapshotToken => ReadAccess::CurrentSnapshot,
    }
}

/// Reads the C string that starts at `data[0]` as text. Bytes after the first
/// NUL are ignored; malformed UTF-8 is read lossily.
pub fn parse_string(data: &[u8]) -> (s: String)
    ensures
        s@ == decode_lossy(c_str_content(data@)),
{
    RawString::from_bytes(data).to_string_lossy()
}

/// Plans a read: every token allows it.
pub fn plan_read<'a, F, S, Q>(
    access: &'a RawIndexAccess<F, S>,
    kind: IndexKind,
    index_name: &RawString,
    query: Q,
) -> (read: IndexRead<'a, F, S, Q>)
    ensures
        read.targets(access, kind, index_name@),
        read.query == query,
{
    IndexRead { access: access.readable(), kind, index_name: index_name.to_string_lossy(), query }
}

/// Plans a write through a token with mutable access. A write through any
/// other token is a breach of the protocol: the caller rules it out with
/// [`RawIndexAccess::writable`] and fails where it is refused.
pub fn plan_write<'a, F, S, U>(
    access: &'a RawIndexAccess<F, S>,
    kind: IndexKind,
    index_name: &RawString,
    update: U,
) -> (write: IndexWrite<'a, F, U>)
    requires
        access.mutable(),
    ensures
        write.targets(*access, kind, index_name@),
        write.update == update,
{
    IndexWrite { fork: access.fork(), kind, index_name: index_name.to_string_lossy(), update }
}

/// Only a transactional view allows writes. A snapshot, and the token that
/// stands for the current snapshot, do not: no write can be planned through
/// them, and asking them for a view to write to yields the breach.
pub proof fn lemma_read_only_tokens_refuse_writes<F, S>(access: RawIndexAccess<F, S>)
    ensures
        access.mutable() <==> access is Fork,
        access is Snapshot || access is SnapshotToken ==> access.write_verdict() == Some(
            ProtocolViolation::ReadOnlyAccess,
        ),
        access is Fork ==> access.write_verdict() is None,
{
}

} // verus!
