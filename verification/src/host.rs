//! The host dispatcher's data, as far as the bridge reads or produces it.

use vstd::prelude::*;
use vstd::string::*;

verus! {

/// Number of bytes in a hash and in a public key.
pub const HASH_SIZE: usize = 32;

/// Identity of a deployable artifact: the runtime it belongs to and its name.
#[derive(Debug, PartialEq, Eq)]
pub struct ArtifactId {
    pub runtime_id: u32,
    pub name: String,
}

/// Mathematical content of an [`ArtifactId`].
pub struct ArtifactIdView {
    pub runtime_id: u32,
    pub name: Seq<char>,
}

impl View for ArtifactId {
    type V = ArtifactIdView;

    open spec fn view(&self) -> ArtifactIdView {
        ArtifactIdView { runtime_id: self.runtime_id, name: self.name@ }
    }
}

impl Clone for ArtifactId {
    fn clone(&self) -> (a: Self)
        ensures
            a@ == self@,
    {
        ArtifactId { runtime_id: self.runtime_id, name: self.name.clone() }
    }
}

impl ArtifactId {
    /// The identity of the artifact `name` of the runtime `runtime_id`.
    pub fn new(runtime_id: u32, name: &str) -> (a: ArtifactId)
        ensures
            a@ == (ArtifactIdView { runtime_id, name: name@ }),
    {
        ArtifactId { runtime_id, name: String::from_str(name) }
    }

    /// Whether two identities name the same artifact.
    pub fn same_as(&self, other: &ArtifactId) -> (b: bool)
        ensures
            b <==> self@ == other@,
    {
        self.runtime_id == other.runtime_id && self.name == other.name
    }
}

/// A service instance that is about to be started.
#[derive(Clone, Debug, PartialEq, Eq)]
pub struct InstanceSpec {
    pub id: u32,
    pub name: String,
    pub artifact: ArtifactId,
}

/// Mathematical content of an [`InstanceSpec`].
pub struct InstanceSpecView {
    pub id: u32,
    pub name: Seq<char>,
    pub artifact: ArtifactIdView,
}

impl View for InstanceSpec {
    type V = InstanceSpecView;

    open spec fn view(&self) -> InstanceSpecView {
        InstanceSpecView { id: self.id, name: self.name@, artifact: self.artifact@ }
    }
}

/// A running service instance.
#[derive(Clone, Debug, PartialEq, Eq)]
pub struct InstanceDescriptor {
    pub id: u32,
    pub name: String,
}

/// Mathematical content of an [`InstanceDescriptor`].
pub struct InstanceDescriptorView {
    pub id: u32,
    pub name: Seq<char>,
}

impl View for InstanceDescriptor {
    type V = InstanceDescriptorView;

    open spec fn view(&self) -> InstanceDescriptorView {
        InstanceDescriptorView { id: self.id, name: self.name@ }
    }
}

/// Which method of which instance a transaction invokes.
#[derive(Clone, Copy, Debug, PartialEq, Eq, Structural)]
pub struct CallInfo {
    pub instance_id: u32,
    pub method_id: u32,
}

/// A 32-byte digest.
#[derive(Clone, Copy, Debug, PartialEq, Eq)]
pub struct Hash {
    pub bytes: [u8; 32],
}

impl View for Hash {
    type V = Seq<u8>;

    open spec fn view(&self) -> Seq<u8> {
        self.bytes@
    }
}

/// A 32-byte public key.
#[derive(Clone, Copy, Debug, PartialEq, Eq)]
pub struct PublicKey {
    pub bytes: [u8; 32],
}

impl View for PublicKey {
    type V = Seq<u8>;

    open spec fn view(&self) -> Seq<u8> {
        self.bytes@
    }
}

/// Copies 32 bytes starting at `data[0]`.
fn take_32(data: &[u8]) -> (out: [u8; 32])
    requires
        data@.len() >= 32,
    ensures
        out@ == data@.take(32),
{
    let mut out = [0u8;32];
    let mut i: usize = 0;
    while i < 32
        invariant
            i <= 32,
            data@.len() >= 32,
            out@.len() == 32,
            forall|j: int| 0 <= j < i ==> out@[j] == data@[j],
        decreases 32 - i,
    {
        out[i] = data[i];
        i += 1;
    }
    assert(out@ =~= data@.take(32));
    out
}

impl Hash {
    /// The hash made of the given bytes, if there are exactly 32 of them.
    pub fn from_slice(data: &[u8]) -> (h: Option<Hash>)
        ensures
            h is Some <==> data@.len() == 32,
            h matches Some(hash) ==> hash@ == data@,
    {
        if data.len() == HASH_SIZE {
            let bytes = take_32(data);
            assert(data@.take(32) =~= data@);
            Some(Hash { bytes })
        } else {
            None
        }
    }

    /// The bytes of the hash.
    pub fn to_vec(&self) -> (v: Vec<u8>)
        ensures
            v@ == self@,
    {
        vstd::slice::slice_to_vec(self.bytes.as_slice())
    }
}

impl PublicKey {
    /// The key made of the given bytes, if there are exactly 32 of them.
    pub fn from_slice(data: &[u8]) -> (k: Option<PublicKey>)
        ensures
            k is Some <==> data@.len() == 32,
            k matches Some(key) ==> key@ == data@,
    {
        if data.len() == HASH_SIZE {
            let bytes = take_32(data);
            assert(data@.take(32) =~= data@);
            Some(PublicKey { bytes })
        } else {
            None
        }
    }

    /// The bytes of the key.
    pub fn to_vec(&self) -> (v: Vec<u8>)
        ensures
            v@ == self@,
    {
        vstd::slice::slice_to_vec(self.bytes.as_slice())
    }
}

/// What the host hands over with a transaction to execute: the
/// transactional view to work on, the caller and the interface called.
#[derive(Debug)]
pub struct ExecutionContext<F> {
    pub fork: F,
    pub caller: Caller,
    pub interface_name: String,
}

/// Who asks for a method to be executed.
#[derive(Clone, Copy, Debug, PartialEq, Eq)]
pub enum Caller {
    /// A signed transaction.
    Transaction { hash: Hash, author: PublicKey },
    /// Another service instance.
    Service { instance_id: u32 },
}

/// State hashes of the runtime and of each of its service instances.
#[derive(Clone, Debug, PartialEq, Eq)]
pub struct StateHashAggregator {
    pub runtime: Vec<Hash>,
    pub instances: Vec<(u32, Vec<Hash>)>,
}

/// One protobuf source file of an artifact.
#[derive(Clone, Debug, PartialEq, Eq)]
pub struct ProtoSourceFile {
    pub name: String,
    pub content: String,
}

/// The protobuf sources that describe an artifact's interface.
#[derive(Clone, Debug, PartialEq, Eq)]
pub struct ArtifactProtobufSpec {
    pub sources: Vec<ProtoSourceFile>,
}

} // verus!
