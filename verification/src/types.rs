//! Boundary-safe representations of the host's data.
//!
//! Nothing here holds an address. Where the wire format has a pointer, these
//! types own the bytes that the pointer refers to, and `None` stands for the
//! null pointer.

use vstd::prelude::*;
use vstd::slice::*;
use vstd::string::*;
use vstd::utf8::*;

use crate::host::ArtifactId;
use crate::host::ArtifactIdView;
use crate::host::CallInfo;
use crate::host::Caller;
use crate::host::ArtifactProtobufSpec;
use crate::host::ExecutionContext;
use crate::host::ProtoSourceFile;
use crate::host::StateHashAggregator;
use crate::host::InstanceDescriptor;
use crate::host::InstanceDescriptorView;
use crate::host::InstanceSpec;
use crate::host::InstanceSpecView;

verus! {

/// No byte of the sequence is NUL.
pub open spec fn nul_free(bytes: Seq<u8>) -> bool {
    forall|i: int| 0 <= i < bytes.len() ==> bytes[i] != 0
}

/// No character of the sequence is NUL.
pub open spec fn nul_free_chars(chars: Seq<char>) -> bool {
    forall|i: int| 0 <= i < chars.len() ==> chars[i] != '\0'
}

/// Length of the C string that starts at `bytes[0]`: the position of the
/// first NUL, or the whole length where there is none.
pub open spec fn c_str_len(bytes: Seq<u8>) -> int
    decreases bytes.len(),
{
    if bytes.len() == 0 || bytes[0] == 0 {
        0
    } else {
        1 + c_str_len(bytes.drop_first())
    }
}

/// The bytes of the C string that starts at `bytes[0]`, without its NUL.
pub open spec fn c_str_content(bytes: Seq<u8>) -> Seq<u8> {
    bytes.take(c_str_len(bytes))
}

/// `c_str_len` is the one position before which no byte is NUL and at which
/// the sequence ends or holds a NUL.
pub proof fn lemma_c_str_len(bytes: Seq<u8>, n: int)
    requires
        0 <= n <= bytes.len(),
        nul_free(bytes.take(n)),
        n == bytes.len() || bytes[n] == 0,
    ensures
        c_str_len(bytes) == n,
    decreases bytes.len(),
{
    if bytes.len() == 0 || bytes[0] == 0 {
        if n > 0 {
            assert(bytes.take(n)[0] == bytes[0]);
        }
    } else {
        let rest = bytes.drop_first();
        assert(n > 0);
        assert forall|i: int| 0 <= i < n - 1 implies #[trigger] rest.take(n - 1)[i] != 0 by {
            assert(bytes.take(n)[i + 1] == bytes[i + 1]);
        }
        lemma_c_str_len(rest, n - 1);
    }
}

proof fn lemma_width_1_nonzero(c: u32)
    by (bit_vector)
    requires
        c != 0,
        c <= 0x7F,
    ensures
        (c & 0x7F) as u8 != 0,
{
}

proof fn lemma_or_high_bit_nonzero(x: u8)
    by (bit_vector)
    ensures
        0xC0u8 | x != 0,
        0xE0u8 | x != 0,
        0xF0u8 | x != 0,
        0x80u8 | x != 0,
{
}

proof fn lemma_width_1_zero(c: u32)
    by (bit_vector)
    requires
        c == 0,
    ensures
        (c & 0x7F) as u8 == 0,
{
}

/// The encoding of a scalar holds a zero byte only if the scalar is zero.
proof fn lemma_encode_scalar_nul(c: u32)
    requires
        is_scalar(c),
    ensures
        c != 0 ==> nul_free(encode_scalar(c)),
        c == 0 ==> encode_scalar(c) == seq![0u8],
        encode_scalar(c).len() >= 1,
{
    if c == 0 {
        lemma_width_1_zero(c);
    } else if has_width_1_encoding(c) {
        lemma_width_1_nonzero(c);
    } else if has_width_2_encoding(c) {
        lemma_or_high_bit_nonzero(((c >> 6) & 0x1F) as u8);
        lemma_or_high_bit_nonzero((c & 0x3F) as u8);
    } else if has_width_3_encoding(c) {
        lemma_or_high_bit_nonzero(((c >> 12) & 0x0F) as u8);
        lemma_or_high_bit_nonzero(((c >> 6) & 0x3F) as u8);
        lemma_or_high_bit_nonzero((c & 0x3F) as u8);
    } else {
        lemma_or_high_bit_nonzero(((c >> 18) & 0x7) as u8);
        lemma_or_high_bit_nonzero(((c >> 12) & 0x3F) as u8);
        lemma_or_high_bit_nonzero(((c >> 6) & 0x3F) as u8);
        lemma_or_high_bit_nonzero((c & 0x3F) as u8);
    }
}

/// A string's UTF-8 encoding holds a zero byte exactly when the string holds
/// the NUL character.
pub proof fn lemma_encode_utf8_nul(chars: Seq<char>)
    ensures
        nul_free(encode_utf8(chars)) <==> nul_free_chars(chars),
    decreases chars.len(),
{
    if chars.len() == 0 {
    } else {
        let head = encode_scalar(chars[0] as u32);
        let rest = chars.drop_first();
        let tail = encode_utf8(rest);
        char_is_scalar(chars[0]);
        lemma_encode_scalar_nul(chars[0] as u32);
        lemma_encode_utf8_nul(rest);
        assert(encode_utf8(chars) == head + tail);
        assert((chars[0] as u32 == 0) <==> chars[0] == '\0') by {
            if chars[0] as u32 == 0 {
                char_u32_cast(chars[0], 0u32);
            }
        }
        if nul_free_chars(chars) {
            assert forall|i: int| 0 <= i < rest.len() implies #[trigger] rest[i] != '\0' by {
                assert(rest[i] == chars[i + 1]);
            }
            assert forall|i: int| 0 <= i < (head + tail).len() implies #[trigger] (head + tail)[i]
                != 0 by {
                if i >= head.len() {
                    assert((head + tail)[i] == tail[i - head.len()]);
                }
            }
        }
        if nul_free(head + tail) {
            assert forall|i: int| 0 <= i < tail.len() implies #[trigger] tail[i] != 0 by {
                assert((head + tail)[i + head.len()] == tail[i]);
            }
            if chars[0] == '\0' {
                assert((head + tail)[0] == 0);
            }
            assert forall|i: int| 0 <= i < chars.len() implies #[trigger] chars[i] != '\0' by {
                if i > 0 {
                    assert(chars[i] == rest[i - 1]);
                }
            }
        }
    }
}

/// Whether the string holds a NUL character, which no C string can carry.
pub fn contains_nul(data: &str) -> (b: bool)
    ensures
        b <==> !nul_free_chars(data@),
{
    let bytes = data.as_bytes();
    proof {
        lemma_encode_utf8_nul(data@);
    }
    let mut i: usize = 0;
    while i < bytes.len()
        invariant
            i <= bytes@.len(),
            bytes@ == encode_utf8(data@),
            nul_free(bytes@) <==> nul_free_chars(data@),
            forall|j: int| 0 <= j < i ==> bytes@[j] != 0,
        decreases bytes@.len() - i,
    {
        if bytes[i] == 0 {
            assert(bytes@[i as int] == 0);
            return true;
        }
        i += 1;
    }
    false
}

/// A NUL-terminated byte string, owned for as long as the call that it is
/// marshaled for.
#[derive(Debug, PartialEq, Eq)]
pub struct RawString {
    bytes: Vec<u8>,
}

impl Clone for RawString {
    fn clone(&self) -> (s: Self)
        ensures
            s@ == self@,
    {
        proof {
            use_type_invariant(self);
        }
        let bytes = self.bytes.clone();
        assert(bytes@ =~= self.bytes@);
        RawString { bytes }
    }
}

impl View for RawString {
    type V = Seq<u8>;

    /// The bytes before the terminating NUL.
    closed spec fn view(&self) -> Seq<u8> {
        self.bytes@.drop_last()
    }
}

impl RawString {
    #[verifier::type_invariant]
    spec fn terminated(&self) -> bool {
        &&& self.bytes@.len() > 0
        &&& self.bytes@.last() == 0
        &&& nul_free(self.bytes@.drop_last())
    }

    /// Reads the C string that starts at `data[0]`. Where `data` holds no NUL,
    /// all of it is taken.
    pub fn from_bytes(data: &[u8]) -> (s: RawString)
        ensures
            s@ == c_str_content(data@),
    {
        let mut bytes: Vec<u8> = Vec::new();
        let mut i: usize = 0;
        while i < data.len() && data[i] != 0
            invariant
                i <= data@.len(),
                bytes@ == data@.take(i as int),
                nul_free(bytes@),
            decreases data@.len() - i,
        {
            bytes.push(data[i]);
            proof {
                assert(bytes@ =~= data@.take(i + 1));
            }
            i += 1;
        }
        proof {
            lemma_c_str_len(data@, i as int);
        }
        let ghost content = bytes@;
        bytes.push(0);
        proof {
            assert(bytes@.drop_last() =~= content);
        }
        RawString { bytes }
    }

    /// The bytes of the string, the terminating NUL included.
    pub fn as_bytes_with_nul(&self) -> (b: &[u8])
        ensures
            b@ == self@.push(0),
            c_str_content(b@) == self@,
            nul_free(self@),
    {
        proof {
            use_type_invariant(self);
            assert(self.bytes@ =~= self@.push(0));
            assert(self@.push(0).take(self@.len() as int) =~= self@);
            lemma_c_str_len(self.bytes@, self@.len() as int);
        }
        self.bytes.as_slice()
    }

    /// The bytes of the string without the terminating NUL.
    pub fn to_bytes(&self) -> (b: Vec<u8>)
        ensures
            b@ == self@,
    {
        proof {
            use_type_invariant(self);
        }
        let n = self.bytes.len() - 1;
        let b = slice_to_vec(slice_subrange(self.bytes.as_slice(), 0, n));
        assert(b@ =~= self@);
        b
    }

    /// The string that the bytes encode, with each malformed sequence
    /// replaced by U+FFFD.
    pub fn to_string_lossy(&self) -> (s: String)
        ensures
            s@ == decode_lossy(self@),
    {
        proof {
            use_type_invariant(self);
        }
        let n = self.bytes.len() - 1;
        let content = slice_subrange(self.bytes.as_slice(), 0, n);
        assert(content@ =~= self@);
        from_utf8_lossy(content)
    }
}

/// What [`String::from_utf8_lossy`] makes of a byte sequence.
pub uninterp spec fn utf8_lossy(bytes: Seq<u8>) -> Seq<char>;

/// The text that a byte string from the other side is read as: the decoding
/// of valid UTF-8, and the lossy reading of anything else.
pub open spec fn decode_lossy(bytes: Seq<u8>) -> Seq<char> {
    if valid_utf8(bytes) {
        decode_utf8(bytes)
    } else {
        utf8_lossy(bytes)
    }
}

/// Calls [`String::from_utf8_lossy`] and takes ownership of what it returns.
/// The standard library documents that valid UTF-8 comes back unchanged, that
/// is, decoded; what becomes of other input is only given a name here.
#[verifier::external_body]
fn from_utf8_lossy(bytes: &[u8]) -> (s: String)
    ensures
        s@ == utf8_lossy(bytes@),
        valid_utf8(bytes@) ==> s@ == decode_utf8(bytes@),
{
    String::from_utf8_lossy(bytes).into_owned()
}

/// Marshals a string for the boundary: its UTF-8 bytes and a terminating NUL.
pub fn convert_string(data: &str) -> (s: RawString)
    requires
        nul_free_chars(data@),
    ensures
        s@ == encode_utf8(data@),
{
    let mut bytes = data.as_bytes_vec();
    let ghost content = bytes@;
    proof {
        lemma_encode_utf8_nul(data@);
    }
    bytes.push(0);
    proof {
        assert(bytes@.drop_last() =~= content);
    }
    RawString { bytes }
}

/// A string that was marshaled with [`convert_string`] reads back unchanged.
pub proof fn lemma_string_round_trip(chars: Seq<char>)
    requires
        nul_free_chars(chars),
    ensures
        c_str_content(encode_utf8(chars).push(0)) == encode_utf8(chars),
        decode_lossy(encode_utf8(chars)) == chars,
{
    let bytes = encode_utf8(chars);
    lemma_encode_utf8_nul(chars);
    assert(bytes.push(0).take(bytes.len() as int) =~= bytes);
    lemma_c_str_len(bytes.push(0), bytes.len() as int);
    encode_utf8_valid_utf8(chars);
    encode_utf8_decode_utf8(chars);
}

/// An artifact identity in boundary form.
#[derive(Clone, Debug, PartialEq, Eq)]
pub struct RawArtifactId {
    pub runtime_id: u32,
    pub name: RawString,
}

/// Mathematical content of a [`RawArtifactId`].
pub struct RawArtifactIdView {
    pub runtime_id: u32,
    pub name: Seq<u8>,
}

impl View for RawArtifactId {
    type V = RawArtifactIdView;

    open spec fn view(&self) -> RawArtifactIdView {
        RawArtifactIdView { runtime_id: self.runtime_id, name: self.name@ }
    }
}

impl ArtifactIdView {
    /// Whether the identity can be marshaled: a C string carries no NUL.
    pub open spec fn marshalable(self) -> bool {
        nul_free_chars(self.name)
    }

    /// The boundary form of the identity.
    pub open spec fn marshal(self) -> RawArtifactIdView {
        RawArtifactIdView { runtime_id: self.runtime_id, name: encode_utf8(self.name) }
    }
}

impl RawArtifactIdView {
    /// The identity that the boundary form is read as.
    pub open spec fn unmarshal(self) -> ArtifactIdView {
        ArtifactIdView { runtime_id: self.runtime_id, name: decode_lossy(self.name) }
    }
}

impl RawArtifactId {
    /// Marshals an artifact identity.
    pub fn from_artifact_id(artifact: &ArtifactId) -> (raw: RawArtifactId)
        requires
            artifact@.marshalable(),
        ensures
            raw@ == artifact@.marshal(),
    {
        RawArtifactId { runtime_id: artifact.runtime_id, name: convert_string(artifact.name.as_str()) }
    }
}

impl ArtifactId {
    /// Whether the identity can be marshaled.
    pub fn is_marshalable(&self) -> (b: bool)
        ensures
            b <==> self@.marshalable(),
    {
        !contains_nul(self.name.as_str())
    }

    /// Reads an artifact identity that came over the boundary.
    pub fn from_raw(raw: &RawArtifactId) -> (artifact: ArtifactId)
        ensures
            artifact@ == raw@.unmarshal(),
    {
        ArtifactId { runtime_id: raw.runtime_id, name: raw.name.to_string_lossy() }
    }
}

/// An artifact identity survives the boundary: what is read back from its
/// marshaled form is the identity itself.
pub proof fn lemma_artifact_id_round_trip(artifact: ArtifactIdView)
    requires
        artifact.marshalable(),
    ensures
        artifact.marshal().unmarshal() == artifact,
{
    lemma_string_round_trip(artifact.name);
}

/// An instance specification in boundary form.
#[derive(Clone, Debug, PartialEq, Eq)]
pub struct RawInstanceSpec {
    pub id: u32,
    pub name: RawString,
    pub artifact: RawArtifactId,
}

/// Mathematical content of a [`RawInstanceSpec`].
pub struct RawInstanceSpecView {
    pub id: u32,
    pub name: Seq<u8>,
    pub artifact: RawArtifactIdView,
}

impl View for RawInstanceSpec {
    type V = RawInstanceSpecView;

    open spec fn view(&self) -> RawInstanceSpecView {
        RawInstanceSpecView { id: self.id, name: self.name@, artifact: self.artifact@ }
    }
}

impl InstanceSpecView {
    /// Whether the specification can be marshaled.
    pub open spec fn marshalable(self) -> bool {
        nul_free_chars(self.name) && self.artifact.marshalable()
    }

    /// The boundary form of the specification.
    pub open spec fn marshal(self) -> RawInstanceSpecView {
        RawInstanceSpecView {
            id: self.id,
            name: encode_utf8(self.name),
            artifact: self.artifact.marshal(),
        }
    }
}

impl RawInstanceSpecView {
    /// The specification that the boundary form is read as.
    pub open spec fn unmarshal(self) -> InstanceSpecView {
        InstanceSpecView {
            id: self.id,
            name: decode_lossy(self.name),
            artifact: self.artifact.unmarshal(),
        }
    }
}

impl RawInstanceSpec {
    /// Marshals an instance specification.
    pub fn from_instance_spec(instance_spec: &InstanceSpec) -> (raw: RawInstanceSpec)
        requires
            instance_spec@.marshalable(),
        ensures
            raw@ == instance_spec@.marshal(),
    {
        RawInstanceSpec {
            id: instance_spec.id,
            name: convert_string(instance_spec.name.as_str()),
            artifact: RawArtifactId::from_artifact_id(&instance_spec.artifact),
        }
    }
}

impl InstanceSpec {
    /// Whether the specification can be marshaled.
    pub fn is_marshalable(&self) -> (b: bool)
        ensures
            b <==> self@.marshalable(),
    {
        !contains_nul(self.name.as_str()) && self.artifact.is_marshalable()
    }

    /// Reads an instance specification that came over the boundary.
    pub fn from_raw(raw: &RawInstanceSpec) -> (instance_spec: InstanceSpec)
        ensures
            instance_spec@ == raw@.unmarshal(),
    {
        InstanceSpec {
            id: raw.id,
            name: raw.name.to_string_lossy(),
            artifact: ArtifactId::from_raw(&raw.artifact),
        }
    }
}

/// An instance specification survives the boundary.
pub proof fn lemma_instance_spec_round_trip(instance_spec: InstanceSpecView)
    requires
        instance_spec.marshalable(),
    ensures
        instance_spec.marshal().unmarshal() == instance_spec,
{
    lemma_string_round_trip(instance_spec.name);
    lemma_artifact_id_round_trip(instance_spec.artifact);
}

/// An instance descriptor in boundary form.
#[derive(Clone, Debug, PartialEq, Eq)]
pub struct RawInstanceDescriptor {
    pub id: u32,
    pub name: RawString,
}

/// Mathematical content of a [`RawInstanceDescriptor`].
pub struct RawInstanceDescriptorView {
    pub id: u32,
    pub name: Seq<u8>,
}

impl View for RawInstanceDescriptor {
    type V = RawInstanceDescriptorView;

    open spec fn view(&self) -> RawInstanceDescriptorView {
        RawInstanceDescriptorView { id: self.id, name: self.name@ }
    }
}

impl InstanceDescriptorView {
    /// Whether the descriptor can be marshaled.
    pub open spec fn marshalable(self) -> bool {
        nul_free_chars(self.name)
    }

    /// The boundary form of the descriptor.
    pub open spec fn marshal(self) -> RawInstanceDescriptorView {
        RawInstanceDescriptorView { id: self.id, name: encode_utf8(self.name) }
    }
}

impl RawInstanceDescriptor {
    /// Marshals an instance descriptor.
    pub fn from_instance_descriptor(descriptor: &InstanceDescriptor) -> (raw:
        RawInstanceDescriptor)
        requires
            descriptor@.marshalable(),
        ensures
            raw@ == descriptor@.marshal(),
    {
        RawInstanceDescriptor { id: descriptor.id, name: convert_string(descriptor.name.as_str()) }
    }
}

impl InstanceDescriptor {
    /// Whether the descriptor can be marshaled.
    pub fn is_marshalable(&self) -> (b: bool)
        ensures
            b <==> self@.marshalable(),
    {
        !contains_nul(self.name.as_str())
    }
}

/// Tag of a caller that is a transaction.
pub const CALLER_TRANSACTION: u32 = 0;

/// Tag of a caller that is a service instance.
pub const CALLER_SERVICE: u32 = 1;

/// A caller in boundary form. `hash` and `author` are set for a transaction
/// and null otherwise; `instance_id` is set for a service and zero otherwise.
#[derive(Clone, Debug, PartialEq, Eq)]
pub struct RawCaller {
    pub tx_type: u32,
    pub hash: Option<Vec<u8>>,
    pub author: Option<Vec<u8>>,
    pub instance_id: u32,
}

/// Mathematical content of a [`RawCaller`].
pub struct RawCallerView {
    pub tx_type: u32,
    pub hash: Option<Seq<u8>>,
    pub author: Option<Seq<u8>>,
    pub instance_id: u32,
}

/// The bytes behind a pointer that may be null.
pub open spec fn view_bytes(data: Option<Vec<u8>>) -> Option<Seq<u8>> {
    match data {
        Some(bytes) => Some(bytes@),
        None => None,
    }
}

impl View for RawCaller {
    type V = RawCallerView;

    open spec fn view(&self) -> RawCallerView {
        RawCallerView {
            tx_type: self.tx_type,
            hash: view_bytes(self.hash),
            author: view_bytes(self.author),
            instance_id: self.instance_id,
        }
    }
}

impl Caller {
    /// The boundary form of the caller.
    pub open spec fn marshal(self) -> RawCallerView {
        match self {
            Caller::Transaction { hash, author } => RawCallerView {
                tx_type: 0,
                hash: Some(hash@),
                author: Some(author@),
                instance_id: 0,
            },
            Caller::Service { instance_id } => RawCallerView {
                tx_type: 1,
                hash: None,
                author: None,
                instance_id,
            },
        }
    }
}

impl RawCaller {
    /// Marshals a caller.
    pub fn from_caller(caller: &Caller) -> (raw: RawCaller)
        ensures
            raw@ == caller.marshal(),
    {
        match caller {
            Caller::Transaction { hash, author } => RawCaller {
                tx_type: CALLER_TRANSACTION,
                hash: Some(hash.to_vec()),
                author: Some(author.to_vec()),
                instance_id: 0,
            },
            Caller::Service { instance_id } => RawCaller {
                tx_type: CALLER_SERVICE,
                hash: None,
                author: None,
                instance_id: *instance_id,
            },
        }
    }
}

/// Call information in boundary form.
#[derive(Clone, Copy, Debug, PartialEq, Eq, Structural)]
pub struct RawCallInfo {
    pub instance_id: u32,
    pub method_id: u32,
}

impl RawCallInfo {
    /// Marshals call information.
    pub fn from_call_info(call_info: &CallInfo) -> (raw: RawCallInfo)
        ensures
            raw.instance_id == call_info.instance_id,
            raw.method_id == call_info.method_id,
    {
        RawCallInfo { instance_id: call_info.instance_id, method_id: call_info.method_id }
    }
}

impl CallInfo {
    /// Reads call information that came over the boundary.
    pub fn from_raw(raw: RawCallInfo) -> (call_info: CallInfo)
        ensures
            call_info.instance_id == raw.instance_id,
            call_info.method_id == raw.method_id,
    {
        CallInfo { instance_id: raw.instance_id, method_id: raw.method_id }
    }
}

/// The token through which the external runtime reaches the host's storage.
/// `F` is the host's handle of a transactional view, `S` that of a snapshot.
#[derive(Debug)]
pub enum RawIndexAccess<F, S> {
    /// A transactional view: reads and writes, for the length of one call.
    Fork(F),
    /// A point-in-time view: reads only.
    Snapshot(S),
    /// Whatever snapshot is current: reads only.
    SnapshotToken,
}

/// What a read goes to.
#[derive(Debug)]
pub enum ReadAccess<'a, F, S> {
    /// The transactional view of the token.
    Fork(&'a F),
    /// The snapshot of the token.
    Snapshot(&'a S),
    /// The current snapshot, which the caller looks up.
    CurrentSnapshot,
}

impl<F, S> RawIndexAccess<F, S> {
    /// Whether the token allows writes.
    pub open spec fn mutable(&self) -> bool {
        self is Fork
    }

    /// Whether the token allows writes.
    pub fn is_mutable(&self) -> (b: bool)
        ensures
            b == self.mutable(),
    {
        match self {
            RawIndexAccess::Fork(_) => true,
            _ => false,
        }
    }

    /// What the token answers to a write: nothing, or the breach that a
    /// write through it is.
    pub open spec fn write_verdict(&self) -> Option<crate::errors::ProtocolViolation> {
        if self.mutable() {
            None
        } else {
            Some(crate::errors::ProtocolViolation::ReadOnlyAccess)
        }
    }

    /// The view to write to. Only a token with mutable access has one: to
    /// ask another token for it is a breach of the protocol.
    pub fn writable(&self) -> (r: Result<&F, crate::errors::ProtocolViolation>)
        ensures
            match self.write_verdict() {
                None => r matches Ok(fork) && *self == RawIndexAccess::<F, S>::Fork(*fork),
                Some(violation) => r matches Err(e) && e == violation,
            },
    {
        match self {
            RawIndexAccess::Fork(fork) => Ok(fork),
            _ => Err(crate::errors::ProtocolViolation::ReadOnlyAccess),
        }
    }

    /// The transactional view of a token with mutable access.
    pub fn fork(&self) -> (fork: &F)
        requires
            self.mutable(),
        ensures
            *self == RawIndexAccess::<F, S>::Fork(*fork),
    {
        match self {
            RawIndexAccess::Fork(fork) => fork,
            _ => vstd::pervasive::unreached(),
        }
    }

    /// The view to read from. Every token has one.
    pub fn readable(&self) -> (r: ReadAccess<'_, F, S>)
        ensures
            match *self {
                RawIndexAccess::Fork(fork) => r == ReadAccess::<F, S>::Fork(&fork),
                RawIndexAccess::Snapshot(snapshot) => r == ReadAccess::<F, S>::Snapshot(&snapshot),
                RawIndexAccess::SnapshotToken => r == ReadAccess::<F, S>::CurrentSnapshot,
            },
    {
        match self {
            RawIndexAccess::Fork(fork) => ReadAccess::Fork(fork),
            RawIndexAccess::Snapshot(snapshot) => ReadAccess::Snapshot(snapshot),
            RawIndexAccess::SnapshotToken => ReadAccess::CurrentSnapshot,
        }
    }
}

/// A hash in boundary form: the bytes that its pointer refers to, of which
/// the first 32 are the hash.
#[derive(Clone, Debug, PartialEq, Eq)]
pub struct RawHash {
    pub data: Vec<u8>,
}

impl crate::host::Hash {
    /// Reads the hash that a raw hash points at, if 32 bytes are there.
    pub fn from_raw(raw: &RawHash) -> (h: Option<crate::host::Hash>)
        ensures
            h is Some <==> raw.data@.len() >= 32,
            h matches Some(hash) ==> hash@ == raw.data@.take(32),
    {
        if raw.data.len() >= 32 {
            let head = slice_subrange(raw.data.as_slice(), 0, 32);
            assert(head@ =~= raw.data@.take(32));
            crate::host::Hash::from_slice(head)
        } else {
            None
        }
    }
}

/// The first `count` raw hashes of `list` can be read.
pub open spec fn group_readable(list: Seq<RawHash>, count: u32) -> bool {
    &&& count <= list.len()
    &&& forall|j: int| 0 <= j < count ==> (#[trigger] list[j]).data@.len() >= 32
}

/// The hashes that the first `count` raw hashes of `list` point at.
pub open spec fn group_hashes(list: Seq<RawHash>, count: u32) -> Seq<Seq<u8>> {
    Seq::new(count as nat, |j: int| list[j].data@.take(32))
}

/// The hashes of a list, each as its bytes.
pub open spec fn hashes_view(hashes: Seq<crate::host::Hash>) -> Seq<Seq<u8>> {
    Seq::new(hashes.len(), |j: int| hashes[j]@)
}

/// Reads the first `count` hashes of a list of raw hashes.
pub fn read_hashes(list: &Vec<RawHash>, count: u32) -> (r: Option<Vec<crate::host::Hash>>)
    ensures
        r is Some <==> group_readable(list@, count),
        r matches Some(hashes) ==> hashes_view(hashes@) == group_hashes(list@, count),
{
    if count as usize > list.len() {
        return None;
    }
    let mut hashes: Vec<crate::host::Hash> = Vec::new();
    let mut j: usize = 0;
    while j < count as usize
        invariant
            j <= count <= list@.len(),
            hashes@.len() == j,
            forall|k: int| 0 <= k < j ==> (#[trigger] list@[k]).data@.len() >= 32,
            forall|k: int| 0 <= k < j ==> (#[trigger] hashes@[k])@ == list@[k].data@.take(32),
        decreases count - j,
    {
        match crate::host::Hash::from_raw(&list[j]) {
            Some(hash) => hashes.push(hash),
            None => {
                assert(list@[j as int].data@.len() < 32);
                return None;
            },
        }
        j += 1;
    }
    assert(hashes_view(hashes@) =~= group_hashes(list@, count));
    Some(hashes)
}

/// State hashes in boundary form. `hashes` holds `length` lists: that of the
/// runtime first, then one for each service instance; `hashes_length` holds
/// the length of each list, and `instance_ids` the identifier of each
/// instance, of which there are `length - 1`.
#[derive(Clone, Debug, PartialEq, Eq)]
pub struct RawStateHashAggregator {
    pub hashes: Vec<Vec<RawHash>>,
    pub hashes_length: Vec<u32>,
    pub instance_ids: Vec<u32>,
    pub length: u32,
}

/// Mathematical content of a [`StateHashAggregator`].
pub struct StateHashAggregatorView {
    pub runtime: Seq<Seq<u8>>,
    pub instances: Seq<(u32, Seq<Seq<u8>>)>,
}

impl View for StateHashAggregator {
    type V = StateHashAggregatorView;

    open spec fn view(&self) -> StateHashAggregatorView {
        StateHashAggregatorView {
            runtime: hashes_view(self.runtime@),
            instances: Seq::new(
                self.instances@.len(),
                |i: int| (self.instances@[i].0, hashes_view(self.instances@[i].1@)),
            ),
        }
    }
}

impl RawStateHashAggregator {
    /// The raw lists of hashes, each as a sequence.
    pub open spec fn lists(&self) -> Seq<Seq<RawHash>> {
        Seq::new(self.hashes@.len(), |i: int| self.hashes@[i]@)
    }

    /// Every list, length and identifier that `length` announces is there
    /// and can be read.
    pub open spec fn readable(&self) -> bool {
        &&& self.length >= 1
        &&& self.hashes@.len() >= self.length
        &&& self.hashes_length@.len() >= self.length
        &&& self.instance_ids@.len() >= self.length - 1
        &&& forall|i: int|
            0 <= i < self.length ==> group_readable(
                #[trigger] self.lists()[i],
                self.hashes_length@[i],
            )
    }

    /// The state hashes that the boundary form holds.
    pub open spec fn aggregate(&self) -> StateHashAggregatorView {
        StateHashAggregatorView {
            runtime: group_hashes(self.lists()[0], self.hashes_length@[0]),
            instances: Seq::new(
                (self.length - 1) as nat,
                |i: int|
                    (
                        self.instance_ids@[i],
                        group_hashes(self.lists()[i + 1], self.hashes_length@[i + 1]),
                    ),
            ),
        }
    }
}

impl StateHashAggregator {
    /// No hashes at all: what the runtime contributes when it has nothing to
    /// say.
    pub fn empty() -> (aggregator: StateHashAggregator)
        ensures
            aggregator@.runtime.len() == 0,
            aggregator@.instances.len() == 0,
    {
        StateHashAggregator { runtime: Vec::new(), instances: Vec::new() }
    }

    /// Reads the state hashes that came over the boundary, or nothing where
    /// the boundary form announces more than it holds.
    pub fn from_raw(raw: &RawStateHashAggregator) -> (r: Option<StateHashAggregator>)
        ensures
            r is Some <==> raw.readable(),
            r matches Some(aggregator) ==> aggregator@ == raw.aggregate(),
    {
        if raw.length < 1 {
            return None;
        }
        let overall = raw.length as usize;
        if raw.hashes.len() < overall || raw.hashes_length.len() < overall || raw.instance_ids.len()
            < overall - 1 {
            return None;
        }
        let runtime = match read_hashes(&raw.hashes[0], raw.hashes_length[0]) {
            Some(hashes) => hashes,
            None => {
                assert(raw.lists()[0] == raw.hashes@[0]@);
                return None;
            },
        };
        assert(raw.lists()[0] == raw.hashes@[0]@);
        let mut instances: Vec<(u32, Vec<crate::host::Hash>)> = Vec::new();
        let mut i: usize = 0;
        while i < overall - 1
            invariant
                overall == raw.length,
                1 <= overall,
                i <= overall - 1,
                raw.hashes@.len() >= overall,
                raw.hashes_length@.len() >= overall,
                raw.instance_ids@.len() >= overall - 1,
                instances@.len() == i,
                group_readable(raw.lists()[0], raw.hashes_length@[0]),
                forall|k: int|
                    1 <= k < i + 1 ==> group_readable(
                        #[trigger] raw.lists()[k],
                        raw.hashes_length@[k],
                    ),
                forall|k: int|
                    0 <= k < i ==> (#[trigger] instances@[k]).0 == raw.instance_ids@[k]
                        && hashes_view(instances@[k].1@) == group_hashes(
                        raw.lists()[k + 1],
                        raw.hashes_length@[k + 1],
                    ),
            decreases overall - 1 - i,
        {
            assert(raw.lists()[i + 1] == raw.hashes@[i + 1]@);
            match read_hashes(&raw.hashes[i + 1], raw.hashes_length[i + 1]) {
                Some(hashes) => instances.push((raw.instance_ids[i], hashes)),
                None => {
                    return None;
                },
            }
            i += 1;
        }
        let aggregator = StateHashAggregator { runtime, instances };
        proof {
            assert forall|k: int| 0 <= k < raw.length implies group_readable(
                #[trigger] raw.lists()[k],
                raw.hashes_length@[k],
            ) by {
                if k == 0 {
                } else {
                    assert(1 <= k < i + 1);
                }
            }
            assert(aggregator@.instances =~= raw.aggregate().instances);
        }
        Some(aggregator)
    }
}

/// One protobuf source file in boundary form.
#[derive(Clone, Debug, PartialEq, Eq)]
pub struct RawProtoSourceFile {
    pub name: RawString,
    pub content: RawString,
}

/// The protobuf sources of an artifact in boundary form: `files_amount`
/// files, at the start of `files`.
#[derive(Clone, Debug, PartialEq, Eq)]
pub struct RawArtifactProtobufSpec {
    pub files: Vec<RawProtoSourceFile>,
    pub files_amount: u32,
}

/// Mathematical content of a [`ProtoSourceFile`]: its name and its content.
pub type ProtoSourceFileView = (Seq<char>, Seq<char>);

impl View for ProtoSourceFile {
    type V = ProtoSourceFileView;

    open spec fn view(&self) -> ProtoSourceFileView {
        (self.name@, self.content@)
    }
}

impl View for ArtifactProtobufSpec {
    type V = Seq<ProtoSourceFileView>;

    open spec fn view(&self) -> Seq<ProtoSourceFileView> {
        Seq::new(self.sources@.len(), |i: int| self.sources@[i]@)
    }
}

impl RawArtifactProtobufSpec {
    /// All the files that `files_amount` announces are there.
    pub open spec fn readable(&self) -> bool {
        self.files_amount <= self.files@.len()
    }

    /// The sources that the boundary form holds.
    pub open spec fn sources(&self) -> Seq<ProtoSourceFileView> {
        Seq::new(
            self.files_amount as nat,
            |i: int| (decode_lossy(self.files@[i].name@), decode_lossy(self.files@[i].content@)),
        )
    }
}

impl ArtifactProtobufSpec {
    /// Reads the protobuf sources that came over the boundary, or nothing
    /// where the boundary form announces more files than it holds.
    pub fn from_raw(raw: &RawArtifactProtobufSpec) -> (r: Option<ArtifactProtobufSpec>)
        ensures
            r is Some <==> raw.readable(),
            r matches Some(spec) ==> spec@ == raw.sources(),
    {
        let amount = raw.files_amount as usize;
        if amount > raw.files.len() {
            return None;
        }
        let mut sources: Vec<ProtoSourceFile> = Vec::new();
        let mut i: usize = 0;
        while i < amount
            invariant
                i <= amount <= raw.files@.len(),
                amount == raw.files_amount,
                sources@.len() == i,
                forall|k: int|
                    0 <= k < i ==> (#[trigger] sources@[k])@ == (
                        decode_lossy(raw.files@[k].name@),
                        decode_lossy(raw.files@[k].content@),
                    ),
            decreases amount - i,
        {
            let file = &raw.files[i];
            sources.push(
                ProtoSourceFile {
                    name: file.name.to_string_lossy(),
                    content: file.content.to_string_lossy(),
                },
            );
            i += 1;
        }
        let spec = ArtifactProtobufSpec { sources };
        assert(spec@ =~= raw.sources());
        Some(spec)
    }
}

/// An execution context in boundary form.
#[derive(Debug)]
pub struct RawExecutionContext<F, S> {
    pub access: RawIndexAccess<F, S>,
    pub caller: RawCaller,
    pub interface_name: RawString,
}

impl<F, S> RawExecutionContext<F, S> {
    /// Marshals an execution context: mutable access to the context's
    /// transactional view, the caller, and the name of the interface.
    pub fn from_execution_context(context: ExecutionContext<F>) -> (raw: RawExecutionContext<F, S>)
        requires
            nul_free_chars(context.interface_name@),
        ensures
            raw.access == RawIndexAccess::<F, S>::Fork(context.fork),
            raw.caller@ == context.caller.marshal(),
            raw.interface_name@ == encode_utf8(context.interface_name@),
    {
        RawExecutionContext {
            access: RawIndexAccess::Fork(context.fork),
            caller: RawCaller::from_caller(&context.caller),
            interface_name: convert_string(context.interface_name.as_str()),
        }
    }
}

/// The outcome of a call in its two-field form: whether it succeeded, and
/// the code of the failure where it did not. The function table reports a
/// single status code instead, in which zero alone means success.
#[derive(Clone, Copy, Debug, PartialEq, Eq, Structural)]
pub struct PythonResult {
    pub success: bool,
    pub error_code: u32,
}

/// The view of `data` that is passed into a call: the bytes and their
/// number. It is valid for the length of the call only.
pub fn into_ptr_and_len(data: &[u8]) -> (view: (&[u8], usize))
    ensures
        view.0@ == data@,
        view.1 == data@.len(),
{
    (data, data.len())
}

} // verus!
