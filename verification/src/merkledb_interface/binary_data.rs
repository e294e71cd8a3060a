//! The binary buffer protocol.
//!
//! Bytes cross the boundary as a view: where they are and how many. Data
//! that goes in is viewed in place and must be copied out before the call
//! returns. Data that comes out is written into a buffer that the receiving
//! side allocated for it, of exactly the length asked for. A view that
//! points nowhere, or that has length zero, stands for "no value".

use vstd::prelude::*;
use vstd::slice::*;

verus! {

/// A view of a byte range: the bytes that `data` points at, of which the
/// first `data_len` are meant. `None` is the null pointer.
#[derive(Clone, Debug, PartialEq, Eq)]
pub struct BinaryData {
    pub data: Option<Vec<u8>>,
    pub data_len: u64,
}

impl View for BinaryData {
    type V = Seq<u8>;

    /// The bytes that the view denotes; none for a null view.
    open spec fn view(&self) -> Seq<u8> {
        match self.data {
            Some(bytes) => bytes@.take(self.data_len as int),
            None => Seq::empty(),
        }
    }
}

impl BinaryData {
    /// The view stays within the bytes it points at.
    pub open spec fn wf(&self) -> bool {
        match self.data {
            Some(bytes) => self.data_len <= bytes@.len(),
            None => true,
        }
    }

    /// The view points at memory and denotes exactly `bytes`, with their
    /// number as its length.
    pub open spec fn views(&self, bytes: Seq<u8>) -> bool {
        &&& self.wf()
        &&& self.data is Some
        &&& self.data_len == bytes.len()
        &&& self@ == bytes
    }

    /// Null or of length zero: such a view carries no value.
    pub open spec fn absent(&self) -> bool {
        self.data is None || self.data_len == 0
    }

    /// The value that the view carries, if any.
    pub open spec fn value(&self) -> Option<Seq<u8>> {
        if self.absent() {
            None
        } else {
            Some(self@)
        }
    }

    /// The "no value" sentinel: a null pointer with zero length.
    pub fn null() -> (view: BinaryData)
        ensures
            view.data is None,
            view.data_len == 0,
            view.absent(),
            view.wf(),
    {
        BinaryData { data: None, data_len: 0 }
    }

    /// Whether the view carries no value.
    pub fn is_absent(&self) -> (b: bool)
        ensures
            b == self.absent(),
    {
        self.data.is_none() || self.data_len == 0
    }

    /// A view of all of `data`, for passing it into a call.
    pub fn from_slice(data: &[u8]) -> (view: BinaryData)
        ensures
            view.views(data@),
    {
        let bytes = slice_to_vec(data);
        let view = BinaryData { data: Some(bytes), data_len: data.len() as u64 };
        assert(view@ =~= data@);
        view
    }

    /// Copies the viewed bytes into memory of the caller's own.
    pub fn to_vec(&self) -> (bytes: Vec<u8>)
        requires
            self.wf(),
        ensures
            bytes@ == self@,
    {
        match &self.data {
            Some(data) => {
                let available = data.len();
                assert(self.data_len <= available);
                let n = self.data_len as usize;
                let bytes = slice_to_vec(slice_subrange(data.as_slice(), 0, n));
                assert(bytes@ =~= self@);
                bytes
            },
            None => Vec::new(),
        }
    }

    /// The value that the view carries, copied out, or `None` for a view that
    /// carries none.
    pub fn to_value(&self) -> (value: Option<Vec<u8>>)
        requires
            self.wf(),
        ensures
            value is Some <==> !self.absent(),
            value matches Some(bytes) ==> bytes@ == self@,
    {
        if self.is_absent() {
            None
        } else {
            Some(self.to_vec())
        }
    }

    /// The length of the buffer that must be allocated to hand `value` out:
    /// none for an absent value, which travels as the null view.
    pub fn requested_len(value: &Option<Vec<u8>>) -> (len: Option<u64>)
        ensures
            len is Some <==> value is Some,
            value matches Some(bytes) ==> len == Some(bytes@.len() as u64),
    {
        match value {
            Some(bytes) => Some(bytes.len() as u64),
            None => None,
        }
    }

    /// Hands `data` out through `buffer`, which the receiving side allocated
    /// with exactly the length of `data`: the data is written into the
    /// buffer, and the view of the buffer is returned.
    pub fn write(buffer: Vec<u8>, data: &[u8]) -> (view: BinaryData)
        requires
            buffer@.len() == data@.len(),
        ensures
            view.wf(),
            view@ == data@,
            view.data_len == data@.len(),
            view.data matches Some(bytes) && bytes@ == data@,
    {
        let mut buffer = buffer;
        copy_into(buffer.as_mut_slice(), data);
        let view = BinaryData { data: Some(buffer), data_len: data.len() as u64 };
        assert(view@ =~= data@);
        view
    }

    /// Hands an optional value out: the null view for none, and otherwise the
    /// value written into `buffer`, which was allocated with the length that
    /// [`BinaryData::requested_len`] asked for.
    pub fn write_value(value: &Option<Vec<u8>>, buffer: Option<Vec<u8>>) -> (view: BinaryData)
        requires
            value matches Some(bytes) ==> buffer matches Some(b) && b@.len() == bytes@.len(),
        ensures
            view.wf(),
            value is None ==> view.data is None && view.data_len == 0,
            value matches Some(bytes) ==> view@ == bytes@ && view.data_len == bytes@.len()
                && view.data is Some,
    {
        match value {
            Some(bytes) => {
                match buffer {
                    Some(b) => BinaryData::write(b, bytes.as_slice()),
                    None => BinaryData::null(),
                }
            },
            None => BinaryData::null(),
        }
    }
}

/// Overwrites `buffer` with `data`, byte for byte.
pub fn copy_into(buffer: &mut [u8], data: &[u8])
    requires
        old(buffer)@.len() == data@.len(),
    ensures
        final(buffer)@ == data@,
{
    let mut i: usize = 0;
    while i < data.len()
        invariant
            i <= data@.len(),
            buffer@.len() == data@.len(),
            forall|j: int| 0 <= j < i ==> buffer@[j] == data@[j],
        decreases data@.len() - i,
    {
        buffer[i] = data[i];
        i += 1;
    }
    assert(buffer@ =~= data@);
}

/// Whatever is handed out through a buffer of its own length is read back
/// from the resulting view byte for byte.
pub proof fn lemma_buffer_round_trip(view: BinaryData, data: Seq<u8>)
    requires
        view.data matches Some(bytes) && bytes@ == data,
        view.data_len == data.len(),
    ensures
        view.wf(),
        view@ == data,
        data.len() > 0 ==> view.value() == Some(data),
        data.len() == 0 ==> view.value() is None,
{
    assert(view@ =~= data);
}

} // verus!
