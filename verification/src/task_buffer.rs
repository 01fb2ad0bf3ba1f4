//! The per-frame byte arena: values, slices and strings are appended as
//! bytes, and a `TaskBufferPtr` returned by each append reads them back.
use crate::task_value::{
    decode_seq, decode_vec, encode_seq, encode_slice, lemma_decode_encode_seq, lemma_encode_seq_len,
    TaskValue,
};
use core::marker::PhantomData;
use vstd::bytes::*;
use vstd::prelude::*;
use vstd::string::StringSliceAdditionalSpecFns;
use vstd::utf8::*;

verus! {

/// A view into a `TaskBuffer`: where the bytes of a `T` are stored.
pub struct TaskBufferPtr<T: ?Sized> {
    position: u32,
    size: u32,
    _phantom: PhantomData<T>,
}

impl<T: ?Sized> TaskBufferPtr<T> {
    /// Offset of the first byte.
    pub closed spec fn start(&self) -> nat {
        self.position as nat
    }

    /// Number of bytes.
    pub closed spec fn len(&self) -> nat {
        self.size as nat
    }

    /// Offset of the first byte.
    pub fn offset(&self) -> (r: u32)
        ensures
            r == self.start(),
    {
        self.position
    }

    /// Number of bytes.
    pub fn size(&self) -> (r: u32)
        ensures
            r == self.len(),
    {
        self.size
    }

    fn new(position: u32, size: u32) -> (r: Self)
        ensures
            r.start() == position,
            r.len() == size,
    {
        TaskBufferPtr { position, size, _phantom: PhantomData }
    }
}

impl<T: ?Sized> Clone for TaskBufferPtr<T> {
    fn clone(&self) -> (r: Self)
        ensures
            r == *self,
    {
        TaskBufferPtr { position: self.position, size: self.size, _phantom: PhantomData }
    }
}

impl<T: ?Sized> Copy for TaskBufferPtr<T> {
}

impl<T: ?Sized> TaskValue for TaskBufferPtr<T> {
    open spec fn spec_size() -> nat {
        8
    }

    open spec fn spec_encode(self) -> Seq<u8> {
        spec_u32_to_le_bytes(self.start() as u32) + spec_u32_to_le_bytes(self.len() as u32)
    }

    closed spec fn spec_decode(bytes: Seq<u8>) -> TaskBufferPtr<T> {
        TaskBufferPtr {
            position: spec_u32_from_le_bytes(bytes.subrange(0, 4)),
            size: spec_u32_from_le_bytes(bytes.subrange(4, 8)),
            _phantom: PhantomData,
        }
    }

    proof fn lemma_encode_decode(v: TaskBufferPtr<T>) {
        lemma_auto_spec_u32_to_from_le_bytes();
        let a = spec_u32_to_le_bytes(v.position);
        let b = spec_u32_to_le_bytes(v.size);
        assert((a + b).subrange(0, 4) =~= a);
        assert((a + b).subrange(4, 8) =~= b);
    }

    fn byte_size() -> (n: Option<usize>) {
        Some(8)
    }

    fn encode(&self, out: &mut Vec<u8>) {
        let ghost start = out@;
        let mut a = u32_to_le_bytes(self.position);
        let mut b = u32_to_le_bytes(self.size);
        out.append(&mut a);
        out.append(&mut b);
        assert(out@ =~= start + self.spec_encode());
    }

    fn decode(bytes: &[u8]) -> (v: TaskBufferPtr<T>) {
        let position = u32_from_le_bytes(vstd::slice::slice_subrange(bytes, 0, 4));
        let size = u32_from_le_bytes(vstd::slice::slice_subrange(bytes, 4, 8));
        TaskBufferPtr { position, size, _phantom: PhantomData }
    }
}

/// Whether the bytes that `ptr` designates lie within `bytes`.
pub open spec fn in_bounds<T: ?Sized>(bytes: Seq<u8>, ptr: TaskBufferPtr<T>) -> bool {
    ptr.start() + ptr.len() <= bytes.len()
}

/// The bytes that `ptr` designates in `bytes`.
pub open spec fn bytes_at<T: ?Sized>(bytes: Seq<u8>, ptr: TaskBufferPtr<T>) -> Seq<u8> {
    bytes.subrange(ptr.start() as int, (ptr.start() + ptr.len()) as int)
}

/// Whether `ptr` designates, in `bytes`, the encoding of `v`.
pub open spec fn stores<T: TaskValue>(bytes: Seq<u8>, ptr: TaskBufferPtr<T>, v: T) -> bool {
    &&& in_bounds(bytes, ptr)
    &&& bytes_at(bytes, ptr) == v.spec_encode()
}

/// Calls `std::str::from_utf8`, which std documents as succeeding exactly
/// when the bytes are valid UTF-8, and as then giving a string slice whose
/// bytes are the given ones.
#[verifier::external_body]
fn str_from_utf8<'a>(bytes: &'a [u8]) -> (r: Option<&'a str>)
    ensures
        r is Some <==> valid_utf8(bytes@),
        r matches Some(s) ==> s.spec_bytes() == bytes@,
{
    std::str::from_utf8(bytes).ok()
}

/// Where we store all the intermediate bytes.
pub struct TaskBuffer(Vec<u8>);

impl View for TaskBuffer {
    type V = Seq<u8>;

    closed spec fn view(&self) -> Seq<u8> {
        self.0@
    }
}

impl TaskBuffer {
    /// Creates a new, empty task buffer with the given capacity.
    pub fn with_capacity(capacity: usize) -> (r: Self)
        ensures
            r@ == Seq::<u8>::empty(),
    {
        TaskBuffer(Vec::with_capacity(capacity))
    }

    /// Removes all bytes.
    pub fn clear(&mut self)
        ensures
            final(self)@ == Seq::<u8>::empty(),
    {
        self.0.clear();
    }

    /// Appends the encoding of `value`, and returns where it stands.
    pub fn extend<T: TaskValue>(&mut self, value: &T) -> (ptr: TaskBufferPtr<T>)
        requires
            old(self)@.len() + T::spec_size() <= u32::MAX,
        ensures
            final(self)@ == old(self)@ + value.spec_encode(),
            ptr.start() == old(self)@.len(),
            ptr.len() == T::spec_size(),
            stores(final(self)@, ptr, *value),
    {
        proof {
            T::lemma_encode_decode(*value);
        }
        let start = self.0.len();
        value.encode(&mut self.0);
        let size = self.0.len() - start;
        let ptr = TaskBufferPtr::new(start as u32, size as u32);
        assert(bytes_at(self@, ptr) =~= value.spec_encode());
        ptr
    }

    /// Appends the encodings of all values of `slice`, one after another,
    /// and returns where they stand.
    pub fn extend_from_slice<T: TaskValue>(&mut self, slice: &[T]) -> (ptr: TaskBufferPtr<[T]>)
        requires
            T::spec_size() <= usize::MAX,
            old(self)@.len() + slice@.len() * T::spec_size() <= u32::MAX,
        ensures
            final(self)@ == old(self)@ + encode_seq(slice@),
            ptr.start() == old(self)@.len(),
            ptr.len() == slice@.len() * T::spec_size(),
            bytes_at(final(self)@, ptr) == encode_seq(slice@),
    {
        proof {
            lemma_encode_seq_len(slice@);
        }
        let start = self.0.len();
        encode_slice(slice, &mut self.0);
        let size = self.0.len() - start;
        let ptr = TaskBufferPtr::new(start as u32, size as u32);
        assert(bytes_at(self@, ptr) =~= encode_seq(slice@));
        ptr
    }

    /// Appends the UTF-8 bytes of `value`, and returns where they stand.
    pub fn extend_from_str(&mut self, value: &str) -> (ptr: TaskBufferPtr<str>)
        requires
            old(self)@.len() + value.spec_bytes().len() <= u32::MAX,
        ensures
            final(self)@ == old(self)@ + value.spec_bytes(),
            ptr.start() == old(self)@.len(),
            ptr.len() == value.spec_bytes().len(),
            bytes_at(final(self)@, ptr) == value.spec_bytes(),
    {
        let bytes = value.as_bytes();
        proof {
            lemma_encode_seq_bytes(bytes@);
        }
        let slice = self.extend_from_slice(bytes);
        TaskBufferPtr::new(slice.position, slice.size)
    }

    /// Whether the bytes that `ptr` designates lie within the buffer.
    pub fn contains<T: ?Sized>(&self, ptr: TaskBufferPtr<T>) -> (r: bool)
        ensures
            r == in_bounds(self@, ptr),
    {
        ptr.position as usize <= self.0.len() && ptr.size as usize <= self.0.len()
            - ptr.position as usize
    }

    /// Whether `ptr` designates a whole encoded `T` within the buffer.
    pub fn holds_value<T: TaskValue>(&self, ptr: TaskBufferPtr<T>) -> (r: bool)
        ensures
            r == (in_bounds(self@, ptr) && ptr.len() == T::spec_size()),
    {
        match T::byte_size() {
            Some(n) => self.contains(ptr) && ptr.size as usize == n,
            None => {
                proof {
                    assert(ptr.len() <= u32::MAX);
                }
                false
            },
        }
    }

    /// Whether `ptr` designates valid UTF-8 text within the buffer.
    pub fn holds_text(&self, ptr: TaskBufferPtr<str>) -> (r: bool)
        ensures
            r == (in_bounds(self@, ptr) && valid_utf8(bytes_at(self@, ptr))),
    {
        self.contains(ptr) && str_from_utf8(self.as_bytes(ptr)).is_some()
    }

    /// Returns the bytes that `ptr` designates.
    pub fn as_bytes<T: ?Sized>(&self, ptr: TaskBufferPtr<T>) -> (r: &[u8])
        requires
            in_bounds(self@, ptr),
        ensures
            r@ == bytes_at(self@, ptr),
    {
        let total = self.0.len();
        let begin = ptr.position as usize;
        let end = begin + ptr.size as usize;
        vstd::slice::slice_subrange(self.0.as_slice(), begin, end)
    }

    /// Returns the value that `ptr` designates.
    pub fn as_ref<T: TaskValue>(&self, ptr: TaskBufferPtr<T>) -> (r: T)
        requires
            in_bounds(self@, ptr),
            ptr.len() == T::spec_size(),
        ensures
            r == T::spec_decode(bytes_at(self@, ptr)),
    {
        T::decode(self.as_bytes(ptr))
    }

    /// Returns the values that `ptr` designates.
    pub fn as_slice<T: TaskValue>(&self, ptr: TaskBufferPtr<[T]>) -> (r: Vec<T>)
        requires
            in_bounds(self@, ptr),
            0 < T::spec_size() <= usize::MAX,
            ptr.len() % T::spec_size() == 0,
        ensures
            r@ == decode_seq::<T>(bytes_at(self@, ptr), ptr.len() / T::spec_size()),
    {
        let bytes = self.as_bytes(ptr);
        let size = T::byte_size().unwrap();
        let len = bytes.len() / size;
        proof {
            vstd::arithmetic::div_mod::lemma_fundamental_div_mod(bytes@.len() as int, size as int);
            vstd::arithmetic::mul::lemma_mul_is_commutative(len as int, size as int);
        }
        decode_vec(bytes, len)
    }

    /// Returns the string slice that `ptr` designates.
    pub fn as_str(&self, ptr: TaskBufferPtr<str>) -> (r: &str)
        requires
            in_bounds(self@, ptr),
            valid_utf8(bytes_at(self@, ptr)),
        ensures
            r.spec_bytes() == bytes_at(self@, ptr),
    {
        str_from_utf8(self.as_bytes(ptr)).unwrap()
    }
}

/// Reading a value back through the pointer that stored it gives that value.
pub proof fn law_value_read_back<T: TaskValue>(bytes: Seq<u8>, ptr: TaskBufferPtr<T>, v: T)
    requires
        stores(bytes, ptr, v),
    ensures
        in_bounds(bytes, ptr),
        ptr.len() == T::spec_size(),
        T::spec_decode(bytes_at(bytes, ptr)) == v,
{
    T::lemma_encode_decode(v);
}

/// Appending bytes leaves every earlier pointer designating the same bytes.
pub proof fn law_append_keeps_earlier<T: ?Sized>(
    bytes: Seq<u8>,
    more: Seq<u8>,
    ptr: TaskBufferPtr<T>,
)
    requires
        in_bounds(bytes, ptr),
    ensures
        in_bounds(bytes + more, ptr),
        bytes_at(bytes + more, ptr) == bytes_at(bytes, ptr),
{
    assert(bytes_at(bytes + more, ptr) =~= bytes_at(bytes, ptr));
}

/// Reading values back through the pointer that stored a slice of them gives
/// that slice.
pub proof fn law_slice_read_back<T: TaskValue>(bytes: Seq<u8>, ptr: TaskBufferPtr<[T]>, s: Seq<T>)
    requires
        in_bounds(bytes, ptr),
        bytes_at(bytes, ptr) == encode_seq(s),
        0 < T::spec_size(),
    ensures
        ptr.len() % T::spec_size() == 0,
        ptr.len() / T::spec_size() == s.len(),
        decode_seq::<T>(bytes_at(bytes, ptr), ptr.len() / T::spec_size()) == s,
{
    lemma_encode_seq_len(s);
    lemma_decode_encode_seq(s);
    vstd::arithmetic::div_mod::lemma_div_multiples_vanish(s.len() as int, T::spec_size() as int);
    vstd::arithmetic::div_mod::lemma_mod_multiples_basic(s.len() as int, T::spec_size() as int);
    vstd::arithmetic::mul::lemma_mul_is_commutative(s.len() as int, T::spec_size() as int);
}

/// The bytes of a stored string are valid UTF-8, and every string slice over
/// them holds the characters of the stored string.
pub proof fn law_str_read_back(bytes: Seq<u8>, ptr: TaskBufferPtr<str>, s: &str)
    requires
        in_bounds(bytes, ptr),
        bytes_at(bytes, ptr) == s.spec_bytes(),
    ensures
        valid_utf8(bytes_at(bytes, ptr)),
        forall|r: &str| #[trigger] r.spec_bytes() == bytes_at(bytes, ptr) ==> r@ == s@,
{
    encode_utf8_valid_utf8(s@);
    encode_utf8_decode_utf8(s@);
    assert forall|r: &str| #[trigger] r.spec_bytes() == bytes_at(bytes, ptr) implies r@ == s@ by {
        encode_utf8_decode_utf8(r@);
    }
}

/// The encoding of a byte sequence is the sequence itself.
pub proof fn lemma_encode_seq_bytes(s: Seq<u8>)
    ensures
        encode_seq(s) == s,
    decreases s.len(),
{
    if s.len() > 0 {
        lemma_encode_seq_bytes(s.drop_last());
        assert(s.drop_last() + seq![s.last()] =~= s);
    }
}

} // verus!
