//! Fixed-size byte encodings of the plain values that frame tasks carry.
//!
//! A `TaskBuffer` stores values as bytes. Every type that can be stored
//! there has a fixed encoded size, an encoding and a decoding, and the
//! decoding of an encoding gives the value back.
//!
//! The encodings are packed and little-endian: they are not a value's
//! in-memory layout, so an encoded `Option` or tuple may be shorter than
//! `size_of` of its type, and the bytes do not depend on the platform.
use vstd::bytes::*;
use vstd::prelude::*;

verus! {

/// A plain value with a fixed-size byte encoding.
pub trait TaskValue: Sized {
    /// The number of bytes that every value of this type occupies.
    spec fn spec_size() -> nat;

    /// The bytes that store `self`.
    spec fn spec_encode(self) -> Seq<u8>;

    /// The value that `bytes` (of length `spec_size()`) stores.
    spec fn spec_decode(bytes: Seq<u8>) -> Self;

    /// An encoding has the type's size, and decoding it gives the value back.
    proof fn lemma_encode_decode(v: Self)
        ensures
            v.spec_encode().len() == Self::spec_size(),
            Self::spec_decode(v.spec_encode()) == v,
    ;

    /// The encoded size as a machine integer, or `None` where it does not
    /// fit in one.
    fn byte_size() -> (n: Option<usize>)
        ensures
            n matches Some(k) ==> k == Self::spec_size(),
            n is None ==> Self::spec_size() > usize::MAX,
    ;

    /// Appends the encoding of `self` to `out`.
    fn encode(&self, out: &mut Vec<u8>)
        requires
            Self::spec_size() <= usize::MAX,
        ensures
            final(out)@ == old(out)@ + self.spec_encode(),
    ;

    /// Decodes the value stored in `bytes`.
    fn decode(bytes: &[u8]) -> (v: Self)
        requires
            bytes@.len() == Self::spec_size(),
        ensures
            v == Self::spec_decode(bytes@),
    ;
}

impl TaskValue for u8 {
    open spec fn spec_size() -> nat {
        1
    }

    open spec fn spec_encode(self) -> Seq<u8> {
        seq![self]
    }

    open spec fn spec_decode(bytes: Seq<u8>) -> u8 {
        bytes[0]
    }

    proof fn lemma_encode_decode(v: u8) {
    }

    fn byte_size() -> (n: Option<usize>) {
        Some(1)
    }

    fn encode(&self, out: &mut Vec<u8>) {
        out.push(*self);
    }

    fn decode(bytes: &[u8]) -> (v: u8) {
        bytes[0]
    }
}

impl TaskValue for u16 {
    open spec fn spec_size() -> nat {
        2
    }

    open spec fn spec_encode(self) -> Seq<u8> {
        spec_u16_to_le_bytes(self)
    }

    open spec fn spec_decode(bytes: Seq<u8>) -> u16 {
        spec_u16_from_le_bytes(bytes)
    }

    proof fn lemma_encode_decode(v: u16) {
        lemma_auto_spec_u16_to_from_le_bytes();
        assert(spec_u16_to_le_bytes(v).len() == 2);
    }

    fn byte_size() -> (n: Option<usize>) {
        Some(2)
    }

    fn encode(&self, out: &mut Vec<u8>) {
        let mut bytes = u16_to_le_bytes(*self);
        out.append(&mut bytes);
    }

    fn decode(bytes: &[u8]) -> (v: u16) {
        u16_from_le_bytes(bytes)
    }
}

impl TaskValue for u32 {
    open spec fn spec_size() -> nat {
        4
    }

    open spec fn spec_encode(self) -> Seq<u8> {
        spec_u32_to_le_bytes(self)
    }

    open spec fn spec_decode(bytes: Seq<u8>) -> u32 {
        spec_u32_from_le_bytes(bytes)
    }

    proof fn lemma_encode_decode(v: u32) {
        lemma_auto_spec_u32_to_from_le_bytes();
        assert(spec_u32_to_le_bytes(v).len() == 4);
    }

    fn byte_size() -> (n: Option<usize>) {
        Some(4)
    }

    fn encode(&self, out: &mut Vec<u8>) {
        let mut bytes = u32_to_le_bytes(*self);
        out.append(&mut bytes);
    }

    fn decode(bytes: &[u8]) -> (v: u32) {
        u32_from_le_bytes(bytes)
    }
}

impl TaskValue for u64 {
    open spec fn spec_size() -> nat {
        8
    }

    open spec fn spec_encode(self) -> Seq<u8> {
        spec_u64_to_le_bytes(self)
    }

    open spec fn spec_decode(bytes: Seq<u8>) -> u64 {
        spec_u64_from_le_bytes(bytes)
    }

    proof fn lemma_encode_decode(v: u64) {
        lemma_auto_spec_u64_to_from_le_bytes();
        assert(spec_u64_to_le_bytes(v).len() == 8);
    }

    fn byte_size() -> (n: Option<usize>) {
        Some(8)
    }

    fn encode(&self, out: &mut Vec<u8>) {
        let mut bytes = u64_to_le_bytes(*self);
        out.append(&mut bytes);
    }

    fn decode(bytes: &[u8]) -> (v: u64) {
        u64_from_le_bytes(bytes)
    }
}

impl TaskValue for i16 {
    open spec fn spec_size() -> nat {
        2
    }

    open spec fn spec_encode(self) -> Seq<u8> {
        spec_u16_to_le_bytes(self as u16)
    }

    open spec fn spec_decode(bytes: Seq<u8>) -> i16 {
        spec_u16_from_le_bytes(bytes) as i16
    }

    proof fn lemma_encode_decode(v: i16) {
        lemma_auto_spec_u16_to_from_le_bytes();
        assert(spec_u16_to_le_bytes(v as u16).len() == 2);
        assert((v as u16) as i16 == v) by (bit_vector);
    }

    fn byte_size() -> (n: Option<usize>) {
        Some(2)
    }

    fn encode(&self, out: &mut Vec<u8>) {
        let mut bytes = u16_to_le_bytes(*self as u16);
        out.append(&mut bytes);
    }

    fn decode(bytes: &[u8]) -> (v: i16) {
        u16_from_le_bytes(bytes) as i16
    }
}

impl TaskValue for i32 {
    open spec fn spec_size() -> nat {
        4
    }

    open spec fn spec_encode(self) -> Seq<u8> {
        spec_u32_to_le_bytes(self as u32)
    }

    open spec fn spec_decode(bytes: Seq<u8>) -> i32 {
        spec_u32_from_le_bytes(bytes) as i32
    }

    proof fn lemma_encode_decode(v: i32) {
        lemma_auto_spec_u32_to_from_le_bytes();
        assert(spec_u32_to_le_bytes(v as u32).len() == 4);
        assert((v as u32) as i32 == v) by (bit_vector);
    }

    fn byte_size() -> (n: Option<usize>) {
        Some(4)
    }

    fn encode(&self, out: &mut Vec<u8>) {
        let mut bytes = u32_to_le_bytes(*self as u32);
        out.append(&mut bytes);
    }

    fn decode(bytes: &[u8]) -> (v: i32) {
        u32_from_le_bytes(bytes) as i32
    }
}

impl TaskValue for i64 {
    open spec fn spec_size() -> nat {
        8
    }

    open spec fn spec_encode(self) -> Seq<u8> {
        spec_u64_to_le_bytes(self as u64)
    }

    open spec fn spec_decode(bytes: Seq<u8>) -> i64 {
        spec_u64_from_le_bytes(bytes) as i64
    }

    proof fn lemma_encode_decode(v: i64) {
        lemma_auto_spec_u64_to_from_le_bytes();
        assert(spec_u64_to_le_bytes(v as u64).len() == 8);
        assert((v as u64) as i64 == v) by (bit_vector);
    }

    fn byte_size() -> (n: Option<usize>) {
        Some(8)
    }

    fn encode(&self, out: &mut Vec<u8>) {
        let mut bytes = u64_to_le_bytes(*self as u64);
        out.append(&mut bytes);
    }

    fn decode(bytes: &[u8]) -> (v: i64) {
        u64_from_le_bytes(bytes) as i64
    }
}

impl TaskValue for bool {
    open spec fn spec_size() -> nat {
        1
    }

    open spec fn spec_encode(self) -> Seq<u8> {
        if self {
            seq![1u8]
        } else {
            seq![0u8]
        }
    }

    open spec fn spec_decode(bytes: Seq<u8>) -> bool {
        bytes[0] != 0
    }

    proof fn lemma_encode_decode(v: bool) {
    }

    fn byte_size() -> (n: Option<usize>) {
        Some(1)
    }

    fn encode(&self, out: &mut Vec<u8>) {
        if *self {
            out.push(1u8);
        } else {
            out.push(0u8);
        }
    }

    fn decode(bytes: &[u8]) -> (v: bool) {
        bytes[0] != 0
    }
}

impl<A: TaskValue, B: TaskValue> TaskValue for (A, B) {
    open spec fn spec_size() -> nat {
        A::spec_size() + B::spec_size()
    }

    open spec fn spec_encode(self) -> Seq<u8> {
        self.0.spec_encode() + self.1.spec_encode()
    }

    open spec fn spec_decode(bytes: Seq<u8>) -> (A, B) {
        let a = A::spec_size() as int;
        (
            A::spec_decode(bytes.subrange(0, a)),
            B::spec_decode(bytes.subrange(a, a + B::spec_size())),
        )
    }

    proof fn lemma_encode_decode(v: (A, B)) {
        A::lemma_encode_decode(v.0);
        B::lemma_encode_decode(v.1);
        let e = v.spec_encode();
        let a = A::spec_size() as int;
        assert(e.subrange(0, a) =~= v.0.spec_encode());
        assert(e.subrange(a, a + B::spec_size()) =~= v.1.spec_encode());
    }

    fn byte_size() -> (n: Option<usize>) {
        match (A::byte_size(), B::byte_size()) {
            (Some(a), Some(b)) => a.checked_add(b),
            _ => None,
        }
    }

    fn encode(&self, out: &mut Vec<u8>) {
        let ghost start = out@;
        self.0.encode(out);
        self.1.encode(out);
        assert(out@ =~= start + self.spec_encode());
    }

    fn decode(bytes: &[u8]) -> (v: (A, B)) {
        let total = bytes.len();
        let a = A::byte_size().unwrap();
        let first = A::decode(vstd::slice::slice_subrange(bytes, 0, a));
        let second = B::decode(vstd::slice::slice_subrange(bytes, a, bytes.len()));
        (first, second)
    }
}

/// `n` zero bytes.
pub open spec fn zeros(n: nat) -> Seq<u8> {
    Seq::new(n, |i: int| 0u8)
}

impl<T: TaskValue> TaskValue for Option<T> {
    open spec fn spec_size() -> nat {
        1 + T::spec_size()
    }

    open spec fn spec_encode(self) -> Seq<u8> {
        match self {
            None => seq![0u8] + zeros(T::spec_size()),
            Some(v) => seq![1u8] + v.spec_encode(),
        }
    }

    open spec fn spec_decode(bytes: Seq<u8>) -> Option<T> {
        if bytes[0] == 0 {
            None
        } else {
            Some(T::spec_decode(bytes.subrange(1, 1 + T::spec_size() as int)))
        }
    }

    proof fn lemma_encode_decode(v: Option<T>) {
        if let Some(x) = v {
            T::lemma_encode_decode(x);
            assert(v.spec_encode().subrange(1, 1 + T::spec_size() as int) =~= x.spec_encode());
        }
    }

    fn byte_size() -> (n: Option<usize>) {
        match T::byte_size() {
            Some(t) => t.checked_add(1),
            None => None,
        }
    }

    fn encode(&self, out: &mut Vec<u8>) {
        let ghost start = out@;
        match self {
            None => {
                out.push(0u8);
                let mut padding: Vec<u8> = vec![0u8; T::byte_size().unwrap()];
                assert(padding@ =~= zeros(T::spec_size()));
                out.append(&mut padding);
            },
            Some(v) => {
                out.push(1u8);
                v.encode(out);
            },
        }
        assert(out@ =~= start + self.spec_encode());
    }

    fn decode(bytes: &[u8]) -> (v: Option<T>) {
        if bytes[0] == 0 {
            None
        } else {
            Some(T::decode(vstd::slice::slice_subrange(bytes, 1, bytes.len())))
        }
    }
}

/// Calls std's `<[T; N] as TryFrom<Vec<T>>>::try_from`, which std documents
/// as succeeding exactly when the vector holds `N` elements, and as giving
/// an array of those elements in order.
#[verifier::external_body]
fn vec_into_array<T, const N: usize>(v: Vec<T>) -> (r: Option<[T; N]>)
    ensures
        r is Some <==> v@.len() == N,
        r matches Some(a) ==> a@ == v@,
{
    <[T; N]>::try_from(v).ok()
}

impl<T: TaskValue, const N: usize> TaskValue for [T; N] {
    open spec fn spec_size() -> nat {
        N as nat * T::spec_size()
    }

    open spec fn spec_encode(self) -> Seq<u8> {
        encode_seq(self@)
    }

    open spec fn spec_decode(bytes: Seq<u8>) -> [T; N] {
        choose|a: [T; N]| a@ == decode_seq::<T>(bytes, N as nat)
    }

    proof fn lemma_encode_decode(v: [T; N]) {
        broadcast use vstd::array::group_array_axioms;

        lemma_encode_seq_len(v@);
        lemma_decode_encode_seq(v@);
        let a = Self::spec_decode(v.spec_encode());
        assert(a@ == v@);
        assert(a =~= v);
    }

    fn byte_size() -> (n: Option<usize>) {
        if N == 0 {
            Some(0)
        } else {
            match T::byte_size() {
                Some(t) => {
                    proof {
                        vstd::arithmetic::mul::lemma_mul_is_commutative(N as int, t as int);
                    }
                    N.checked_mul(t)
                },
                None => {
                    proof {
                        lemma_block_bounds(0, N as int, T::spec_size() as int);
                    }
                    None
                },
            }
        }
    }

    fn encode(&self, out: &mut Vec<u8>) {
        broadcast use vstd::array::group_array_axioms;

        if N == 0 {
            assert(out@ =~= old(out)@ + self.spec_encode());
        } else {
            proof {
                lemma_block_bounds(0, N as int, T::spec_size() as int);
            }
            let slice: &[T] = self.as_slice();
            encode_slice(slice, out);
        }
    }

    fn decode(bytes: &[u8]) -> (v: [T; N]) {
        broadcast use vstd::array::group_array_axioms;

        let values: Vec<T> = decode_vec(bytes, N);
        let ghost seq = values@;
        let array: Option<[T; N]> = vec_into_array(values);
        let a = array.unwrap();
        proof {
            let c = Self::spec_decode(bytes@);
            assert(c@ == a@);
            assert(c =~= a);
        }
        a
    }
}

/// The bytes that store the values of `s` one after another.
pub open spec fn encode_seq<T: TaskValue>(s: Seq<T>) -> Seq<u8>
    decreases s.len(),
{
    if s.len() == 0 {
        Seq::empty()
    } else {
        encode_seq(s.drop_last()) + s.last().spec_encode()
    }
}

/// The `i`-th block of `size` bytes in `bytes`.
pub open spec fn chunk(bytes: Seq<u8>, size: nat, i: int) -> Seq<u8> {
    bytes.subrange(i * size, i * size + size)
}

/// The `n` values stored one after another in `bytes`.
pub open spec fn decode_seq<T: TaskValue>(bytes: Seq<u8>, n: nat) -> Seq<T> {
    Seq::new(n, |i: int| T::spec_decode(chunk(bytes, T::spec_size(), i)))
}

proof fn lemma_block_bounds(i: int, n: int, size: int)
    by (nonlinear_arith)
    requires
        0 <= i < n,
        0 <= size,
    ensures
        0 <= i * size,
        i * size + size <= n * size,
        (n - 1) * size + size == n * size,
{
}

/// The encoding of a sequence is as long as its values' encodings together.
pub proof fn lemma_encode_seq_len<T: TaskValue>(s: Seq<T>)
    ensures
        encode_seq(s).len() == s.len() * T::spec_size(),
    decreases s.len(),
{
    if s.len() > 0 {
        lemma_encode_seq_len(s.drop_last());
        T::lemma_encode_decode(s.last());
        lemma_block_bounds(s.len() - 1, s.len() as int, T::spec_size() as int);
    }
}

/// The `i`-th block of a sequence's encoding is the encoding of its `i`-th value.
pub proof fn lemma_encode_seq_chunk<T: TaskValue>(s: Seq<T>, i: int)
    requires
        0 <= i < s.len(),
    ensures
        chunk(encode_seq(s), T::spec_size(), i) == s[i].spec_encode(),
    decreases s.len(),
{
    let sz = T::spec_size();
    let prefix = encode_seq(s.drop_last());
    lemma_encode_seq_len(s.drop_last());
    lemma_encode_seq_len(s);
    T::lemma_encode_decode(s.last());
    lemma_block_bounds(i, s.len() as int, sz as int);
    if i == s.len() - 1 {
        assert(chunk(encode_seq(s), sz, i) =~= s.last().spec_encode());
    } else {
        lemma_block_bounds(i, s.len() - 1, sz as int);
        lemma_encode_seq_chunk(s.drop_last(), i);
        assert(chunk(encode_seq(s), sz, i) =~= chunk(prefix, sz, i));
    }
}

/// Decoding the encoding of a sequence gives the sequence back.
pub proof fn lemma_decode_encode_seq<T: TaskValue>(s: Seq<T>)
    ensures
        decode_seq::<T>(encode_seq(s), s.len()) == s,
{
    assert forall|i: int| 0 <= i < s.len() implies #[trigger] decode_seq::<T>(
        encode_seq(s),
        s.len(),
    )[i] == s[i] by {
        lemma_encode_seq_chunk(s, i);
        T::lemma_encode_decode(s[i]);
    }
    assert(decode_seq::<T>(encode_seq(s), s.len()) =~= s);
}

/// Appends the encodings of the values of `slice` to `out`.
pub fn encode_slice<T: TaskValue>(slice: &[T], out: &mut Vec<u8>)
    requires
        T::spec_size() <= usize::MAX,
    ensures
        final(out)@ == old(out)@ + encode_seq(slice@),
{
    let ghost start = out@;
    let mut i: usize = 0;
    while i < slice.len()
        invariant
            i <= slice@.len(),
            T::spec_size() <= usize::MAX,
            out@ == start + encode_seq(slice@.take(i as int)),
        decreases slice@.len() - i,
    {
        let ghost before = out@;
        slice[i].encode(out);
        proof {
            assert(slice@.take(i + 1).drop_last() =~= slice@.take(i as int));
            assert(out@ =~= start + encode_seq(slice@.take(i + 1)));
        }
        i = i + 1;
    }
    assert(slice@.take(i as int) =~= slice@);
}

/// Decodes the `n` values stored one after another in `bytes`.
pub fn decode_vec<T: TaskValue>(bytes: &[u8], n: usize) -> (r: Vec<T>)
    requires
        bytes@.len() == n * T::spec_size(),
    ensures
        r@ == decode_seq::<T>(bytes@, n as nat),
{
    let mut r: Vec<T> = Vec::new();
    if n == 0 {
        assert(r@ =~= decode_seq::<T>(bytes@, n as nat));
        return r;
    }
    let total = bytes.len();
    proof {
        lemma_block_bounds(0, n as int, T::spec_size() as int);
    }
    let size = T::byte_size().unwrap();
    let mut i: usize = 0;
    while i < n
        invariant
            i <= n,
            size == T::spec_size(),
            bytes@.len() == n * size,
            n * size == total,
            r@ == decode_seq::<T>(bytes@, i as nat),
        decreases n - i,
    {
        proof {
            lemma_block_bounds(i as int, n as int, size as int);
        }
        let begin = i * size;
        let block = vstd::slice::slice_subrange(bytes, begin, begin + size);
        let v = T::decode(block);
        r.push(v);
        i = i + 1;
        assert(r@ =~= decode_seq::<T>(bytes@, i as nat));
    }
    r
}

} // verus!
