//! The closed set of POD scalar kinds a kernel argument or a typed device
//! buffer may carry, together with their byte layout. The device stores raw
//! bytes; every typed transfer goes through the little-endian codec below,
//! whose round trip is proved, so reading back what was written returns
//! exactly the written elements.

use vstd::prelude::*;

verus! {

/// Marker and codec trait for the allowed scalar element kinds (fixed-width
/// integers; no pointers, no collections). `to_bytes`/`of_bytes` give the
/// little-endian byte layout used by the device model, and the trait laws
/// make the layout total and invertible.
pub trait KernelScalar: Sized + Copy {
    /// Width of one element in bytes.
    spec fn spec_size() -> nat;

    /// Little-endian byte image of one element.
    spec fn to_bytes(self) -> Seq<u8>;

    /// The element a byte image stands for.
    spec fn of_bytes(b: Seq<u8>) -> Self;

    /// An element is at least one byte wide.
    proof fn lemma_size_pos()
        ensures
            Self::spec_size() >= 1,
    ;

    /// The byte image has exactly `spec_size` bytes.
    proof fn lemma_bytes_len(self)
        ensures
            self.to_bytes().len() == Self::spec_size(),
    ;

    /// Decoding the byte image of an element yields that element.
    proof fn lemma_codec_inverse(self)
        ensures
            Self::of_bytes(self.to_bytes()) == self,
    ;

    /// Width of one element in bytes.
    fn byte_size() -> (r: usize)
        ensures
            r == Self::spec_size(),
    ;

    /// Appends the byte image of `self` to `out`.
    fn encode_into(self, out: &mut Vec<u8>)
        ensures
            final(out)@ == old(out)@ + self.to_bytes(),
    ;

    /// Reads one element from the byte image starting at `off`.
    fn decode_from(b: &Vec<u8>, off: usize) -> (r: Self)
        requires
            off + Self::spec_size() <= b@.len(),
        ensures
            r == Self::of_bytes(b@.subrange(off as int, off as int + Self::spec_size() as int)),
    ;
}

impl KernelScalar for u8 {
    open spec fn spec_size() -> nat {
        1
    }

    open spec fn to_bytes(self) -> Seq<u8> {
        seq![self]
    }

    open spec fn of_bytes(b: Seq<u8>) -> Self {
        b[0]
    }

    proof fn lemma_size_pos() {
    }

    proof fn lemma_bytes_len(self) {
    }

    proof fn lemma_codec_inverse(self) {
    }

    fn byte_size() -> (r: usize) {
        1
    }

    fn encode_into(self, out: &mut Vec<u8>) {
        out.push(self);
        proof {
            assert(final(out)@ =~= old(out)@ + self.to_bytes());
        }
    }

    fn decode_from(b: &Vec<u8>, off: usize) -> (r: Self) {
        b[off]
    }
}

impl KernelScalar for u32 {
    open spec fn spec_size() -> nat {
        4
    }

    open spec fn to_bytes(self) -> Seq<u8> {
        seq![
            (self & 0xff) as u8,
            ((self >> 8) & 0xff) as u8,
            ((self >> 16) & 0xff) as u8,
            ((self >> 24) & 0xff) as u8,
        ]
    }

    open spec fn of_bytes(b: Seq<u8>) -> Self {
        ((b[0] as u32) | ((b[1] as u32) << 8) | ((b[2] as u32) << 16) | ((b[3] as u32) << 24)) as u32
    }

    proof fn lemma_size_pos() {
    }

    proof fn lemma_bytes_len(self) {
    }

    proof fn lemma_codec_inverse(self) {
        let x = self;
        assert((((x & 0xff) as u8 as u32) | ((((x >> 8) & 0xff) as u8 as u32) << 8) | ((((x
            >> 16) & 0xff) as u8 as u32) << 16) | ((((x >> 24) & 0xff) as u8 as u32) << 24)) as u32
            == x) by (bit_vector);
    }

    fn byte_size() -> (r: usize) {
        4
    }

    fn encode_into(self, out: &mut Vec<u8>) {
        let x = self;
        proof {
            assert((x & 0xff) < 256 && ((x >> 8) & 0xff) < 256 && ((x >> 16) & 0xff) < 256 && ((x
                >> 24) & 0xff) < 256) by (bit_vector);
        }
        out.push((x & 0xff) as u8);
        out.push(((x >> 8) & 0xff) as u8);
        out.push(((x >> 16) & 0xff) as u8);
        out.push(((x >> 24) & 0xff) as u8);
        proof {
            assert(final(out)@ =~= old(out)@ + self.to_bytes());
        }
    }

    fn decode_from(b: &Vec<u8>, off: usize) -> (r: Self) {
        let _n = b.len();
        let r = (b[off] as u32) | ((b[off + 1] as u32) << 8) | ((b[off + 2] as u32) << 16) | ((b[off
            + 3] as u32) << 24);
        proof {
            let s = b@.subrange(off as int, off as int + 4);
            assert(s[0] == b@[off as int] && s[1] == b@[off as int + 1] && s[2] == b@[off as int
                + 2] && s[3] == b@[off as int + 3]);
        }
        r
    }
}

impl KernelScalar for u64 {
    open spec fn spec_size() -> nat {
        8
    }

    open spec fn to_bytes(self) -> Seq<u8> {
        seq![
            (self & 0xff) as u8,
            ((self >> 8) & 0xff) as u8,
            ((self >> 16) & 0xff) as u8,
            ((self >> 24) & 0xff) as u8,
            ((self >> 32) & 0xff) as u8,
            ((self >> 40) & 0xff) as u8,
            ((self >> 48) & 0xff) as u8,
            ((self >> 56) & 0xff) as u8,
        ]
    }

    open spec fn of_bytes(b: Seq<u8>) -> Self {
        ((b[0] as u64) | ((b[1] as u64) << 8) | ((b[2] as u64) << 16) | ((b[3] as u64) << 24) | ((
        b[4] as u64) << 32) | ((b[5] as u64) << 40) | ((b[6] as u64) << 48) | ((b[7] as u64)
            << 56)) as u64
    }

    proof fn lemma_size_pos() {
    }

    proof fn lemma_bytes_len(self) {
    }

    proof fn lemma_codec_inverse(self) {
        let x = self;
        assert((((x & 0xff) as u8 as u64) | ((((x >> 8) & 0xff) as u8 as u64) << 8) | ((((x
            >> 16) & 0xff) as u8 as u64) << 16) | ((((x >> 24) & 0xff) as u8 as u64) << 24) | ((((
        x >> 32) & 0xff) as u8 as u64) << 32) | ((((x >> 40) & 0xff) as u8 as u64) << 40) | ((((x
            >> 48) & 0xff) as u8 as u64) << 48) | ((((x >> 56) & 0xff) as u8 as u64) << 56)) as u64
            == x) by (bit_vector);
    }

    fn byte_size() -> (r: usize) {
        8
    }

    fn encode_into(self, out: &mut Vec<u8>) {
        let x = self;
        proof {
            assert((x & 0xff) < 256 && ((x >> 8) & 0xff) < 256 && ((x >> 16) & 0xff) < 256 && ((x
                >> 24) & 0xff) < 256 && ((x >> 32) & 0xff) < 256 && ((x >> 40) & 0xff) < 256 && ((
            x >> 48) & 0xff) < 256 && ((x >> 56) & 0xff) < 256) by (bit_vector);
        }
        out.push((x & 0xff) as u8);
        out.push(((x >> 8) & 0xff) as u8);
        out.push(((x >> 16) & 0xff) as u8);
        out.push(((x >> 24) & 0xff) as u8);
        out.push(((x >> 32) & 0xff) as u8);
        out.push(((x >> 40) & 0xff) as u8);
        out.push(((x >> 48) & 0xff) as u8);
        out.push(((x >> 56) & 0xff) as u8);
        proof {
            assert(final(out)@ =~= old(out)@ + self.to_bytes());
        }
    }

    fn decode_from(b: &Vec<u8>, off: usize) -> (r: Self) {
        let _n = b.len();
        let r = (b[off] as u64) | ((b[off + 1] as u64) << 8) | ((b[off + 2] as u64) << 16) | ((b[off
            + 3] as u64) << 24) | ((b[off + 4] as u64) << 32) | ((b[off + 5] as u64) << 40) | ((
        b[off + 6] as u64) << 48) | ((b[off + 7] as u64) << 56);
        proof {
            let s = b@.subrange(off as int, off as int + 8);
            assert(s[0] == b@[off as int] && s[1] == b@[off as int + 1] && s[2] == b@[off as int
                + 2] && s[3] == b@[off as int + 3] && s[4] == b@[off as int + 4] && s[5] == b@[
            off as int + 5] && s[6] == b@[off as int + 6] && s[7] == b@[off as int + 7]);
        }
        r
    }
}

impl KernelScalar for i32 {
    open spec fn spec_size() -> nat {
        4
    }

    open spec fn to_bytes(self) -> Seq<u8> {
        (self as u32).to_bytes()
    }

    open spec fn of_bytes(b: Seq<u8>) -> Self {
        <u32 as KernelScalar>::of_bytes(b) as i32
    }

    proof fn lemma_size_pos() {
    }

    proof fn lemma_bytes_len(self) {
        (self as u32).lemma_bytes_len();
    }

    proof fn lemma_codec_inverse(self) {
        (self as u32).lemma_codec_inverse();
        assert(self as u32 as i32 == self) by (bit_vector);
    }

    fn byte_size() -> (r: usize) {
        4
    }

    fn encode_into(self, out: &mut Vec<u8>) {
        #[verifier::truncate] let x: u32 = self as u32;
        x.encode_into(out);
    }

    fn decode_from(b: &Vec<u8>, off: usize) -> (r: Self) {
        let x: u32 = u32::decode_from(b, off);
        #[verifier::truncate] let r: i32 = x as i32;
        r
    }
}

/// Little-endian byte image of a sequence of elements, in order.
pub open spec fn bytes_of<T: KernelScalar>(s: Seq<T>) -> Seq<u8>
    decreases s.len(),
{
    if s.len() == 0 {
        Seq::empty()
    } else {
        s.first().to_bytes() + bytes_of(s.drop_first())
    }
}

/// The elements a byte image stands for, read greedily from the front;
/// a trailing fragment shorter than one element is ignored.
pub open spec fn elems_of<T: KernelScalar>(b: Seq<u8>) -> Seq<T>
    decreases b.len(),
{
    if b.len() < T::spec_size() || T::spec_size() == 0 {
        Seq::empty()
    } else {
        seq![T::of_bytes(b.take(T::spec_size() as int))] + elems_of::<T>(
            b.skip(T::spec_size() as int),
        )
    }
}

/// The byte image of `n` elements has `n * spec_size` bytes.
pub proof fn lemma_bytes_of_len<T: KernelScalar>(s: Seq<T>)
    ensures
        bytes_of(s).len() == s.len() * T::spec_size(),
    decreases s.len(),
{
    if s.len() == 0 {
    } else {
        s.first().lemma_bytes_len();
        lemma_bytes_of_len::<T>(s.drop_first());
        assert(T::spec_size() + (s.len() - 1) * T::spec_size() == s.len() * T::spec_size())
            by (nonlinear_arith)
            requires
                s.len() >= 1,
        ;
    }
}

/// Appending one element appends its byte image.
pub proof fn lemma_bytes_of_push<T: KernelScalar>(s: Seq<T>, x: T)
    ensures
        bytes_of(s.push(x)) == bytes_of(s) + x.to_bytes(),
    decreases s.len(),
{
    if s.len() == 0 {
        assert(s.push(x).first() == x);
        assert(s.push(x).drop_first() =~= Seq::<T>::empty());
        assert(bytes_of(Seq::<T>::empty()) =~= Seq::<u8>::empty());
        assert(bytes_of(s.push(x)) =~= x.to_bytes() + Seq::<u8>::empty());
        assert(bytes_of(s.push(x)) =~= bytes_of(s) + x.to_bytes());
    } else {
        assert(s.push(x).first() == s.first());
        assert(s.push(x).drop_first() =~= s.drop_first().push(x));
        lemma_bytes_of_push::<T>(s.drop_first(), x);
        assert(bytes_of(s.push(x)) =~= bytes_of(s) + x.to_bytes());
    }
}

/// Round trip: decoding the byte image of a sequence of elements yields
/// exactly that sequence.
pub proof fn lemma_codec_round_trip<T: KernelScalar>(s: Seq<T>)
    ensures
        elems_of::<T>(bytes_of(s)) == s,
    decreases s.len(),
{
    T::lemma_size_pos();
    if s.len() == 0 {
        assert(elems_of::<T>(bytes_of(s)) =~= s);
    } else {
        let size = T::spec_size() as int;
        let b = bytes_of(s);
        s.first().lemma_bytes_len();
        lemma_bytes_of_len::<T>(s.drop_first());
        assert(b.len() >= T::spec_size());
        assert(b.take(size) =~= s.first().to_bytes());
        assert(b.skip(size) =~= bytes_of(s.drop_first()));
        s.first().lemma_codec_inverse();
        lemma_codec_round_trip::<T>(s.drop_first());
        assert(elems_of::<T>(b) =~= s);
    }
}

/// A byte image of exactly `n` elements decodes to `n` elements.
pub proof fn lemma_elems_of_len<T: KernelScalar>(b: Seq<u8>, n: nat)
    requires
        b.len() == n * T::spec_size(),
    ensures
        elems_of::<T>(b).len() == n,
    decreases n,
{
    T::lemma_size_pos();
    if n == 0 {
        assert(n * T::spec_size() == 0) by (nonlinear_arith)
            requires
                n == 0,
        ;
        assert(b.len() == 0);
    } else {
        let size = T::spec_size();
        assert(n * size >= size && n * size - size == (n - 1) * size) by (nonlinear_arith)
            requires
                n >= 1,
                size >= 1,
        ;
        lemma_elems_of_len::<T>(b.skip(size as int), (n - 1) as nat);
    }
}

/// Encodes a host slice of elements into its byte image.
pub fn encode_slice<T: KernelScalar>(data: &[T]) -> (r: Vec<u8>)
    ensures
        r@ == bytes_of(data@),
{
    let mut out: Vec<u8> = Vec::new();
    let n = data.len();
    let mut i: usize = 0;
    while i < n
        invariant
            n == data@.len(),
            i <= n,
            out@ == bytes_of(data@.take(i as int)),
        decreases n - i,
    {
        let x = data[i];
        x.encode_into(&mut out);
        proof {
            lemma_bytes_of_push::<T>(data@.take(i as int), data@[i as int]);
            assert(data@.take(i as int + 1) =~= data@.take(i as int).push(data@[i as int]));
        }
        i = i + 1;
    }
    proof {
        assert(data@.take(n as int) =~= data@);
    }
    out
}

/// Decodes a byte image of exactly `n` elements into those elements.
pub fn decode_vec<T: KernelScalar>(b: &Vec<u8>, n: usize) -> (r: Vec<T>)
    requires
        b@.len() == n * T::spec_size(),
    ensures
        r@ == elems_of::<T>(b@),
        r@.len() == n,
{
    proof {
        T::lemma_size_pos();
        lemma_elems_of_len::<T>(b@, n as nat);
    }
    let size = T::byte_size();
    let blen = b.len();
    let mut out: Vec<T> = Vec::new();
    let mut i: usize = 0;
    let mut off: usize = 0;
    proof {
        assert(b@.skip(0) =~= b@);
        assert(Seq::<T>::empty() + elems_of::<T>(b@) =~= elems_of::<T>(b@));
    }
    while i < n
        invariant
            T::spec_size() >= 1,
            size == T::spec_size(),
            b@.len() == n * T::spec_size(),
            i <= n,
            off == i * T::spec_size(),
            blen == b@.len(),
            out@.len() == i,
            out@ + elems_of::<T>(b@.skip(off as int)) == elems_of::<T>(b@),
        decreases n - i,
    {
        proof {
            assert((i + 1) * T::spec_size() <= n * T::spec_size() && i * T::spec_size()
                + T::spec_size() == (i + 1) * T::spec_size()) by (nonlinear_arith)
                requires
                    i < n,
                    T::spec_size() >= 1,
            ;
        }
        let x = T::decode_from(b, off);
        proof {
            let rest = b@.skip(off as int);
            assert(rest.len() == b@.len() - off);
            assert(rest.take(size as int) =~= b@.subrange(off as int, off as int + size as int));
            assert(rest.skip(size as int) =~= b@.skip(off as int + size as int));
        }
        out.push(x);
        i = i + 1;
        off = off + size;
    }
    proof {
        assert(b@.skip(off as int) =~= Seq::<u8>::empty());
        assert(elems_of::<T>(Seq::<u8>::empty()) =~= Seq::<T>::empty());
        assert(out@ =~= elems_of::<T>(b@));
    }
    out
}

} // verus!
