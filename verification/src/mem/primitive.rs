//! Memory primitives: bytes, half-words and words, read from and written to byte buffers in
//! little endian order.
use vstd::prelude::*;

verus! {

/// `256^n`, for `n` up to 4.
pub open spec fn pow256(n: nat) -> nat {
    if n == 0 {
        1
    } else if n == 1 {
        0x100
    } else if n == 2 {
        0x1_0000
    } else if n == 3 {
        0x100_0000
    } else {
        0x1_0000_0000
    }
}

/// Byte `i` of `buf`, or zero past its end.
pub open spec fn byte_or_zero(buf: Seq<u8>, i: int) -> nat {
    if 0 <= i < buf.len() {
        buf[i] as nat
    } else {
        0
    }
}

/// The little endian value of the first `n` (1, 2 or 4) bytes of `buf`, completed with zeros
/// where `buf` is shorter.
pub open spec fn le_value(buf: Seq<u8>, n: nat) -> nat {
    if n == 1 {
        byte_or_zero(buf, 0)
    } else if n == 2 {
        byte_or_zero(buf, 0) + byte_or_zero(buf, 1) * 0x100
    } else {
        byte_or_zero(buf, 0) + byte_or_zero(buf, 1) * 0x100 + byte_or_zero(buf, 2) * 0x1_0000
            + byte_or_zero(buf, 3) * 0x100_0000
    }
}

/// `buf` with its first `n` bytes (those that exist) replaced by the little endian bytes of
/// `value`.
pub open spec fn write_le(buf: Seq<u8>, value: nat, n: nat) -> Seq<u8> {
    Seq::new(
        buf.len(),
        |i: int|
            if i < n {
                ((value / pow256(i as nat)) % 0x100) as u8
            } else {
                buf[i]
            },
    )
}

/// Reads byte `i` of `buf`, or zero past its end.
fn byte_at(buf: &[u8], i: usize) -> (r: u8)
    ensures
        r == byte_or_zero(buf@, i as int),
{
    if i < buf.len() {
        buf[i]
    } else {
        0
    }
}

/// Writes the first `n` little endian bytes of `value` to `buf`, as far as it reaches.
fn write_bytes(buf: &mut [u8], value: u32, n: usize)
    requires
        n == 1 || n == 2 || n == 4,
        value < pow256(n as nat),
    ensures
        final(buf)@ == write_le(old(buf)@, value as nat, n as nat),
{
    let mut i: usize = 0;
    let mut rest: u32 = value;
    while i < n && i < buf.len()
        invariant
            n == 1 || n == 2 || n == 4,
            i <= n,
            i <= buf@.len(),
            buf@.len() == old(buf)@.len(),
            rest == value as nat / pow256(i as nat),
            forall|j: int|
                0 <= j < buf@.len() ==> #[trigger] buf@[j] == (if j < i {
                    ((value as nat / pow256(j as nat)) % 0x100) as u8
                } else {
                    old(buf)@[j]
                }),
        decreases n - i,
    {
        buf[i] = (rest % 0x100) as u8;
        proof {
            let p = pow256(i as nat);
            assert(pow256((i + 1) as nat) == p * 0x100);
            vstd::arithmetic::div_mod::lemma_div_denominator(value as int, p as int, 0x100);
        }
        rest = rest / 0x100;
        i += 1;
    }
    proof {
        assert(buf@ =~= write_le(old(buf)@, value as nat, n as nat));
    }
}

/// A memory primitive: a byte, half-word or word, that is [`u8`], [`i8`], [`u16`], [`i16`],
/// [`u32`] or [`i32`].
pub trait Primitive: Copy + Sized {
    /// The size of this primitive, in bytes.
    spec fn size() -> nat;

    /// The bits of a value, read as an unsigned number.
    spec fn bits(self) -> nat;

    /// The value with the given bits.
    spec fn from_bits(bits: nat) -> Self;

    /// The size of a primitive is 1, 2 or 4, and its bits give the value back.
    proof fn lemma_bits(self)
        ensures
            Self::size() == 1 || Self::size() == 2 || Self::size() == 4,
            self.bits() < pow256(Self::size()),
            Self::from_bits(self.bits()) == self,
    ;

    /// The size of a primitive is 1, 2 or 4.
    proof fn lemma_size()
        ensures
            Self::size() == 1 || Self::size() == 2 || Self::size() == 4,
    ;

    /// The alignment of this primitive, which is its size.
    fn alignment() -> (r: u32)
        ensures
            r == Self::size(),
    ;

    /// Reads a value of this primitive from a buffer. If `buf` does not contain enough data, it's
    /// going to be completed with zeros.
    fn read_from(buf: &[u8]) -> (r: Self)
        ensures
            r == Self::from_bits(le_value(buf@, Self::size())),
    ;

    /// Writes this primitive to the given buffer. If `buf` is not big enough, remaining bytes are
    /// going to be silently dropped.
    fn write_to(self, buf: &mut [u8])
        ensures
            final(buf)@ == write_le(old(buf)@, self.bits(), Self::size()),
    ;
}

impl Primitive for u8 {
    open spec fn size() -> nat {
        1
    }

    open spec fn bits(self) -> nat {
        self as nat
    }

    open spec fn from_bits(bits: nat) -> u8 {
        bits as u8
    }

    proof fn lemma_bits(self) {
    }

    proof fn lemma_size() {
    }

    fn alignment() -> (r: u32) {
        1
    }

    fn read_from(buf: &[u8]) -> (r: u8) {
        byte_at(buf, 0)
    }

    fn write_to(self, buf: &mut [u8]) {
        write_bytes(buf, self as u32, 1);
    }
}

impl Primitive for i8 {
    open spec fn size() -> nat {
        1
    }

    open spec fn bits(self) -> nat {
        self as u8 as nat
    }

    open spec fn from_bits(bits: nat) -> i8 {
        bits as u8 as i8
    }

    proof fn lemma_bits(self) {
        let v = self;
        assert(v as u8 as i8 == v) by (bit_vector);
    }

    proof fn lemma_size() {
    }

    fn alignment() -> (r: u32) {
        1
    }

    fn read_from(buf: &[u8]) -> (r: i8) {
        byte_at(buf, 0) as i8
    }

    fn write_to(self, buf: &mut [u8]) {
        write_bytes(buf, self as u8 as u32, 1);
    }
}

impl Primitive for u16 {
    open spec fn size() -> nat {
        2
    }

    open spec fn bits(self) -> nat {
        self as nat
    }

    open spec fn from_bits(bits: nat) -> u16 {
        bits as u16
    }

    proof fn lemma_bits(self) {
    }

    proof fn lemma_size() {
    }

    fn alignment() -> (r: u32) {
        2
    }

    fn read_from(buf: &[u8]) -> (r: u16) {
        byte_at(buf, 0) as u16 + byte_at(buf, 1) as u16 * 0x100
    }

    fn write_to(self, buf: &mut [u8]) {
        write_bytes(buf, self as u32, 2);
    }
}

impl Primitive for i16 {
    open spec fn size() -> nat {
        2
    }

    open spec fn bits(self) -> nat {
        self as u16 as nat
    }

    open spec fn from_bits(bits: nat) -> i16 {
        bits as u16 as i16
    }

    proof fn lemma_bits(self) {
        let v = self;
        assert(v as u16 as i16 == v) by (bit_vector);
    }

    proof fn lemma_size() {
    }

    fn alignment() -> (r: u32) {
        2
    }

    fn read_from(buf: &[u8]) -> (r: i16) {
        (byte_at(buf, 0) as u16 + byte_at(buf, 1) as u16 * 0x100) as i16
    }

    fn write_to(self, buf: &mut [u8]) {
        write_bytes(buf, self as u16 as u32, 2);
    }
}

impl Primitive for u32 {
    open spec fn size() -> nat {
        4
    }

    open spec fn bits(self) -> nat {
        self as nat
    }

    open spec fn from_bits(bits: nat) -> u32 {
        bits as u32
    }

    proof fn lemma_bits(self) {
    }

    proof fn lemma_size() {
    }

    fn alignment() -> (r: u32) {
        4
    }

    fn read_from(buf: &[u8]) -> (r: u32) {
        byte_at(buf, 0) as u32 + byte_at(buf, 1) as u32 * 0x100 + byte_at(buf, 2) as u32 * 0x1_0000
            + byte_at(buf, 3) as u32 * 0x100_0000
    }

    fn write_to(self, buf: &mut [u8]) {
        write_bytes(buf, self, 4);
    }
}

impl Primitive for i32 {
    open spec fn size() -> nat {
        4
    }

    open spec fn bits(self) -> nat {
        self as u32 as nat
    }

    open spec fn from_bits(bits: nat) -> i32 {
        bits as u32 as i32
    }

    proof fn lemma_bits(self) {
        let v = self;
        assert(v as u32 as i32 == v) by (bit_vector);
    }

    proof fn lemma_size() {
    }

    fn alignment() -> (r: u32) {
        4
    }

    fn read_from(buf: &[u8]) -> (r: i32) {
        (byte_at(buf, 0) as u32 + byte_at(buf, 1) as u32 * 0x100 + byte_at(buf, 2) as u32
            * 0x1_0000 + byte_at(buf, 3) as u32 * 0x100_0000) as i32
    }

    fn write_to(self, buf: &mut [u8]) {
        write_bytes(buf, self as u32, 4);
    }
}

/// Reading and writing primitives of type `P` in a byte buffer.
pub trait PrimitiveRw<P: Primitive> {
    /// The bytes of this buffer.
    spec fn bytes(&self) -> Seq<u8>;

    /// Reads a primitive from the start of this buffer, completed with zeros where it is short.
    fn read(&self) -> (r: P)
        ensures
            r == P::from_bits(le_value(self.bytes(), P::size())),
    ;

    /// Writes a primitive to the start of this buffer, dropping the bytes that do not fit.
    fn write(&mut self, value: P)
        ensures
            final(self).bytes() == write_le(old(self).bytes(), value.bits(), P::size()),
    ;
}

impl<P: Primitive> PrimitiveRw<P> for [u8] {
    open spec fn bytes(&self) -> Seq<u8> {
        self@
    }

    fn read(&self) -> (r: P) {
        P::read_from(self)
    }

    fn write(&mut self, value: P) {
        value.write_to(self);
    }
}

/// Proof that the little endian bytes of a value below `256^n` give the value back.
proof fn lemma_le_roundtrip(buf: Seq<u8>, value: nat, n: nat)
    requires
        n == 1 || n == 2 || n == 4,
        value < pow256(n),
        buf.len() >= n,
    ensures
        le_value(write_le(buf, value, n), n) == value,
{
    let w = write_le(buf, value, n);
    if n == 1 {
        assert(w[0] == (value % 0x100) as u8);
    } else if n == 2 {
        let v = value as u16;
        assert(w[0] == (value % 0x100) as u8);
        assert(w[1] == ((value / 0x100) % 0x100) as u8);
        assert(v % 0x100 + ((v / 0x100) % 0x100) * 0x100 == v) by (bit_vector);
    } else {
        let v = value as u32;
        assert(w[0] == (value % 0x100) as u8);
        assert(w[1] == ((value / 0x100) % 0x100) as u8);
        assert(w[2] == ((value / 0x1_0000) % 0x100) as u8);
        assert(w[3] == ((value / 0x100_0000) % 0x100) as u8);
        assert(v % 0x100 + ((v / 0x100) % 0x100) * 0x100 + ((v / 0x1_0000) % 0x100) * 0x1_0000
            + ((v / 0x100_0000) % 0x100) * 0x100_0000 == v) by (bit_vector);
    }
}

/// Law: reading a primitive back from a buffer it was just written to, where the buffer is large
/// enough to hold it, gives the written value.
pub proof fn law_read_after_write<P: Primitive>(buf: Seq<u8>, value: P)
    requires
        buf.len() >= P::size(),
    ensures
        P::from_bits(le_value(write_le(buf, value.bits(), P::size()), P::size())) == value,
{
    value.lemma_bits();
    lemma_le_roundtrip(buf, value.bits(), P::size());
}

/// Law: a write changes only the bytes of the buffer the primitive occupies, and never its length.
pub proof fn law_write_keeps_rest<P: Primitive>(buf: Seq<u8>, value: P, i: int)
    requires
        P::size() <= i < buf.len(),
    ensures
        write_le(buf, value.bits(), P::size()).len() == buf.len(),
        write_le(buf, value.bits(), P::size())[i] == buf[i],
{
}


/// The four bytes of `buf` from `offset` on, each zero past the end of `buf`.
pub open spec fn window(buf: Seq<u8>, offset: int) -> Seq<u8> {
    Seq::new(4, |k: int| byte_or_zero(buf, offset + k) as u8)
}

/// The little endian value of the `n` (1, 2 or 4) bytes of `buf` from `offset` on, completed with
/// zeros past its end.
pub open spec fn le_value_at(buf: Seq<u8>, offset: int, n: nat) -> nat {
    le_value(window(buf, offset), n)
}

/// `buf` with its `n` bytes from `offset` on (those that exist) replaced by the little endian
/// bytes of `value`.
pub open spec fn write_le_at(buf: Seq<u8>, offset: int, value: nat, n: nat) -> Seq<u8> {
    Seq::new(
        buf.len(),
        |i: int|
            if offset <= i < offset + n {
                ((value / pow256((i - offset) as nat)) % 0x100) as u8
            } else {
                buf[i]
            },
    )
}

/// The primitive read from `buf` at `offset`.
pub open spec fn read_at_spec<P: Primitive>(buf: Seq<u8>, offset: int) -> P {
    P::from_bits(le_value_at(buf, offset, P::size()))
}

/// Reads a primitive from `buf` at `offset`, completed with zeros where `buf` ends first.
pub fn read_at<P: Primitive>(buf: &[u8], offset: usize) -> (r: P)
    requires
        offset < 0x1000_0000,
    ensures
        r == read_at_spec::<P>(buf@, offset as int),
{
    let mut tmp: Vec<u8> = Vec::new();
    let mut k: usize = 0;
    while k < 4
        invariant
            k <= 4,
            offset < 0x1000_0000,
            tmp@.len() == k,
            forall|j: int| 0 <= j < k ==> #[trigger] tmp@[j] == window(buf@, offset as int)[j],
        decreases 4 - k,
    {
        tmp.push(byte_at(buf, offset + k));
        k += 1;
    }
    proof {
        assert(tmp@ =~= window(buf@, offset as int));
    }
    P::read_from(tmp.as_slice())
}

/// Writes a primitive to `buf` at `offset`, dropping the bytes that fall past its end.
pub fn write_at<P: Primitive>(buf: &mut Vec<u8>, offset: usize, value: P)
    requires
        offset < 0x1000_0000,
    ensures
        final(buf)@ == write_le_at(old(buf)@, offset as int, value.bits(), P::size()),
{
    proof {
        value.lemma_bits();
    }
    let n = P::alignment() as usize;
    let mut tmp: Vec<u8> = vec![0u8; 4];
    value.write_to(tmp.as_mut_slice());
    let ghost bytes = tmp@;
    assert(bytes == write_le(Seq::new(4, |_i: int| 0u8), value.bits(), P::size()));
    let mut k: usize = 0;
    while k < n
        invariant
            k <= n,
            n == P::size(),
            offset < 0x1000_0000,
            tmp@ == bytes,
            bytes.len() == 4,
            n <= 4,
            forall|j: int| 0 <= j < n ==> #[trigger] bytes[j] == ((value.bits() / pow256(j as nat)) % 0x100) as u8,
            buf@.len() == old(buf)@.len(),
            forall|i: int|
                0 <= i < buf@.len() ==> #[trigger] buf@[i] == (if offset <= i < offset + k {
                    ((value.bits() / pow256((i - offset) as nat)) % 0x100) as u8
                } else {
                    old(buf)@[i]
                }),
        decreases n - k,
    {
        if offset + k < buf.len() {
            buf[offset + k] = tmp[k];
        }
        k += 1;
    }
    proof {
        assert(buf@ =~= write_le_at(old(buf)@, offset as int, value.bits(), P::size()));
    }
}

/// The four little endian bytes of `v`.
pub open spec fn le_bytes(v: u32) -> Seq<u8> {
    write_le(Seq::new(4, |_i: int| 0u8), v as nat, 4)
}

/// The primitive read from the register value `reg` at byte `offset`.
pub open spec fn reg_read_spec<P: Primitive>(reg: u32, offset: int) -> P {
    read_at_spec::<P>(le_bytes(reg), offset)
}

/// The register value `reg` with the bytes of `value` written at byte `offset`, those that fit.
pub open spec fn reg_write_spec<P: Primitive>(reg: u32, offset: int, value: P) -> u32 {
    le_value(write_le_at(le_bytes(reg), offset, value.bits(), P::size()), 4) as u32
}

/// Reads a primitive from the bytes of a register value, at byte `offset`.
pub fn reg_read<P: Primitive>(reg: u32, offset: usize) -> (r: P)
    requires
        offset < 4,
    ensures
        r == reg_read_spec::<P>(reg, offset as int),
{
    let mut tmp: Vec<u8> = vec![0u8; 4];
    reg.write_to(tmp.as_mut_slice());
    assert(tmp@ =~= le_bytes(reg));
    read_at(tmp.as_slice(), offset)
}

/// Writes a primitive into the bytes of a register value, at byte `offset`; the bytes that would
/// fall past the register are dropped.
pub fn reg_write<P: Primitive>(reg: u32, offset: usize, value: P) -> (r: u32)
    requires
        offset < 4,
    ensures
        r == reg_write_spec::<P>(reg, offset as int, value),
{
    let mut tmp: Vec<u8> = vec![0u8; 4];
    reg.write_to(tmp.as_mut_slice());
    assert(tmp@ =~= le_bytes(reg));
    write_at(&mut tmp, offset, value);
    let r = u32::read_from(tmp.as_slice());
    r
}

/// Law: reading a primitive back at the offset it was just written to, where the buffer holds
/// all of its bytes, gives the written value.
pub proof fn law_read_at_after_write_at<P: Primitive>(buf: Seq<u8>, offset: int, value: P)
    requires
        0 <= offset,
        offset + P::size() <= buf.len(),
    ensures
        read_at_spec::<P>(write_le_at(buf, offset, value.bits(), P::size()), offset) == value,
{
    value.lemma_bits();
    let n = P::size();
    let w = window(write_le_at(buf, offset, value.bits(), n), offset);
    let ww = write_le(window(buf, offset), value.bits(), n);
    assert forall|k: int| 0 <= k < n implies #[trigger] w[k] == ww[k] by {
        assert(byte_or_zero(write_le_at(buf, offset, value.bits(), n), offset + k) == ((value.bits() / pow256(k as nat)) % 0x100) as u8 as nat);
    }
    assert(le_value(w, n) == le_value(ww, n));
    lemma_le_roundtrip(window(buf, offset), value.bits(), n);
}

/// Law: a write at an offset changes no byte outside the ones the primitive occupies, and never
/// the length of the buffer.
pub proof fn law_write_at_keeps_rest<P: Primitive>(buf: Seq<u8>, offset: int, value: P, i: int)
    requires
        0 <= i < buf.len(),
        i < offset || offset + P::size() <= i,
    ensures
        write_le_at(buf, offset, value.bits(), P::size()).len() == buf.len(),
        write_le_at(buf, offset, value.bits(), P::size())[i] == buf[i],
{
}

} // verus!
