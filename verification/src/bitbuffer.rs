//! Strings of bits, written and read from the most significant bit on.
use vstd::arithmetic::power2::*;
use vstd::prelude::*;

verus! {

/// The number that the bits stand for, the most significant one first.
pub open spec fn number(bits: Seq<bool>) -> nat
    decreases bits.len(),
{
    if bits.len() == 0 {
        0
    } else {
        2 * number(bits.drop_last()) + if bits.last() {
            1nat
        } else {
            0
        }
    }
}

/// The low `n` bits of a number, the most significant one first.
pub open spec fn digits(value: nat, n: nat) -> Seq<bool>
    decreases n,
{
    if n == 0 {
        Seq::empty()
    } else {
        digits(value / 2, (n - 1) as nat).push(value % 2 == 1)
    }
}

/// What is read is what was written, as far as it fits the width.
pub proof fn law_number_is_read_back(value: nat, n: nat)
    requires
        value < pow2(n),
    ensures
        digits(value, n).len() == n,
        number(digits(value, n)) == value,
    decreases n,
{
    lemma2_to64();
    if n > 0 {
        lemma_pow2_unfold(n);
        law_number_is_read_back(value / 2, (n - 1) as nat);
        let rest = digits(value / 2, (n - 1) as nat);
        assert(rest.push(value % 2 == 1).drop_last() =~= rest);
    }
}

/// Bits that were read can be written again.
pub proof fn law_digits_are_read_back(bits: Seq<bool>)
    ensures
        digits(number(bits), bits.len()) == bits,
        number(bits) < pow2(bits.len()),
    decreases bits.len(),
{
    lemma2_to64();
    if bits.len() > 0 {
        lemma_pow2_unfold(bits.len());
        law_digits_are_read_back(bits.drop_last());
        assert(bits.drop_last().push(bits.last()) =~= bits);
    } else {
        assert(digits(0, 0) =~= bits);
    }
}

/// As many bits are written as were asked for.
pub proof fn lemma_digits_len(value: nat, n: nat)
    ensures
        digits(value, n).len() == n,
    decreases n,
{
    if n > 0 {
        lemma_digits_len(value / 2, (n - 1) as nat);
    }
}

/// Whether bit `index` of a byte is set, counted from the most significant one.
pub open spec fn bit_of(byte: u8, index: int) -> bool {
    (byte >> ((7 - index) as u8)) & 1 == 1
}

/// Bit `index` of a string of bytes.
pub open spec fn byte_bit(bytes: Seq<u8>, index: int) -> bool {
    bit_of(bytes[index / 8], index % 8)
}

/// A string of bits with a place at which it is read and written.
#[derive(Debug, Clone)]
pub struct BitBuffer {
    bits: Vec<bool>,
    pos: usize,
}

/// The model of a buffer.
#[verifier::ext_equal]
pub ghost struct BitsView {
    pub bits: Seq<bool>,
    pub pos: int,
}

impl View for BitBuffer {
    type V = BitsView;

    closed spec fn view(&self) -> BitsView {
        BitsView { bits: self.bits@, pos: self.pos as int }
    }
}

impl BitsView {
    /// The place lies within the bits.
    pub open spec fn wf(self) -> bool {
        0 <= self.pos <= self.bits.len()
    }

    /// The bits from the place on.
    pub open spec fn rest(self) -> Seq<bool> {
        self.bits.subrange(self.pos, self.bits.len() as int)
    }

    /// With `more` written at the end.
    pub open spec fn appended(self, more: Seq<bool>) -> BitsView {
        BitsView { bits: self.bits + more, pos: self.pos + more.len() }
    }

    /// With the bits from `start` on exchanged for those of a mask.
    pub open spec fn masked(self, start: int, len: int, mask: spec_fn(int) -> bool) -> Seq<bool> {
        Seq::new(
            self.bits.len(),
            |i: int|
                if start <= i < start + len {
                    self.bits[i] != mask(i - start)
                } else {
                    self.bits[i]
                },
        )
    }
}

/// Masking twice restores the bits.
pub proof fn law_mask_undoes_itself(
    buffer: BitsView,
    start: int,
    len: int,
    mask: spec_fn(int) -> bool,
)
    ensures
        (BitsView { bits: buffer.masked(start, len, mask), pos: buffer.pos }).masked(
            start,
            len,
            mask,
        ) == buffer.bits,
{
    let once = BitsView { bits: buffer.masked(start, len, mask), pos: buffer.pos };
    assert(once.masked(start, len, mask) =~= buffer.bits);
}

impl BitBuffer {
    /// `len` bits that are not set.
    pub fn new(len: usize) -> (buffer: Self)
        ensures
            buffer@.bits == Seq::new(len as nat, |i: int| false),
            buffer@.pos == 0,
    {
        let mut bits: Vec<bool> = Vec::new();
        let mut i: usize = 0;
        while i < len
            invariant
                i <= len,
                bits@ == Seq::new(i as nat, |j: int| false),
            decreases len - i,
        {
            bits.push(false);
            i = i + 1;
            assert(bits@ =~= Seq::new(i as nat, |j: int| false));
        }
        BitBuffer { bits, pos: 0 }
    }

    /// No bits yet.
    pub fn empty() -> (buffer: Self)
        ensures
            buffer@.bits == Seq::<bool>::empty(),
            buffer@.pos == 0,
    {
        BitBuffer { bits: Vec::new(), pos: 0 }
    }

    /// These bits.
    pub fn from_bits(bits: Vec<bool>) -> (buffer: Self)
        ensures
            buffer@.bits == bits@,
            buffer@.pos == 0,
    {
        BitBuffer { bits, pos: 0 }
    }

    /// The bits of these bytes.
    pub fn from_bytes(bytes: &Vec<u8>) -> (buffer: Self)
        requires
            bytes@.len() * 8 <= usize::MAX,
        ensures
            buffer@.bits == Seq::new(bytes@.len() * 8, |i: int| byte_bit(bytes@, i)),
            buffer@.pos == 0,
    {
        let mut bits: Vec<bool> = Vec::new();
        let len: usize = bytes.len() * 8;
        let mut i: usize = 0;
        while i < len
            invariant
                i <= len,
                len == bytes@.len() * 8,
                bits@ == Seq::new(i as nat, |j: int| byte_bit(bytes@, j)),
            decreases len - i,
        {
            bits.push(get_bit(bytes, i));
            i = i + 1;
            assert(bits@ =~= Seq::new(i as nat, |j: int| byte_bit(bytes@, j)));
        }
        assert(bits@ =~= Seq::new(bytes@.len() * 8, |j: int| byte_bit(bytes@, j)));
        BitBuffer { bits, pos: 0 }
    }

    /// The number of bits.
    pub fn get_len(&self) -> (len: usize)
        ensures
            len == self@.bits.len(),
    {
        self.bits.len()
    }

    /// The place.
    pub fn get_pos(&self) -> (pos: usize)
        ensures
            pos == self@.pos,
    {
        self.pos
    }

    /// The number of bits from the place on.
    pub fn get_len_remaining(&self) -> (len: usize)
        ensures
            len == if self@.wf() {
                self@.rest().len()
            } else {
                0
            },
    {
        if self.pos <= self.bits.len() {
            self.bits.len() - self.pos
        } else {
            0
        }
    }

    /// Moves the place.
    pub fn seek(&mut self, pos: usize)
        ensures
            final(self)@ == (BitsView { bits: old(self)@.bits, pos: pos as int }),
    {
        self.pos = pos;
    }

    /// The bits.
    pub fn to_bits(&self) -> (bits: Vec<bool>)
        ensures
            bits@ == self@.bits,
    {
        let mut bits: Vec<bool> = Vec::new();
        let mut i: usize = 0;
        while i < self.bits.len()
            invariant
                i <= self.bits@.len(),
                bits@ == self.bits@.take(i as int),
            decreases self.bits@.len() - i,
        {
            bits.push(self.bits[i]);
            i = i + 1;
            assert(bits@ =~= self.bits@.take(i as int));
        }
        assert(bits@ =~= self@.bits);
        bits
    }

    /// Writes the low `n` bits of `value` at the end, where the place must be.
    pub fn write_bits(&mut self, value: u64, n: usize)
        requires
            old(self)@.pos == old(self)@.bits.len(),
            n <= 64,
            old(self)@.bits.len() + n <= usize::MAX,
        ensures
            final(self)@ == old(self)@.appended(digits(value as nat, n as nat)),
            final(self)@.pos == old(self)@.pos + n,
            final(self)@.bits.len() == old(self)@.bits.len() + n,
    {
        let ghost before = self@;
        proof {
            lemma_digits_len(value as nat, n as nat);
        }
        self.write_from(value, n);
        self.pos = self.bits.len();
        assert(self@.bits =~= before.bits + digits(value as nat, n as nat));
    }

    fn write_from(&mut self, value: u64, n: usize)
        requires
            n <= 64,
            old(self)@.bits.len() + n <= usize::MAX,
        ensures
            final(self)@.bits == old(self)@.bits + digits(value as nat, n as nat),
            final(self)@.pos == old(self)@.pos,
        decreases n,
    {
        if n == 0 {
            assert(self@.bits =~= self@.bits + digits(value as nat, 0));
            return;
        }
        let ghost before = self@.bits;
        self.write_from(value / 2, n - 1);
        proof {
            lemma_digits_len((value / 2) as nat, (n - 1) as nat);
        }
        self.bits.push(value % 2 == 1);
        assert(self@.bits =~= before + digits(value as nat, n as nat));
    }

    /// Writes one bit at the end, where the place must be.
    pub fn write_bit(&mut self, bit: bool)
        requires
            old(self)@.pos == old(self)@.bits.len(),
            old(self)@.bits.len() < usize::MAX,
        ensures
            final(self)@ == old(self)@.appended(seq![bit]),
            final(self)@.pos == old(self)@.pos + 1,
            final(self)@.bits.len() == old(self)@.bits.len() + 1,
    {
        let ghost before = self@;
        self.bits.push(bit);
        self.pos = self.pos + 1;
        assert(self@.bits =~= before.bits + seq![bit]);
    }

    /// Reads the next `n` bits as a number without moving the place; none where
    /// there are fewer.
    pub fn peek_bits(&self, n: usize) -> (value: Option<u64>)
        requires
            n <= 64,
        ensures
            match value {
                Some(v) => self@.pos + n <= self@.bits.len() && v == number(
                    self@.bits.subrange(self@.pos, self@.pos + n),
                ),
                None => self@.pos + n > self@.bits.len(),
            },
    {
        let total: usize = self.bits.len();
        if self.pos > total || n > total - self.pos {
            return None;
        }
        let mut value: u64 = 0;
        let mut i: usize = 0;
        proof {
            lemma2_to64();
        }
        while i < n
            invariant
                i <= n <= 64,
                self.pos + n <= total,
                total == self.bits@.len(),
                value == number(self.bits@.subrange(self.pos as int, self.pos + i)),
                value < pow2(i as nat),
            decreases n - i,
        {
            let bit: bool = self.bits[self.pos + i];
            proof {
                let next = self.bits@.subrange(self.pos as int, self.pos + i + 1);
                assert(next.drop_last() =~= self.bits@.subrange(self.pos as int, self.pos + i));
                lemma_pow2_unfold((i + 1) as nat);
                lemma2_to64_rest();
                lemma2_to64();
                lemma_pow2_at_most(i as nat);
            }
            value = 2 * value + if bit {
                1
            } else {
                0
            };
            i = i + 1;
        }
        Some(value)
    }

    /// Reads the next `n` bits as a number; none, and the place stays, where
    /// there are fewer.
    pub fn read_bits(&mut self, n: usize) -> (value: Option<u64>)
        requires
            n <= 64,
        ensures
            match value {
                Some(v) => old(self)@.pos + n <= old(self)@.bits.len() && v == number(
                    old(self)@.bits.subrange(old(self)@.pos, old(self)@.pos + n),
                ) && final(self)@ == (BitsView {
                    bits: old(self)@.bits,
                    pos: old(self)@.pos + n,
                }),
                None => old(self)@.pos + n > old(self)@.bits.len() && final(self)@ == old(self)@,
            },
    {
        let value: Option<u64> = self.peek_bits(n);
        let total: usize = self.bits.len();
        if value.is_some() {
            assert(self.pos + n <= total);
            self.pos = self.pos + n;
        }
        value
    }

    /// Exchanges the `len` bits from the place on for those of the bytes from
    /// byte `skip` on; none, and nothing changes, where there are fewer.
    pub fn xor_bytearr(&mut self, bytes: &Vec<u8>, skip: usize, len: usize) -> (done: Option<()>)
        requires
            skip * 8 + len <= usize::MAX,
            skip * 8 + len <= bytes@.len() * 8,
        ensures
            match done {
                Some(_) => {
                    &&& old(self)@.pos + len <= old(self)@.bits.len()
                    &&& final(self)@.bits == old(self)@.masked(
                        old(self)@.pos,
                        len as int,
                        |i: int| byte_bit(bytes@, skip * 8 + i),
                    )
                    &&& final(self)@.pos == old(self)@.pos + len
                },
                None => old(self)@.pos + len > old(self)@.bits.len() && final(self)@ == old(self)@,
            },
    {
        let total: usize = self.bits.len();
        if self.pos > total || len > total - self.pos {
            return None;
        }
        let ghost before = self@;
        let ghost mask = |i: int| byte_bit(bytes@, skip * 8 + i);
        let start: usize = self.pos;
        let mut i: usize = 0;
        while i < len
            invariant
                i <= len,
                start == before.pos,
                start + len <= total,
                total == before.bits.len(),
                self.pos == start,
                self.bits@.len() == before.bits.len(),
                skip * 8 + len <= usize::MAX,
                skip * 8 + len <= bytes@.len() * 8,
                mask == (|j: int| byte_bit(bytes@, skip * 8 + j)),
                self.bits@ == before.masked(start as int, i as int, mask),
            decreases len - i,
        {
            let bit: bool = get_bit(bytes, skip * 8 + i);
            let current: bool = self.bits[start + i];
            self.bits.set(start + i, current != bit);
            i = i + 1;
            assert(self.bits@ =~= before.masked(start as int, i as int, mask));
        }
        assert(before.masked(start as int, 0, mask) =~= before.bits);
        self.pos = start + len;
        Some(())
    }
}

proof fn lemma_pow2_at_most(n: nat)
    requires
        n < 64,
    ensures
        2 * pow2(n) <= 0x1_0000_0000_0000_0000,
{
    lemma2_to64();
    lemma2_to64_rest();
    if n < 63 {
        lemma_pow2_strictly_increases(n, 63);
    }
}

/// Bit `index` of a string of bytes.
pub fn get_bit(bytes: &Vec<u8>, index: usize) -> (bit: bool)
    requires
        index < bytes@.len() * 8,
    ensures
        bit == byte_bit(bytes@, index as int),
{
    let shift: u8 = (7 - index % 8) as u8;
    (bytes[index / 8] >> shift) & 1 == 1
}

/// The byte with these bits, the most significant one first.
pub fn byte_of(
    b0: bool,
    b1: bool,
    b2: bool,
    b3: bool,
    b4: bool,
    b5: bool,
    b6: bool,
    b7: bool,
) -> (byte: u8)
    ensures
        bit_of(byte, 0) == b0,
        bit_of(byte, 1) == b1,
        bit_of(byte, 2) == b2,
        bit_of(byte, 3) == b3,
        bit_of(byte, 4) == b4,
        bit_of(byte, 5) == b5,
        bit_of(byte, 6) == b6,
        bit_of(byte, 7) == b7,
{
    let byte: u8 = (if b0 { 128u8 } else { 0u8 }) | (if b1 { 64u8 } else { 0u8 }) | (if b2 {
        32u8
    } else {
        0u8
    }) | (if b3 { 16u8 } else { 0u8 }) | (if b4 { 8u8 } else { 0u8 }) | (if b5 {
        4u8
    } else {
        0u8
    }) | (if b6 { 2u8 } else { 0u8 }) | (if b7 { 1u8 } else { 0u8 });
    proof {
        lemma_byte_of(b0, b1, b2, b3, b4, b5, b6, b7, byte);
    }
    byte
}

proof fn lemma_byte_of(
    b0: bool,
    b1: bool,
    b2: bool,
    b3: bool,
    b4: bool,
    b5: bool,
    b6: bool,
    b7: bool,
    byte: u8,
)
    by (bit_vector)
    requires
        byte == (if b0 { 128u8 } else { 0u8 }) | (if b1 { 64u8 } else { 0u8 }) | (if b2 {
            32u8
        } else {
            0u8
        }) | (if b3 { 16u8 } else { 0u8 }) | (if b4 { 8u8 } else { 0u8 }) | (if b5 {
            4u8
        } else {
            0u8
        }) | (if b6 { 2u8 } else { 0u8 }) | (if b7 { 1u8 } else { 0u8 }),
    ensures
        ((byte >> 7u8) & 1 == 1) == b0,
        ((byte >> 6u8) & 1 == 1) == b1,
        ((byte >> 5u8) & 1 == 1) == b2,
        ((byte >> 4u8) & 1 == 1) == b3,
        ((byte >> 3u8) & 1 == 1) == b4,
        ((byte >> 2u8) & 1 == 1) == b5,
        ((byte >> 1u8) & 1 == 1) == b6,
        ((byte >> 0u8) & 1 == 1) == b7,
{
}


impl BitBuffer {
    /// The bits as bytes; what is missing to a whole byte is not set.
    pub fn to_bytes(&self) -> (bytes: Vec<u8>)
        ensures
            bytes@.len() == (self@.bits.len() + 7) / 8,
            forall|i: int|
                0 <= i < bytes@.len() * 8 ==> #[trigger] byte_bit(bytes@, i) == (i
                    < self@.bits.len() && self@.bits[i]),
    {
        let mut bytes: Vec<u8> = Vec::new();
        let total: usize = self.bits.len();
        let count: usize = if total % 8 == 0 {
            total / 8
        } else {
            total / 8 + 1
        };
        let mut n: usize = 0;
        while n < count
            invariant
                n <= count,
                count == (total + 7) / 8,
                total == self.bits@.len(),
                bytes@.len() == n,
                forall|i: int|
                    0 <= i < n * 8 ==> #[trigger] byte_bit(bytes@, i) == (i < total
                        && self.bits@[i]),
            decreases count - n,
        {
            let byte: u8 = byte_of(
                self.bit_or_clear(n, 0),
                self.bit_or_clear(n, 1),
                self.bit_or_clear(n, 2),
                self.bit_or_clear(n, 3),
                self.bit_or_clear(n, 4),
                self.bit_or_clear(n, 5),
                self.bit_or_clear(n, 6),
                self.bit_or_clear(n, 7),
            );
            let ghost before = bytes@;
            bytes.push(byte);
            proof {
                assert forall|i: int| 0 <= i < (n + 1) * 8 implies #[trigger] byte_bit(bytes@, i)
                    == (i < total && self.bits@[i]) by {
                    if i < n * 8 {
                        assert(i / 8 < n);
                        assert(byte_bit(before, i) == (i < total && self.bits@[i]));
                    } else {
                        assert(i / 8 == n);
                        assert(i == n * 8 + i % 8);
                    }
                }
            }
            n = n + 1;
        }
        bytes
    }

    fn bit_or_clear(&self, byte: usize, index: usize) -> (bit: bool)
        requires
            index < 8,
            byte <= self@.bits.len() / 8,
        ensures
            bit == (byte * 8 + index < self@.bits.len() && self@.bits[byte * 8 + index]),
    {
        let total: usize = self.bits.len();
        let whole: usize = total / 8;
        if byte < whole || index < total % 8 {
            self.bits[byte * 8 + index]
        } else {
            false
        }
    }
}

} // verus!
