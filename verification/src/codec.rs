//! Field packing shared by the instruction sets: a word holds an 8-bit opcode
//! in its low byte and, above it, the operand fields in declared order with no
//! gaps between them.
use vstd::prelude::*;
use vstd::arithmetic::power2::pow2;
use vstd::arithmetic::power2::lemma2_to64;

verus! {

/// Number of bits in an instruction word.
pub const WORD_BITS: u32 = 32;

/// Number of low-order bits that hold the opcode.
pub const OPCODE_BITS: u32 = 8;

/// What a decoder can object to.
#[derive(Debug, Clone, Copy, PartialEq, Eq, Structural)]
pub enum DecodeError {
    /// The low byte of the word is no instruction's opcode.
    UnknownOpcode(u8),
    /// A register field holds an index that names no register.
    InvalidRegister(u32),
}

/// What the construction of an immediate can object to.
#[derive(Debug, Clone, Copy, PartialEq, Eq, Structural)]
pub enum OperandError {
    /// The value (first) is not representable in the given number of bits (second).
    ImmediateOutOfRange(i32, u32),
}

/// The kind of operand a field carries.
#[derive(Debug, Clone, Copy, PartialEq, Eq, Structural)]
pub enum FieldKind {
    Register,
    Immediate,
}

/// One operand field of an instruction word.
#[derive(Debug, Clone, Copy, PartialEq, Eq)]
pub struct Field {
    pub name: &'static str,
    pub width: u32,
    pub kind: FieldKind,
}

/// The layout of one instruction: its opcode and its fields in packing order.
#[derive(Debug, PartialEq, Eq)]
pub struct SchemaEntry {
    pub opcode: u8,
    pub fields: Vec<Field>,
}

/// The pattern whose low `width` bits are set.
pub open spec fn mask(width: u32) -> u32 {
    if width >= 32 {
        0xffff_ffffu32
    } else {
        ((1u32 << width) - 1) as u32
    }
}

/// `value` cut to `width` bits and moved up to bit `offset`.
pub open spec fn place(value: u32, offset: u32, width: u32) -> u32 {
    (value & mask(width)) << offset
}

/// The `width` bits of `word` that start at bit `offset`.
pub open spec fn extract(word: u32, offset: u32, width: u32) -> u32 {
    (word >> offset) & mask(width)
}

/// Bit offset of field `n`: the opcode's width plus the widths of the fields before it.
pub open spec fn offset_of(fields: Seq<Field>, n: int) -> int
    decreases n,
{
    if n <= 0 {
        OPCODE_BITS as int
    } else {
        offset_of(fields, n - 1) + fields[n - 1].width
    }
}

/// Every field has at least one bit, and opcode and fields together fit the word.
pub open spec fn layout_fits(fields: Seq<Field>) -> bool {
    &&& forall|i: int| 0 <= i < fields.len() ==> 1 <= #[trigger] fields[i].width
    &&& offset_of(fields, fields.len() as int) <= WORD_BITS
}

/// The word that holds `opcode` and the first `n` of `values`, each in its field.
pub open spec fn packed(opcode: u8, fields: Seq<Field>, values: Seq<u32>, n: int) -> u32
    decreases n,
{
    if n <= 0 {
        opcode as u32
    } else {
        packed(opcode, fields, values, n - 1) | place(
            values[n - 1],
            offset_of(fields, n - 1) as u32,
            fields[n - 1].width,
        )
    }
}

/// The contents of all fields of `word`, in declared order.
pub open spec fn unpacked(fields: Seq<Field>, word: u32) -> Seq<u32> {
    Seq::new(fields.len(), |i: int| extract(word, offset_of(fields, i) as u32, fields[i].width))
}

/// The opcode that `word` carries.
pub open spec fn opcode_of(word: u32) -> u8 {
    (word & 0xff) as u8
}

/// Each value already fits its field.
pub open spec fn values_fit(fields: Seq<Field>, values: Seq<u32>) -> bool {
    &&& values.len() == fields.len()
    &&& forall|i: int|
        0 <= i < fields.len() ==> (#[trigger] values[i]) & mask(fields[i].width) == values[i]
}

impl SchemaEntry {
    /// The entry's layout fits the word.
    pub open spec fn wf(&self) -> bool {
        layout_fits(self.fields@)
    }
}


/// Offsets never shrink along the fields, whatever the widths are.
pub proof fn lemma_offsets_monotone(fields: Seq<Field>, i: int, j: int)
    requires
        0 <= i <= j,
    ensures
        OPCODE_BITS <= offset_of(fields, i) <= offset_of(fields, j),
    decreases j,
{
    if i < j {
        lemma_offsets_monotone(fields, i, j - 1);
    } else if i > 0 {
        lemma_offsets_monotone(fields, i - 1, i - 1);
    }
}

/// Offsets grow along the fields: a field ends where a later one begins, or before.
pub proof fn lemma_offsets_ordered(fields: Seq<Field>, i: int, j: int)
    requires
        0 <= i <= j <= fields.len(),
        forall|k: int| 0 <= k < fields.len() ==> 1 <= #[trigger] fields[k].width,
    ensures
        8 <= offset_of(fields, i) <= offset_of(fields, j),
        i < j ==> offset_of(fields, i) + fields[i].width <= offset_of(fields, j),
    decreases j,
{
    if i < j {
        lemma_offsets_ordered(fields, i, j - 1);
    } else if i > 0 {
        lemma_offsets_ordered(fields, i - 1, i - 1);
    }
}

proof fn lemma_place_keeps_high_clear(a: u32, v: u32, off: u32, w: u32)
    by (bit_vector)
    requires
        off < 32,
        w <= 32,
        off + w <= 32,
        a >> off == 0,
    ensures
        off + w >= 32 || (a | place(v, off, w)) >> ((off + w) as u32) == 0,
{
}

proof fn lemma_place_keeps_lower(a: u32, v: u32, off: u32, w: u32, off_j: u32, w_j: u32)
    by (bit_vector)
    requires
        off < 32,
        w_j <= 32,
        off_j + w_j <= off,
    ensures
        extract(a | place(v, off, w), off_j, w_j) == extract(a, off_j, w_j),
{
}

proof fn lemma_place_then_extract(a: u32, v: u32, off: u32, w: u32)
    by (bit_vector)
    requires
        off < 32,
        w <= 32,
        off + w <= 32,
        a >> off == 0,
    ensures
        extract(a | place(v, off, w), off, w) == v & mask(w),
{
}

proof fn lemma_place_keeps_opcode(a: u32, v: u32, off: u32, w: u32)
    by (bit_vector)
    requires
        8 <= off < 32,
    ensures
        (a | place(v, off, w)) & 0xff == a & 0xff,
{
}

proof fn lemma_opcode_word(opcode: u8)
    by (bit_vector)
    ensures
        ((opcode as u32) & 0xff) as u8 == opcode,
        (opcode as u32) >> 8 == 0,
{
}

/// Nothing is set in a packed word at or above the end of its last field.
pub open spec fn clear_from(word: u32, offset: int) -> bool {
    offset >= WORD_BITS || word >> (offset as u32) == 0
}

/// What holds of the word after `n` fields were packed: the opcode is in
/// place, each packed field reads back as the value cut to its width, and the
/// bits above are clear.
pub proof fn lemma_packed(opcode: u8, fields: Seq<Field>, values: Seq<u32>, n: int)
    requires
        layout_fits(fields),
        values.len() == fields.len(),
        0 <= n <= fields.len(),
    ensures
        opcode_of(packed(opcode, fields, values, n)) == opcode,
        clear_from(packed(opcode, fields, values, n), offset_of(fields, n)),
        forall|j: int|
            0 <= j < n ==> #[trigger] extract(
                packed(opcode, fields, values, n),
                offset_of(fields, j) as u32,
                fields[j].width,
            ) == values[j] & mask(fields[j].width),
    decreases n,
{
    if n <= 0 {
        lemma_opcode_word(opcode);
    } else {
        lemma_packed(opcode, fields, values, n - 1);
        lemma_offsets_ordered(fields, n - 1, n);
        lemma_offsets_ordered(fields, n, fields.len() as int);
        let a = packed(opcode, fields, values, n - 1);
        let v = values[n - 1];
        let off = offset_of(fields, n - 1) as u32;
        let w = fields[n - 1].width;
        let b = packed(opcode, fields, values, n);
        assert(b == a | place(v, off, w));
        lemma_place_keeps_high_clear(a, v, off, w);
        lemma_place_then_extract(a, v, off, w);
        lemma_place_keeps_opcode(a, v, off, w);
        assert forall|j: int| 0 <= j < n implies #[trigger] extract(
            b,
            offset_of(fields, j) as u32,
            fields[j].width,
        ) == values[j] & mask(fields[j].width) by {
            if j < n - 1 {
                lemma_offsets_ordered(fields, j, n - 1);
                lemma_place_keeps_lower(
                    a,
                    v,
                    off,
                    w,
                    offset_of(fields, j) as u32,
                    fields[j].width,
                );
            }
        }
    }
}

/// Unpacking a packed word gives back the opcode and, where each value fits
/// its field, the values.
pub proof fn lemma_unpack_packed(opcode: u8, fields: Seq<Field>, values: Seq<u32>)
    requires
        layout_fits(fields),
        values_fit(fields, values),
    ensures
        opcode_of(packed(opcode, fields, values, fields.len() as int)) == opcode,
        unpacked(fields, packed(opcode, fields, values, fields.len() as int)) == values,
{
    lemma_packed(opcode, fields, values, fields.len() as int);
    assert(unpacked(fields, packed(opcode, fields, values, fields.len() as int)) =~= values);
}

/// Computes [`mask`].
pub fn mask_of(width: u32) -> (m: u32)
    ensures
        m == mask(width),
{
    if width >= 32 {
        0xffff_ffffu32
    } else {
        assert((1u32 << width) >= 1) by (bit_vector)
            requires
                width < 32,
        ;
        (1u32 << width) - 1
    }
}

/// Computes [`place`].
pub fn place_bits(value: u32, offset: u32, width: u32) -> (bits: u32)
    requires
        offset < 32,
    ensures
        bits == place(value, offset, width),
{
    (value & mask_of(width)) << offset
}

/// Computes [`extract`].
pub fn extract_bits(word: u32, offset: u32, width: u32) -> (bits: u32)
    requires
        offset < 32,
    ensures
        bits == extract(word, offset, width),
        bits & mask(width) == bits,
{
    let m = mask_of(width);
    let x = word >> offset;
    assert((x & m) & m == x & m) by (bit_vector);
    x & m
}

/// Packs the opcode and one value per field into a word: the opcode in the
/// low byte, each value cut to its field's width at the field's offset, and
/// nothing above the last field.
pub fn pack(entry: &SchemaEntry, values: &Vec<u32>) -> (word: u32)
    requires
        entry.wf(),
        values.len() == entry.fields.len(),
    ensures
        word == packed(entry.opcode, entry.fields@, values@, entry.fields@.len() as int),
        opcode_of(word) == entry.opcode,
        clear_from(word, offset_of(entry.fields@, entry.fields@.len() as int)),
        forall|j: int|
            0 <= j < entry.fields@.len() ==> #[trigger] extract(
                word,
                offset_of(entry.fields@, j) as u32,
                entry.fields@[j].width,
            ) == values@[j] & mask(entry.fields@[j].width),
{
    proof {
        lemma_packed(entry.opcode, entry.fields@, values@, entry.fields@.len() as int);
    }
    let mut word: u32 = entry.opcode as u32;
    let mut offset: u32 = OPCODE_BITS;
    let mut i: usize = 0;
    while i < entry.fields.len()
        invariant
            entry.wf(),
            values.len() == entry.fields.len(),
            i <= entry.fields.len(),
            offset == offset_of(entry.fields@, i as int),
            word == packed(entry.opcode, entry.fields@, values@, i as int),
        decreases entry.fields.len() - i,
    {
        let width = entry.fields[i].width;
        proof {
            lemma_offsets_ordered(entry.fields@, i as int, i + 1);
            lemma_offsets_ordered(entry.fields@, i + 1, entry.fields@.len() as int);
        }
        word = word | place_bits(values[i], offset, width);
        offset = offset + width;
        i = i + 1;
    }
    word
}

/// Reads every field of `word`, in declared order.
pub fn unpack(entry: &SchemaEntry, word: u32) -> (values: Vec<u32>)
    requires
        entry.wf(),
    ensures
        values@ == unpacked(entry.fields@, word),
{
    let mut values: Vec<u32> = Vec::new();
    let mut offset: u32 = OPCODE_BITS;
    let mut i: usize = 0;
    while i < entry.fields.len()
        invariant
            entry.wf(),
            i <= entry.fields.len(),
            offset == offset_of(entry.fields@, i as int),
            values@ == unpacked(entry.fields@, word).take(i as int),
        decreases entry.fields.len() - i,
    {
        let width = entry.fields[i].width;
        proof {
            lemma_offsets_ordered(entry.fields@, i as int, i + 1);
            lemma_offsets_ordered(entry.fields@, i + 1, entry.fields@.len() as int);
        }
        values.push(extract_bits(word, offset, width));
        offset = offset + width;
        i = i + 1;
        assert(values@ =~= unpacked(entry.fields@, word).take(i as int));
    }
    assert(values@ =~= unpacked(entry.fields@, word));
    values
}

/// The opcode in the low byte of `word`.
pub fn opcode_bits(word: u32) -> (opcode: u8)
    ensures
        opcode == opcode_of(word),
{
    assert(word & 0xff <= 0xff) by (bit_vector);
    (word & 0xff) as u8
}

/// An operand that travels in a field of an instruction word as a raw
/// unsigned value.
pub trait Codec: Sized {
    /// The raw value that stands for the operand.
    spec fn raw(&self) -> u32;

    /// The operand that a raw value stands for, if any.
    spec fn from_raw(raw: u32) -> Result<Self, DecodeError>;

    /// Computes [`Codec::raw`].
    fn to_raw(&self) -> (raw: u32)
        ensures
            raw == self.raw(),
    ;

    /// Computes [`Codec::from_raw`].
    fn try_from_raw(raw: u32) -> (operand: Result<Self, DecodeError>)
        ensures
            operand == Self::from_raw(raw),
    ;

    /// Reads the operand from the bits of `src` that `bit_mask` selects after
    /// a shift down by `bit_accumulation`.
    fn decode(src: u32, bit_accumulation: u32, bit_mask: u32) -> (operand: Result<
        Self,
        DecodeError,
    >)
        requires
            bit_accumulation < 32,
        ensures
            operand == Self::from_raw((src >> bit_accumulation) & bit_mask),
    {
        Self::try_from_raw((src >> bit_accumulation) & bit_mask)
    }

    /// The operand's raw value, cut by `bit_mask` and moved up by
    /// `bit_accumulation`.
    fn encode(&self, bit_mask: u32, bit_accumulation: u32) -> (bits: u32)
        requires
            bit_accumulation < 32,
        ensures
            bits == (self.raw() & bit_mask) << bit_accumulation,
    {
        (self.to_raw() & bit_mask) << bit_accumulation
    }
}

/// `value` is representable as a signed number of `width` bits.
pub open spec fn signed_fits(value: int, width: u32) -> bool {
    &&& 1 <= width <= 31
    &&& -pow2((width - 1) as nat) <= value < pow2((width - 1) as nat)
}

/// The two's-complement pattern of `value` in `width` bits: the value itself
/// where it is not negative, else the value above `2^width`.
pub open spec fn twos_complement(value: int, width: u32) -> int {
    if value >= 0 {
        value
    } else {
        pow2(width as nat) + value
    }
}

/// The signed number that the low `width` bits of `pattern` stand for: bit
/// `width - 1` is the sign, and the bits above `width` do not count.
pub open spec fn sign_extended(pattern: u32, width: u32) -> int {
    let low = (pattern & mask(width)) as int;
    if low >= pow2((width - 1) as nat) {
        low - pow2(width as nat)
    } else {
        low
    }
}

/// The mask of `width` bits is one less than `2^width`.
pub proof fn lemma_mask_pow2(width: u32)
    requires
        width <= 31,
    ensures
        mask(width) + 1 == pow2(width as nat),
        1u32 << width == pow2(width as nat),
        pow2(width as nat) <= 0x8000_0000,
{
    lemma2_to64();
    if width < 31 {
        vstd::arithmetic::power2::lemma_pow2_strictly_increases(width as nat, 31);
    }
    vstd::bits::lemma_u32_shl_is_mul(1, width);
    assert((1u32 << width) >= 1) by (bit_vector)
        requires
            width < 32,
    ;
}

/// A pattern within the mask is its own low bits.
pub proof fn lemma_masked_small(bits: u32, width: u32)
    by (bit_vector)
    requires
        bits <= mask(width),
    ensures
        bits & mask(width) == bits,
{
}

/// A masked pattern is within the mask.
pub proof fn lemma_masked_bound(bits: u32, width: u32)
    by (bit_vector)
    ensures
        bits & mask(width) <= mask(width),
{
}

/// `2^width` as a machine integer.
pub fn power_of_two(width: u32) -> (p: u32)
    requires
        width <= 31,
    ensures
        p == pow2(width as nat),
{
    proof {
        lemma_mask_pow2(width);
    }
    1u32 << width
}

/// Tells whether a signed value fits `width` bits.
pub fn fits_signed(value: i32, width: u32) -> (fits: bool)
    ensures
        fits == signed_fits(value as int, width),
{
    if width < 1 || width > 31 {
        false
    } else {
        let half = power_of_two(width - 1);
        proof {
            lemma_mask_pow2((width - 1) as u32);
        }
        let bound: i64 = half as i64;
        -bound <= value as i64 && (value as i64) < bound
    }
}

/// Computes [`twos_complement`] for a value that fits.
pub fn signed_to_bits(value: i32, width: u32) -> (bits: u32)
    requires
        signed_fits(value as int, width),
    ensures
        bits == twos_complement(value as int, width),
        bits & mask(width) == bits,
{
    let modulus = power_of_two(width);
    proof {
        vstd::arithmetic::power2::lemma_pow2_unfold(width as nat);
        lemma_mask_pow2(width);
    }
    let bits: u32 = if value >= 0 {
        value as u32
    } else {
        let magnitude: i64 = -(value as i64);
        modulus - (magnitude as u32)
    };
    proof {
        lemma_masked_small(bits, width);
    }
    bits
}

/// Computes [`sign_extended`].
pub fn bits_to_signed(pattern: u32, width: u32) -> (value: i32)
    requires
        1 <= width <= 31,
    ensures
        value == sign_extended(pattern, width),
        signed_fits(value as int, width),
{
    let modulus = power_of_two(width);
    let half = power_of_two(width - 1);
    let low = pattern & mask_of(width);
    proof {
        vstd::arithmetic::power2::lemma_pow2_unfold(width as nat);
        lemma_mask_pow2(width);
        lemma_masked_bound(pattern, width);
    }
    if low >= half {
        (low as i64 - modulus as i64) as i32
    } else {
        low as i32
    }
}

/// A value that fits comes back from its own bit pattern, which fits the
/// field.
pub proof fn lemma_signed_round_trip(value: int, width: u32)
    requires
        signed_fits(value, width),
    ensures
        0 <= twos_complement(value, width) <= mask(width),
        (twos_complement(value, width) as u32) & mask(width) == twos_complement(value, width),
        sign_extended(twos_complement(value, width) as u32, width) == value,
{
    vstd::arithmetic::power2::lemma_pow2_unfold(width as nat);
    lemma_mask_pow2(width);
    lemma_masked_small(twos_complement(value, width) as u32, width);
}

/// Sign extension undoes nothing: the pattern of an extended value is the
/// low bits it was read from.
pub proof fn lemma_signed_reencode(pattern: u32, width: u32)
    requires
        1 <= width <= 31,
    ensures
        signed_fits(sign_extended(pattern, width), width),
        twos_complement(sign_extended(pattern, width), width) == pattern & mask(width),
{
    vstd::arithmetic::power2::lemma_pow2_unfold(width as nat);
    lemma_mask_pow2(width);
    lemma_masked_bound(pattern, width);
}

/// The masks of the field widths in use.
pub proof fn lemma_mask_values()
    by (bit_vector)
    ensures
        mask(5) == 0x1f,
        mask(8) == 0xff,
        mask(14) == 0x3fff,
        mask(16) == 0xffff,
        mask(19) == 0x7_ffff,
{
}

impl SchemaEntry {
    /// Tells whether the entry's layout fits the word: every field has at
    /// least one bit, and the opcode and the fields together have at most 32.
    pub fn is_valid(&self) -> (valid: bool)
        ensures
            valid == self.wf(),
    {
        let mut total: u32 = OPCODE_BITS;
        let mut i: usize = 0;
        while i < self.fields.len()
            invariant
                i <= self.fields.len(),
                total == offset_of(self.fields@, i as int),
                total <= WORD_BITS,
                forall|k: int| 0 <= k < i ==> 1 <= #[trigger] self.fields@[k].width,
            decreases self.fields.len() - i,
        {
            let width = self.fields[i].width;
            if width < 1 {
                return false;
            }
            if width > WORD_BITS - total {
                proof {
                    lemma_offsets_monotone(self.fields@, i + 1, self.fields@.len() as int);
                }
                return false;
            }
            total = total + width;
            i = i + 1;
        }
        true
    }
}

} // verus!
