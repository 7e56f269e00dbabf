use vstd::prelude::*;

verus! {

/// A named bit-field of an 8-bit register: `width` bits starting at bit `offset`.
#[derive(Clone, Copy, Debug, PartialEq, Eq, Structural)]
pub struct Field {
    pub offset: u8,
    pub width: u8,
}

/// `2` to the power `w`, for field widths.
pub open spec fn limit(w: u8) -> u16 {
    if w == 1 {
        2
    } else if w == 2 {
        4
    } else if w == 3 {
        8
    } else if w == 4 {
        16
    } else if w == 5 {
        32
    } else if w == 6 {
        64
    } else if w == 7 {
        128
    } else {
        256
    }
}

proof fn lemma_limit(w: u8)
    requires
        1 <= w <= 8,
    ensures
        (1u16 << w) == limit(w),
{
    assert((1u16 << w) == limit(w)) by (bit_vector)
        requires
            1 <= w <= 8,
    ;
}

impl Field {
    /// A field lies within the 8 bits of a register and is at least one bit wide.
    pub open spec fn wf(self) -> bool {
        1 <= self.width && self.offset + self.width <= 8
    }

    /// The field's bits at their place in the register.
    pub open spec fn mask(self) -> u8 {
        ((((1u16 << self.width) - 1) as u16) << self.offset) as u8
    }

    /// `v` is a legal value of the field: it fits in `width` bits.
    pub open spec fn fits(self, v: u8) -> bool {
        (v as u16) < limit(self.width)
    }

    /// The field's value as it stands in `word`.
    pub open spec fn get(self, word: u8) -> u8 {
        (((word as u16) >> self.offset) & (((1u16 << self.width) - 1) as u16)) as u8
    }

    /// `word` with the field set to `v` and every other bit kept.
    pub open spec fn put(self, word: u8, v: u8) -> u8 {
        (word & !self.mask()) | ((((v as u16) << self.offset) as u8))
    }

    /// `v` shifted to the field's place.
    pub open spec fn shifted(self, v: u8) -> u8 {
        (((v as u16) << self.offset) as u8)
    }

    /// Two fields share no bit.
    pub open spec fn disjoint(self, other: Field) -> bool {
        self.mask() & other.mask() == 0
    }

    pub fn new(offset: u8, width: u8) -> (r: Field)
        requires
            1 <= width,
            offset + width <= 8,
        ensures
            r.offset == offset,
            r.width == width,
            r.wf(),
    {
        Field { offset, width }
    }

    /// The field's mask, computed.
    pub fn bits(&self) -> (r: u8)
        requires
            self.wf(),
        ensures
            r == self.mask(),
    {
        proof {
            lemma_low(self.offset, self.width);
        }
        let low: u16 = (1u16 << self.width) - 1;
        (low << self.offset) as u8
    }

    /// Reads the field out of a register word.
    pub fn value_in(&self, word: u8) -> (r: u8)
        requires
            self.wf(),
        ensures
            r == self.get(word),
            self.fits(r),
    {
        proof {
            lemma_low(self.offset, self.width);
        }
        let low: u16 = (1u16 << self.width) - 1;
        let r = #[verifier::truncate] ((((word as u16) >> self.offset) & low) as u8);
        let o = self.offset;
        let w = self.width;
        proof {
            lemma_limit(w);
        }
        assert(((((word as u16) >> o) & (((1u16 << w) - 1) as u16)) as u8 as u16) < (1u16 << w))
            by (bit_vector)
            requires
                1 <= w <= 8,
        ;
        r
    }
}

proof fn lemma_low(o: u8, w: u8)
    requires
        1 <= w,
        o + w <= 8,
    ensures
        2 <= (1u16 << w) <= 256,
        (((1u16 << w) - 1) as u16) << o <= 255,
{
    assert(2 <= (1u16 << w) <= 256 && (((1u16 << w) - 1) as u16) << o <= 255) by (bit_vector)
        requires
            1 <= w,
            o + w <= 8,
    ;
}

/// Setting a fitting value into a field: the field then reads back that value,
/// and no bit outside the field changes.
pub proof fn lemma_put(f: Field, word: u8, v: u8)
    requires
        f.wf(),
        f.fits(v),
    ensures
        f.get(f.put(word, v)) == v,
        f.put(word, v) & !f.mask() == word & !f.mask(),
        f.put(word, v) & f.mask() == f.shifted(v),
        f.shifted(v) & !f.mask() == 0,
{
    let o = f.offset;
    let w = f.width;
    lemma_limit(w);
    assert(
        ((((((word & !((((((1u16 << w) - 1) as u16) << o) as u8))) | ((((v as u16) << o) as u8)))
            as u16) >> o) & (((1u16 << w) - 1) as u16)) as u8) == v
    ) by (bit_vector)
        requires
            1 <= w,
            o + w <= 8,
            (v as u16) < (1u16 << w),
    ;
    assert(
        ((word & !((((((1u16 << w) - 1) as u16) << o) as u8))) | ((((v as u16) << o) as u8)))
            & !((((((1u16 << w) - 1) as u16) << o) as u8))
            == word & !((((((1u16 << w) - 1) as u16) << o) as u8))
        && ((word & !((((((1u16 << w) - 1) as u16) << o) as u8))) | ((((v as u16) << o) as u8)))
            & ((((((1u16 << w) - 1) as u16) << o) as u8)) == (((v as u16) << o) as u8)
        && (((v as u16) << o) as u8) & !((((((1u16 << w) - 1) as u16) << o) as u8)) == 0
    ) by (bit_vector)
        requires
            1 <= w,
            o + w <= 8,
            (v as u16) < (1u16 << w),
    ;
}

/// A register word being built: its value and the mask of the fields set so far.
///
/// A full write starts from the register's default with nothing set; a
/// read-modify-write starts from the word read back. Each `with` sets one
/// field; the last value given to a field wins.
#[derive(Clone, Copy, Debug, PartialEq, Eq, Structural)]
pub struct RegisterWord {
    pub value: u8,
    pub touched: u8,
}

impl RegisterWord {
    /// The word after setting field `f` to `v`.
    pub open spec fn set(self, f: Field, v: u8) -> RegisterWord {
        RegisterWord { value: f.put(self.value, v), touched: self.touched | f.mask() }
    }

    /// A word seeded with `value`, no field set yet.
    pub fn seeded(value: u8) -> (r: RegisterWord)
        ensures
            r.value == value,
            r.touched == 0,
    {
        RegisterWord { value, touched: 0 }
    }

    /// The all-zero word of a full write.
    pub fn zero() -> (r: RegisterWord)
        ensures
            r.value == 0,
            r.touched == 0,
    {
        RegisterWord { value: 0, touched: 0 }
    }

    /// Sets field `f` to `v`.
    pub fn with(self, f: Field, v: u8) -> (r: RegisterWord)
        requires
            f.wf(),
            f.fits(v),
        ensures
            r == self.set(f, v),
            f.get(r.value) == v,
            r.value & !f.mask() == self.value & !f.mask(),
    {
        proof {
            lemma_put(f, self.value, v);
        }
        let m = f.bits();
        let shifted: u8 = #[verifier::truncate] (((v as u16) << f.offset) as u8);
        RegisterWord { value: (self.value & !m) | shifted, touched: self.touched | m }
    }
}

/// The word after applying `sets`, in order, to `w`.
pub open spec fn build(w: RegisterWord, sets: Seq<(Field, u8)>) -> RegisterWord
    decreases sets.len(),
{
    if sets.len() == 0 {
        w
    } else {
        build(w, sets.drop_last()).set(sets.last().0, sets.last().1)
    }
}

/// The bitwise OR of every setting's value shifted into its field.
pub open spec fn or_of(sets: Seq<(Field, u8)>) -> u8
    decreases sets.len(),
{
    if sets.len() == 0 {
        0
    } else {
        or_of(sets.drop_last()) | sets.last().0.shifted(sets.last().1)
    }
}

/// The bits covered by the fields of `sets`.
pub open spec fn mask_of(sets: Seq<(Field, u8)>) -> u8
    decreases sets.len(),
{
    if sets.len() == 0 {
        0
    } else {
        mask_of(sets.drop_last()) | sets.last().0.mask()
    }
}

/// Every setting is a legal value of a well-formed field, and no two
/// settings share a bit.
pub open spec fn legal_settings(sets: Seq<(Field, u8)>) -> bool {
    &&& forall|i: int| 0 <= i < sets.len() ==> #[trigger] sets[i].0.wf() && sets[i].0.fits(sets[i].1)
    &&& forall|i: int, j: int|
        0 <= i < sets.len() && 0 <= j < sets.len() && i != j ==> #[trigger] sets[i].0.disjoint(
            #[trigger] sets[j].0,
        )
}

proof fn lemma_or_within_masks(sets: Seq<(Field, u8)>)
    requires
        legal_settings(sets),
    ensures
        or_of(sets) & !mask_of(sets) == 0,
    decreases sets.len(),
{
    if sets.len() > 0 {
        let p = sets.drop_last();
        assert(legal_settings(p));
        lemma_or_within_masks(p);
        let f = sets.last().0;
        let v = sets.last().1;
        assert(f.wf() && f.fits(v));
        lemma_put(f, 0, v);
        let a = or_of(p);
        let m = mask_of(p);
        let s = f.shifted(v);
        let fm = f.mask();
        assert((a | s) & !(m | fm) == 0) by (bit_vector)
            requires
                a & !m == 0,
                s & !fm == 0,
        ;
    } else {
        assert(0u8 & !0u8 == 0) by (bit_vector);
    }
}

proof fn lemma_mask_disjoint(sets: Seq<(Field, u8)>, f: Field)
    requires
        forall|i: int| 0 <= i < sets.len() ==> (#[trigger] sets[i]).0.disjoint(f),
    ensures
        mask_of(sets) & f.mask() == 0,
    decreases sets.len(),
{
    if sets.len() > 0 {
        let p = sets.drop_last();
        assert forall|i: int| 0 <= i < p.len() implies (#[trigger] p[i]).0.disjoint(f) by {
            assert(p[i] == sets[i]);
        }
        lemma_mask_disjoint(p, f);
        assert(sets.last() == sets[sets.len() - 1]);
        let m = mask_of(p);
        let g = sets.last().0.mask();
        let fm = f.mask();
        assert((m | g) & fm == 0) by (bit_vector)
            requires
                m & fm == 0,
                g & fm == 0,
        ;
    } else {
        let fm = f.mask();
        assert(0u8 & fm == 0) by (bit_vector);
    }
}

/// A full write: building a word from zero with legal, non-overlapping field
/// settings gives the bitwise OR of each value shifted into its field; the
/// word's bits outside the set fields are zero, and each field reads back
/// the value given to it.
pub proof fn lemma_full_write(sets: Seq<(Field, u8)>)
    requires
        legal_settings(sets),
    ensures
        build(RegisterWord { value: 0, touched: 0 }, sets).value == or_of(sets),
        build(RegisterWord { value: 0, touched: 0 }, sets).touched == mask_of(sets),
        or_of(sets) & !mask_of(sets) == 0,
    decreases sets.len(),
{
    lemma_or_within_masks(sets);
    if sets.len() > 0 {
        let p = sets.drop_last();
        assert(legal_settings(p));
        lemma_full_write(p);
        let f = sets.last().0;
        let v = sets.last().1;
        assert(sets.last() == sets[sets.len() - 1]);
        assert forall|i: int| 0 <= i < p.len() implies (#[trigger] p[i]).0.disjoint(f) by {
            assert(p[i] == sets[i]);
        }
        lemma_mask_disjoint(p, f);
        lemma_put(f, 0, v);
        let a = or_of(p);
        let m = mask_of(p);
        let fm = f.mask();
        let s = f.shifted(v);
        assert((a & !fm) | s == a | s) by (bit_vector)
            requires
                a & !m == 0,
                m & fm == 0,
        ;
    }
}

/// A read-modify-write: building a word from the value read back, with
/// legal, non-overlapping settings, keeps every bit outside the set fields,
/// gives the set bits their requested values, and equals merging the
/// full-write word of the same settings into the value read.
pub proof fn lemma_modify(seed: u8, sets: Seq<(Field, u8)>)
    requires
        legal_settings(sets),
    ensures
        build(RegisterWord { value: seed, touched: 0 }, sets).value & !mask_of(sets) == seed
            & !mask_of(sets),
        build(RegisterWord { value: seed, touched: 0 }, sets).value & mask_of(sets) == or_of(sets),
        build(RegisterWord { value: seed, touched: 0 }, sets).value == (seed & !mask_of(sets)) | (
        or_of(sets) & mask_of(sets)),
        build(RegisterWord { value: seed, touched: 0 }, sets).touched == mask_of(sets),
    decreases sets.len(),
{
    lemma_or_within_masks(sets);
    if sets.len() > 0 {
        let p = sets.drop_last();
        assert(legal_settings(p));
        lemma_modify(seed, p);
        lemma_or_within_masks(p);
        let f = sets.last().0;
        let v = sets.last().1;
        assert(sets.last() == sets[sets.len() - 1]);
        assert forall|i: int| 0 <= i < p.len() implies (#[trigger] p[i]).0.disjoint(f) by {
            assert(p[i] == sets[i]);
        }
        lemma_mask_disjoint(p, f);
        lemma_put(f, 0, v);
        let b = build(RegisterWord { value: seed, touched: 0 }, p).value;
        let a = or_of(p);
        let m = mask_of(p);
        let fm = f.mask();
        let s = f.shifted(v);
        assert(((b & !fm) | s) & !(m | fm) == seed & !(m | fm) && ((b & !fm) | s) & (m | fm) == a
            | s && ((b & !fm) | s) == (seed & !(m | fm)) | ((a | s) & (m | fm))) by (bit_vector)
            requires
                b & !m == seed & !m,
                b & m == a,
                a & !m == 0,
                m & fm == 0,
                s & !fm == 0,
        ;
    } else {
        assert(seed & !0u8 == seed && seed & 0u8 == 0 && (seed & !0u8) | (0u8 & 0u8) == seed)
            by (bit_vector);
    }
}

} // verus!
