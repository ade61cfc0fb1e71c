//! Constant values read back from their little-endian memory bytes.

use vstd::prelude::*;

verus! {

/// `256` to the power `n`.
pub open spec fn pow256(n: nat) -> nat
    decreases n,
{
    if n == 0 { 1 } else { 256 * pow256((n - 1) as nat) }
}

/// The unsigned value of little-endian bytes `b`.
pub open spec fn le_value(b: Seq<u8>) -> nat
    decreases b.len(),
{
    if b.len() == 0 {
        0
    } else {
        b[0] as nat + 256 * le_value(b.drop_first())
    }
}

proof fn lemma_le_value_bound(b: Seq<u8>)
    ensures
        le_value(b) < pow256(b.len()),
    decreases b.len(),
{
    if b.len() > 0 {
        lemma_le_value_bound(b.drop_first());
        let r = le_value(b.drop_first());
        let p = pow256((b.len() - 1) as nat);
        assert(b[0] as nat + 256 * r < 256 * p) by (nonlinear_arith)
            requires r < p, b[0] < 256;
    }
}

proof fn lemma_le_value_top(b: Seq<u8>)
    requires
        b.len() > 0,
        b.last() > 127,
    ensures
        le_value(b) >= pow256(b.len()) / 2,
        pow256(b.len()) % 2 == 0,
    decreases b.len(),
{
    if b.len() == 1 {
        assert(b.drop_first().len() == 0);
        assert(le_value(b.drop_first()) == 0);
        assert(le_value(b) == b[0] as nat);
        assert(pow256(0) == 1);
        assert(pow256(1) == 256);
    } else {
        let t = b.drop_first();
        assert(t.last() == b.last());
        lemma_le_value_top(t);
        let p = pow256(t.len());
        assert(pow256(b.len()) == 256 * p);
        assert(le_value(b) >= 256 * (p / 2)) by (nonlinear_arith)
            requires le_value(b) == b[0] as nat + 256 * le_value(t), le_value(t) >= p / 2;
        assert(256 * (p / 2) == (256 * p) / 2) by (nonlinear_arith)
            requires p % 2 == 0;
    }
}

proof fn lemma_pow256_table()
    ensures
        pow256(15) == 0x100_0000_0000_0000_0000_0000_0000_0000,
        pow256(16) == 0x1_0000_0000_0000_0000_0000_0000_0000_0000,
{
    assert(pow256(0) == 1);
    assert(pow256(1) == 0x100);
    assert(pow256(2) == 0x1_0000);
    assert(pow256(3) == 0x100_0000);
    assert(pow256(4) == 0x1_0000_0000);
    assert(pow256(5) == 0x100_0000_0000);
    assert(pow256(6) == 0x1_0000_0000_0000);
    assert(pow256(7) == 0x100_0000_0000_0000);
    assert(pow256(8) == 0x1_0000_0000_0000_0000);
    assert(pow256(9) == 0x100_0000_0000_0000_0000);
    assert(pow256(10) == 0x1_0000_0000_0000_0000_0000);
    assert(pow256(11) == 0x100_0000_0000_0000_0000_0000);
    assert(pow256(12) == 0x1_0000_0000_0000_0000_0000_0000);
    assert(pow256(13) == 0x100_0000_0000_0000_0000_0000_0000);
    assert(pow256(14) == 0x1_0000_0000_0000_0000_0000_0000_0000);
    assert(pow256(15) == 0x100_0000_0000_0000_0000_0000_0000_0000);
    assert(pow256(16) == 0x1_0000_0000_0000_0000_0000_0000_0000_0000);
}

proof fn lemma_pow256_small(n: nat)
    requires
        n <= 16,
    ensures
        pow256(n) <= pow256(16),
        n <= 15 ==> pow256(n) <= pow256(15),
        pow256(15) == 0x100_0000_0000_0000_0000_0000_0000_0000,
        pow256(16) == 0x1_0000_0000_0000_0000_0000_0000_0000_0000,
    decreases 16 - n,
{
    lemma_pow256_table();
    if n < 16 {
        lemma_pow256_small(n + 1);
        assert(pow256(n + 1) == 256 * pow256(n));
    }
}

/// The unsigned value of up to 16 little-endian bytes, zero-padded.
pub fn as_u128_pad_le(b: &[u8]) -> (r: u128)
    requires
        b@.len() <= 16,
    ensures
        r == le_value(b@),
{
    let mut acc: u128 = 0;
    let mut i: usize = b.len();
    proof {
        assert(b@.skip(b@.len() as int) =~= Seq::<u8>::empty());
    }
    while i > 0
        invariant
            i <= b@.len(),
            b@.len() <= 16,
            acc == le_value(b@.skip(i as int)),
        decreases i,
    {
        i = i - 1;
        let ghost rest = b@.skip(i as int);
        assert(rest.drop_first() =~= b@.skip(i + 1));
        proof {
            lemma_le_value_bound(rest);
            lemma_pow256_small(rest.len());
        }
        acc = acc * 256 + b[i] as u128;
    }
    assert(b@.skip(0) =~= b@);
    acc
}

/// The signed value of up to 16 little-endian bytes in two's complement,
/// padded with the sign of the last byte (no bytes: zero).
pub fn as_i128_pad_le(b: &[u8]) -> (r: i128)
    requires
        b@.len() <= 16,
    ensures
        r == (if b@.len() > 0 && b@.last() > 127 {
            le_value(b@) - pow256(b@.len())
        } else {
            le_value(b@) as int
        }),
{
    let u = as_u128_pad_le(b);
    proof {
        lemma_le_value_bound(b@);
        lemma_pow256_small(b@.len());
    }
    if b.len() > 0 && b[b.len() - 1] > 127 {
        proof {
            lemma_le_value_top(b@);
        }
        if b.len() < 16 {
            let mut p: u128 = 1;
            let mut k: usize = 0;
            while k < b.len()
                invariant
                    k <= b@.len(),
                    b@.len() < 16,
                    p == pow256(k as nat),
                decreases b@.len() - k,
            {
                proof {
                    lemma_pow256_small((k + 1) as nat);
                }
                p = p * 256;
                k = k + 1;
            }
            (u as i128) - (p as i128)
        } else {
            -((u128::MAX - u) as i128) - 1
        }
    } else {
        proof {
            if b@.len() == 16 {
                let t = b@.drop_last();
                lemma_le_value_split(b@);
                lemma_le_value_bound(t);
                lemma_pow256_small(15);
                let a = le_value(t);
                let c = b@.last() as nat;
                assert(a + 0x100_0000_0000_0000_0000_0000_0000_0000 * c < 0x8000_0000_0000_0000_0000_0000_0000_0000) by (nonlinear_arith)
                    requires a < 0x100_0000_0000_0000_0000_0000_0000_0000, c <= 127;
            }
        }
        u as i128
    }
}

proof fn lemma_le_value_split(b: Seq<u8>)
    requires
        b.len() > 0,
    ensures
        le_value(b) == le_value(b.drop_last()) + pow256((b.len() - 1) as nat) * (b.last() as nat),
    decreases b.len(),
{
    if b.len() == 1 {
        assert(b.drop_last().len() == 0);
        assert(b.drop_first().len() == 0);
        assert(le_value(b.drop_first()) == 0);
        assert(le_value(b.drop_last()) == 0);
        assert(pow256(0) == 1);
        assert(b.last() == b[0]);
        assert(le_value(b) == b[0] as nat);
    } else {
        let t = b.drop_first();
        lemma_le_value_split(t);
        assert(t.drop_last() =~= b.drop_last().drop_first());
        assert(t.last() == b.last());
        let p = pow256((t.len() - 1) as nat);
        let a = le_value(t.drop_last());
        let c = b.last() as nat;
        assert(pow256((b.len() - 1) as nat) == 256 * p);
        assert(le_value(b.drop_last()) == b[0] as nat + 256 * a);
        assert(le_value(t) == a + p * c);
        assert(le_value(b) == b[0] as nat + 256 * le_value(t));
        assert(256 * (a + p * c) == 256 * a + (256 * p) * c) by (nonlinear_arith);
    }
}

/// How the variant of an enum value is recorded in its memory.
pub enum TagEncodingFacts {
    /// The tag is the variant's discriminant.
    Direct,
    /// The variants other than `untagged_variant` are numbered from
    /// `niche_start` in the tag.
    Niche { untagged_variant: usize, niche_start: u128 },
}

/// The layout of an enum, as far as finding a value's variant needs it.
pub enum EnumLayoutFacts {
    /// An enum without variants.
    Empty,
    /// An enum with one variant, the one at `index`.
    Single { index: usize },
    /// An enum with a tag of `tag_size` bytes at `tag_offset`, encoded as
    /// `encoding`, and `variant_count` variant layouts.
    Multiple { tag_size: usize, tag_offset: usize, encoding: TagEncodingFacts, variant_count: usize },
}

/// The layout of the variant found: the enum's own, or that of variant `i`.
#[derive(Copy, Clone, PartialEq, Eq, Structural, Debug)]
pub enum VariantLayoutRef {
    Whole,
    Variant(usize),
}

/// The tag stored in `b` at `offset`: the unsigned little-endian value of
/// its `size` bytes, read as an `i128`.
pub open spec fn tag_value(b: Seq<u8>, offset: int, size: int) -> i128 {
    (le_value(b.subrange(offset, offset + size)) as u128) as i128
}

/// The first of the first `n` variants whose discriminant is `tag`.
pub open spec fn first_with_discriminant(ds: Seq<Option<i128>>, tag: i128, n: nat) -> Option<usize>
    decreases n,
{
    if n == 0 {
        None
    } else {
        match first_with_discriminant(ds, tag, (n - 1) as nat) {
            Some(k) => Some(k),
            None => if ds[n - 1] == Some(tag) { Some((n - 1) as usize) } else { None },
        }
    }
}

/// The `candidate`-th of the `count` variants other than `untagged`, or
/// `untagged` where there is none.
pub open spec fn niche_variant(untagged: usize, candidate: usize, count: usize) -> usize {
    let skip = untagged < count;
    let available = if skip { count - 1 } else { count as int };
    if candidate < available {
        if skip && candidate >= untagged { (candidate + 1) as usize } else { candidate }
    } else {
        untagged
    }
}

/// Whether the variant of a value can be read from its bytes `b`: the
/// enum has variants, its tag lies within the bytes and fits an `i128`,
/// and every variant it can name has a discriminant entry.
pub open spec fn detectable(layout: EnumLayoutFacts, ds: Seq<Option<i128>>, b: Seq<u8>) -> bool {
    match layout {
        EnumLayoutFacts::Empty => false,
        EnumLayoutFacts::Single { index } => true,
        EnumLayoutFacts::Multiple { tag_size, tag_offset, encoding, variant_count } => {
            &&& tag_size <= 16
            &&& tag_offset + tag_size <= b.len()
            &&& variant_count <= ds.len()
            &&& match encoding {
                TagEncodingFacts::Direct => true,
                TagEncodingFacts::Niche { untagged_variant, niche_start } => untagged_variant < variant_count,
            }
        },
    }
}

/// The variant of the enum value in `b`, with its layout: the only variant
/// of a single-variant enum; the first variant whose discriminant is the
/// tag; or, in a niche, the variant that the tag's distance from the
/// niche's start numbers (the untagged variant where it numbers none).
/// `None` where no variant has the tag as its discriminant.
pub open spec fn detect_variant_spec(layout: EnumLayoutFacts, ds: Seq<Option<i128>>, b: Seq<u8>) -> Option<(usize, VariantLayoutRef)> {
    match layout {
        EnumLayoutFacts::Empty => None,
        EnumLayoutFacts::Single { index } => Some((index, VariantLayoutRef::Whole)),
        EnumLayoutFacts::Multiple { tag_size, tag_offset, encoding, variant_count } => {
            let tag = tag_value(b, tag_offset as int, tag_size as int);
            match encoding {
                TagEncodingFacts::Direct => match first_with_discriminant(ds, tag, variant_count as nat) {
                    Some(k) => Some((k, VariantLayoutRef::Variant(k))),
                    None => None,
                },
                TagEncodingFacts::Niche { untagged_variant, niche_start } => {
                    let candidate = tag.wrapping_sub(niche_start as i128) as usize;
                    let v = niche_variant(untagged_variant, candidate, variant_count);
                    Some((v, VariantLayoutRef::Variant(v)))
                },
            }
        },
    }
}

/// The variant of the enum value held in the bytes `b`, given the enum's
/// layout and the discriminant of each variant (`None` where it could not
/// be evaluated).
pub fn detect_variant_from_bytes(layout: &EnumLayoutFacts, discriminants: &[Option<i128>], b: &[u8]) -> (r: Option<(usize, VariantLayoutRef)>)
    requires
        detectable(*layout, discriminants@, b@),
    ensures
        r == detect_variant_spec(*layout, discriminants@, b@),
{
    match layout {
        EnumLayoutFacts::Empty => None,
        EnumLayoutFacts::Single { index } => Some((*index, VariantLayoutRef::Whole)),
        EnumLayoutFacts::Multiple { tag_size, tag_offset, encoding, variant_count } => {
            let size = *tag_size;
            let offset = *tag_offset;
            let blen = b.len();
            let mut bytes: Vec<u8> = Vec::new();
            let mut i: usize = 0;
            while i < size
                invariant
                    i <= size,
                    offset + size <= blen,
                    blen == b@.len(),
                    bytes@ == b@.subrange(offset as int, offset + i),
                decreases size - i,
            {
                bytes.push(b[offset + i]);
                assert(bytes@ =~= b@.subrange(offset as int, offset + i + 1));
                i = i + 1;
            }
            let tag = as_u128_pad_le(bytes.as_slice()) as i128;
            match encoding {
                TagEncodingFacts::Direct => {
                    let n = *variant_count;
                    let ghost expected = detect_variant_spec(*layout, discriminants@, b@);
                    assert(expected == match first_with_discriminant(discriminants@, tag, n as nat) {
                        Some(k) => Some((k, VariantLayoutRef::Variant(k))),
                        None => None,
                    });
                    let mut k: usize = 0;
                    while k < n
                        invariant
                            k <= n,
                            n <= discriminants@.len(),
                            first_with_discriminant(discriminants@, tag, k as nat).is_none(),
                            expected == detect_variant_spec(*layout, discriminants@, b@),
                            expected == match first_with_discriminant(discriminants@, tag, n as nat) {
                                Some(k) => Some((k, VariantLayoutRef::Variant(k))),
                                None => None,
                            },
                        decreases n - k,
                    {
                        if discriminants[k] == Some(tag) {
                            proof {
                                lemma_first_with_discriminant_extends(discriminants@, tag, (k + 1) as nat, n as nat);
                            }
                            return Some((k, VariantLayoutRef::Variant(k)));
                        }
                        k = k + 1;
                    }
                    None
                },
                TagEncodingFacts::Niche { untagged_variant, niche_start } => {
                    let candidate = tag.wrapping_sub(*niche_start as i128) as usize;
                    let count = *variant_count;
                    let untagged = *untagged_variant;
                    let v = if candidate < count - 1 {
                        if candidate >= untagged { candidate + 1 } else { candidate }
                    } else {
                        untagged
                    };
                    Some((v, VariantLayoutRef::Variant(v)))
                },
            }
        },
    }
}

/// Once the first `k` discriminants hold a match, the first `n >= k` hold
/// the same one.
proof fn lemma_first_with_discriminant_extends(ds: Seq<Option<i128>>, tag: i128, k: nat, n: nat)
    requires
        k <= n,
        first_with_discriminant(ds, tag, k).is_some(),
    ensures
        first_with_discriminant(ds, tag, n) == first_with_discriminant(ds, tag, k),
    decreases n - k,
{
    if k < n {
        lemma_first_with_discriminant_extends(ds, tag, k, (n - 1) as nat);
    }
}

/// Where the data behind the addresses of a constant lives: nowhere, in
/// one block at address 0, or in blocks by address.
pub enum MemoryMapFacts {
    Empty,
    Simple(Vec<u8>),
    Complex(Vec<(usize, Vec<u8>)>),
}

/// The memory of an evaluated constant: its own bytes and the memory its
/// addresses point into.
pub struct AllocationFacts {
    pub memory: Vec<u8>,
    pub memory_map: MemoryMapFacts,
}

/// The bytes `start..end` of `b`, where that range lies within it.
pub open spec fn range_of(b: Seq<u8>, start: usize, end: usize) -> Option<Seq<u8>> {
    if start <= end && end <= b.len() { Some(b.subrange(start as int, end as int)) } else { None }
}

/// The block at address `addr`: the first one recorded for it.
pub open spec fn block_at(blocks: Seq<(usize, Vec<u8>)>, addr: usize) -> Option<Seq<u8>>
    decreases blocks.len(),
{
    if blocks.len() == 0 {
        None
    } else if blocks[0].0 == addr {
        Some(blocks[0].1@)
    } else {
        block_at(blocks.drop_first(), addr)
    }
}

/// The bytes `start..end` at address `addr` (the constant's own bytes
/// without an address): an empty range gives no bytes; an empty memory
/// map gives no bytes; a simple one holds only address 0; a complex one
/// holds a block per address. `None` where the bytes are not there.
pub open spec fn memory_spec(a: AllocationFacts, addr: Option<usize>, start: usize, end: usize) -> Option<Seq<u8>> {
    match addr {
        Some(p) => if start >= end {
            Some(Seq::empty())
        } else {
            match a.memory_map {
                MemoryMapFacts::Empty => Some(Seq::empty()),
                MemoryMapFacts::Simple(m) => if p == 0 { range_of(m@, start, end) } else { None },
                MemoryMapFacts::Complex(blocks) => match block_at(blocks@, p) {
                    Some(b) => if start <= end && end <= b.len() {
                        Some(b.subrange(start as int, end as int))
                    } else {
                        None
                    },
                    None => None,
                },
            }
        },
        None => range_of(a.memory@, start, end),
    }
}

/// The bytes `start..end` of `b`, where that range lies within it.
fn get_range(b: &Vec<u8>, start: usize, end: usize) -> (r: Option<Vec<u8>>)
    ensures
        match r {
            Some(v) => range_of(b@, start, end) == Some(v@),
            None => range_of(b@, start, end) is None,
        },
{
    if start <= end && end <= b.len() {
        let mut v: Vec<u8> = Vec::new();
        let mut i = start;
        while i < end
            invariant
                start <= i <= end,
                end <= b@.len(),
                v@ =~= b@.subrange(start as int, i as int),
            decreases end - i,
        {
            v.push(b[i]);
            i = i + 1;
        }
        Some(v)
    } else {
        None
    }
}

/// The bytes `start..end` at address `addr` of the constant's memory (see
/// `memory_spec`).
pub fn get_memory(a: &AllocationFacts, addr: Option<usize>, start: usize, end: usize) -> (r: Option<Vec<u8>>)
    ensures
        match r {
            Some(v) => memory_spec(*a, addr, start, end) == Some(v@),
            None => memory_spec(*a, addr, start, end) is None,
        },
{
    match addr {
        Some(p) => {
            if start >= end {
                return Some(Vec::new());
            }
            match &a.memory_map {
                MemoryMapFacts::Empty => Some(Vec::new()),
                MemoryMapFacts::Simple(m) => {
                    if p == 0 {
                        get_range(m, start, end)
                    } else {
                        None
                    }
                },
                MemoryMapFacts::Complex(blocks) => {
                    let mut i: usize = 0;
                    assert(blocks@.skip(0) =~= blocks@);
                    while i < blocks.len()
                        invariant
                            i <= blocks@.len(),
                            block_at(blocks@, p) == block_at(blocks@.skip(i as int), p),
                            a.memory_map == MemoryMapFacts::Complex(*blocks),
                            addr == Some(p),
                            start < end,
                        decreases blocks@.len() - i,
                    {
                        assert(blocks@.skip(i as int).drop_first() =~= blocks@.skip(i + 1));
                        assert(blocks@.skip(i as int)[0] == blocks@[i as int]);
                        if blocks[i].0 == p {
                            return get_range(&blocks[i].1, start, end);
                        }
                        i = i + 1;
                    }
                    None
                },
            }
        },
        None => get_range(&a.memory, start, end),
    }
}


/// The kinds of type whose constant values are read straight from their
/// bytes.
pub enum ScalarTy {
    Bool,
    Char,
    Int,
    Uint,
    RawPtr,
    FnPtr,
}

/// A constant value of such a type, or why its bytes could not be read.
pub enum ScalarKind {
    Bool(bool),
    Char(char),
    Int(i128),
    Uint(u128),
    RawPtr(u128),
    FnPtr(u128),
    Error(&'static str),
}

/// Whether `v` is the code of a `char`: a Unicode scalar value.
pub open spec fn is_unicode_scalar(v: int) -> bool {
    (0 <= v && v <= 0xD7FF) || (0xE000 <= v && v <= 0x10FFFF)
}

/// The signed value of little-endian two's-complement bytes, padded with
/// the sign of the last byte.
pub open spec fn signed_le_value(b: Seq<u8>) -> int {
    if b.len() > 0 && b.last() > 127 {
        le_value(b) - pow256(b.len())
    } else {
        le_value(b) as int
    }
}

/// Whether bytes `b` can be read as a value of a type of kind `ty`: a
/// `bool` reads its first byte, every other kind at most 16 bytes.
pub open spec fn scalar_bytes_fit(ty: ScalarTy, b: Seq<u8>) -> bool {
    match ty {
        ScalarTy::Bool => b.len() >= 1,
        _ => b.len() <= 16,
    }
}

/// The value that bytes `b` hold for a type of kind `ty`: a `bool` is true
/// where its first byte is not zero; a `char` is the low 32 bits of the
/// unsigned value, where they are a Unicode scalar value; the integers and
/// pointers are the signed or unsigned value of the bytes.
pub open spec fn scalar_kind_spec(ty: ScalarTy, b: Seq<u8>) -> ScalarKind {
    match ty {
        ScalarTy::Bool => ScalarKind::Bool(b[0] != 0),
        ScalarTy::Char => {
            let v = le_value(b) % 0x1_0000_0000;
            if is_unicode_scalar(v as int) {
                ScalarKind::Char(v as char)
            } else {
                ScalarKind::Error("<unicode-error>")
            }
        },
        ScalarTy::Int => ScalarKind::Int(signed_le_value(b) as i128),
        ScalarTy::Uint => ScalarKind::Uint(le_value(b) as u128),
        ScalarTy::RawPtr => ScalarKind::RawPtr(le_value(b) as u128),
        ScalarTy::FnPtr => ScalarKind::FnPtr(le_value(b) as u128),
    }
}

/// The character with code `v` (`char::from_u32`): there is one exactly
/// where `v` is a Unicode scalar value.
#[verifier::external_body]
fn char_from_u32(v: u32) -> (r: Option<char>)
    ensures
        r == (if is_unicode_scalar(v as int) { Some(v as char) } else { None }),
{
    char::from_u32(v)
}

/// The value of a constant of a type of kind `ty` whose bytes lie at
/// `start..end` of address `addr` (see `memory_spec`); an error where the
/// bytes are not there, or do not hold a `char`.
pub fn scalar_kind(a: &AllocationFacts, addr: Option<usize>, start: usize, end: usize, ty: ScalarTy) -> (r: ScalarKind)
    requires
        memory_spec(*a, addr, start, end) matches Some(b) ==> scalar_bytes_fit(ty, b),
    ensures
        r == (match memory_spec(*a, addr, start, end) {
            Some(b) => scalar_kind_spec(ty, b),
            None => ScalarKind::Error("bad address"),
        }),
{
    let b = match get_memory(a, addr, start, end) {
        Some(b) => b,
        None => {
            return ScalarKind::Error("bad address");
        },
    };
    match ty {
        ScalarTy::Bool => ScalarKind::Bool(b[0] != 0),
        ScalarTy::Char => {
            let v = as_u128_pad_le(b.as_slice());
            let low: u32 = (v % 0x1_0000_0000u128) as u32;
            match char_from_u32(low) {
                Some(c) => ScalarKind::Char(c),
                None => ScalarKind::Error("<unicode-error>"),
            }
        },
        ScalarTy::Int => ScalarKind::Int(as_i128_pad_le(b.as_slice())),
        ScalarTy::Uint => ScalarKind::Uint(as_u128_pad_le(b.as_slice())),
        ScalarTy::RawPtr => ScalarKind::RawPtr(as_u128_pad_le(b.as_slice())),
        ScalarTy::FnPtr => ScalarKind::FnPtr(as_u128_pad_le(b.as_slice())),
    }
}

} // verus!
