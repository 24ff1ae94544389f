//! On-disk layout of the metadata record: format version, flags, image
//! size, header size (all little-endian) and the authentication tag.
use vstd::prelude::*;

use crate::metadata::{HibernateMetadata, META_TAG_SIZE};

verus! {

/// Format version written in front of the record.
pub const META_VERSION: u32 = 1;

/// Length in bytes of the encoded record.
pub const META_RECORD_SIZE: usize = 40;

/// Little-endian bytes of a 32-bit value.
pub open spec fn le32(x: u32) -> Seq<u8> {
    seq![x as u8, (x >> 8u32) as u8, (x >> 16u32) as u8, (x >> 24u32) as u8]
}

/// Little-endian bytes of a 64-bit value.
pub open spec fn le64(x: u64) -> Seq<u8> {
    seq![
        x as u8,
        (x >> 8u64) as u8,
        (x >> 16u64) as u8,
        (x >> 24u64) as u8,
        (x >> 32u64) as u8,
        (x >> 40u64) as u8,
        (x >> 48u64) as u8,
        (x >> 56u64) as u8,
    ]
}

/// The 32-bit value of four little-endian bytes.
pub open spec fn from_le32(b0: u8, b1: u8, b2: u8, b3: u8) -> u32 {
    (b0 as u32) | ((b1 as u32) << 8u32) | ((b2 as u32) << 16u32) | ((b3 as u32) << 24u32)
}

/// The 64-bit value of eight little-endian bytes.
pub open spec fn from_le64(b0: u8, b1: u8, b2: u8, b3: u8, b4: u8, b5: u8, b6: u8, b7: u8) -> u64 {
    (b0 as u64) | ((b1 as u64) << 8u64) | ((b2 as u64) << 16u64) | ((b3 as u64) << 24u64) | ((
    b4 as u64) << 32u64) | ((b5 as u64) << 40u64) | ((b6 as u64) << 48u64) | ((b7 as u64)
        << 56u64)
}

/// The 32-bit value at offset `o` of `s`.
pub open spec fn read32(s: Seq<u8>, o: int) -> u32 {
    from_le32(s[o], s[o + 1], s[o + 2], s[o + 3])
}

/// The 64-bit value at offset `o` of `s`.
pub open spec fn read64(s: Seq<u8>, o: int) -> u64 {
    from_le64(s[o], s[o + 1], s[o + 2], s[o + 3], s[o + 4], s[o + 5], s[o + 6], s[o + 7])
}

/// The bytes that record `m`.
pub open spec fn encoding(m: HibernateMetadata) -> Seq<u8> {
    le32(META_VERSION) + le32(m.flags) + le64(m.image_size) + le64(m.meta_size) + m.data_tag@
}

/// `s` is a record of the current version that holds `m`.
pub open spec fn decodes_to(s: Seq<u8>, m: HibernateMetadata) -> bool {
    &&& s.len() == META_RECORD_SIZE
    &&& read32(s, 0) == META_VERSION
    &&& m.flags == read32(s, 4)
    &&& m.image_size == read64(s, 8)
    &&& m.meta_size == read64(s, 16)
    &&& m.data_tag@ == s.subrange(24, 40)
}

/// `s` is a record of the current version.
pub open spec fn well_formed_record(s: Seq<u8>) -> bool {
    s.len() == META_RECORD_SIZE && read32(s, 0) == META_VERSION
}

proof fn lemma_le32(x: u32)
    ensures
        from_le32(x as u8, (x >> 8u32) as u8, (x >> 16u32) as u8, (x >> 24u32) as u8) == x,
{
    assert(((x as u8) as u32) | ((((x >> 8u32) as u8) as u32) << 8u32) | ((((x >> 16u32) as u8)
        as u32) << 16u32) | ((((x >> 24u32) as u8) as u32) << 24u32) == x) by (bit_vector);
}

proof fn lemma_le64(x: u64)
    ensures
        from_le64(
            x as u8,
            (x >> 8u64) as u8,
            (x >> 16u64) as u8,
            (x >> 24u64) as u8,
            (x >> 32u64) as u8,
            (x >> 40u64) as u8,
            (x >> 48u64) as u8,
            (x >> 56u64) as u8,
        ) == x,
{
    assert(((x as u8) as u64) | ((((x >> 8u64) as u8) as u64) << 8u64) | ((((x >> 16u64) as u8)
        as u64) << 16u64) | ((((x >> 24u64) as u8) as u64) << 24u64) | ((((x >> 32u64) as u8)
        as u64) << 32u64) | ((((x >> 40u64) as u8) as u64) << 40u64) | ((((x >> 48u64) as u8)
        as u64) << 48u64) | ((((x >> 56u64) as u8) as u64) << 56u64) == x) by (bit_vector);
}

/// A record read back holds exactly the metadata it was written from.
pub proof fn lemma_round_trip(m: HibernateMetadata, m2: HibernateMetadata)
    ensures
        decodes_to(encoding(m), m),
        decodes_to(encoding(m), m2) ==> m2 == m,
{
    broadcast use vstd::array::group_array_axioms;

    lemma_le32(META_VERSION);
    lemma_le32(m.flags);
    lemma_le64(m.image_size);
    lemma_le64(m.meta_size);
    let s = encoding(m);
    assert(s.subrange(24, 40) =~= m.data_tag@);
    if decodes_to(s, m2) {
        assert(m2.data_tag =~= m.data_tag);
    }
}

fn push_le32(v: &mut Vec<u8>, x: u32)
    ensures
        final(v)@ == old(v)@ + le32(x),
{
    v.push(x as u8);
    v.push((x >> 8u32) as u8);
    v.push((x >> 16u32) as u8);
    v.push((x >> 24u32) as u8);
    assert(final(v)@ =~= old(v)@ + le32(x));
}

fn push_le64(v: &mut Vec<u8>, x: u64)
    ensures
        final(v)@ == old(v)@ + le64(x),
{
    v.push(x as u8);
    v.push((x >> 8u64) as u8);
    v.push((x >> 16u64) as u8);
    v.push((x >> 24u64) as u8);
    v.push((x >> 32u64) as u8);
    v.push((x >> 40u64) as u8);
    v.push((x >> 48u64) as u8);
    v.push((x >> 56u64) as u8);
    assert(final(v)@ =~= old(v)@ + le64(x));
}

fn get_le32(b: &[u8], o: usize) -> (r: u32)
    requires
        o + 4 <= b@.len(),
    ensures
        r == read32(b@, o as int),
{
    (b[o] as u32) | ((b[o + 1] as u32) << 8u32) | ((b[o + 2] as u32) << 16u32) | ((b[o + 3]
        as u32) << 24u32)
}

fn get_le64(b: &[u8], o: usize) -> (r: u64)
    requires
        o + 8 <= b@.len(),
    ensures
        r == read64(b@, o as int),
{
    (b[o] as u64) | ((b[o + 1] as u64) << 8u64) | ((b[o + 2] as u64) << 16u64) | ((b[o + 3]
        as u64) << 24u64) | ((b[o + 4] as u64) << 32u64) | ((b[o + 5] as u64) << 40u64) | ((b[o
        + 6] as u64) << 48u64) | ((b[o + 7] as u64) << 56u64)
}

impl HibernateMetadata {
    /// The record's bytes as written to the metadata file.
    pub fn to_bytes(&self) -> (r: Vec<u8>)
        ensures
            r@ == encoding(*self),
            r@.len() == META_RECORD_SIZE,
    {
        let mut v: Vec<u8> = Vec::new();
        push_le32(&mut v, META_VERSION);
        push_le32(&mut v, self.flags);
        push_le64(&mut v, self.image_size);
        push_le64(&mut v, self.meta_size);
        let mut i: usize = 0;
        while i < META_TAG_SIZE
            invariant
                i <= META_TAG_SIZE,
                self.data_tag@.len() == META_TAG_SIZE,
                v@ == le32(META_VERSION) + le32(self.flags) + le64(self.image_size) + le64(
                    self.meta_size,
                ) + self.data_tag@.subrange(0, i as int),
            decreases META_TAG_SIZE - i,
        {
            v.push(self.data_tag[i]);
            i = i + 1;
            assert(v@ =~= le32(META_VERSION) + le32(self.flags) + le64(self.image_size) + le64(
                self.meta_size,
            ) + self.data_tag@.subrange(0, i as int));
        }
        assert(self.data_tag@.subrange(0, META_TAG_SIZE as int) =~= self.data_tag@);
        v
    }

    /// Reads a record back; `None` unless `b` has the record's length and
    /// the current version.
    pub fn from_bytes(b: &[u8]) -> (r: Option<HibernateMetadata>)
        ensures
            r is Some <==> well_formed_record(b@),
            r matches Some(m) ==> decodes_to(b@, m),
    {
        if b.len() != META_RECORD_SIZE {
            return None;
        }
        if get_le32(b, 0) != META_VERSION {
            return None;
        }
        let mut tag = [0u8; META_TAG_SIZE];
        let mut i: usize = 0;
        while i < META_TAG_SIZE
            invariant
                i <= META_TAG_SIZE,
                b@.len() == META_RECORD_SIZE,
                tag@.len() == META_TAG_SIZE,
                forall|k: int| 0 <= k < i ==> tag@[k] == b@[24 + k],
            decreases META_TAG_SIZE - i,
        {
            tag.set(i, b[24 + i]);
            i = i + 1;
        }
        assert(tag@ =~= b@.subrange(24, 40));
        Some(
            HibernateMetadata {
                data_tag: tag,
                image_size: get_le64(b, 8),
                flags: get_le32(b, 4),
                meta_size: get_le64(b, 16),
            },
        )
    }
}

} // verus!
