//! The hibernate metadata record kept beside the image.
use vstd::prelude::*;

verus! {

/// Size in bytes of the image's authentication tag.
pub const META_TAG_SIZE: usize = 16;

/// Flag bit set once the image has been completely written.
pub const META_FLAG_VALID: u32 = 1;

/// True when every byte of the tag is zero (no tag computed yet).
pub open spec fn zero_tag(t: Seq<u8>) -> bool {
    forall|i: int| 0 <= i < t.len() ==> t[i] == 0
}

/// True when `flags` carries the valid bit.
pub open spec fn flags_valid(flags: u32) -> bool {
    flags & META_FLAG_VALID != 0
}

/// Metadata of one hibernation image.
#[derive(Clone, Copy, Debug, PartialEq, Eq)]
pub struct HibernateMetadata {
    /// Authentication tag over the image body.
    pub data_tag: [u8; META_TAG_SIZE],
    /// Size of the whole image in bytes.
    pub image_size: u64,
    /// Flag bits, see `META_FLAG_VALID`.
    pub flags: u32,
    /// Bytes taken by the image's header section.
    pub meta_size: u64,
}

/// Tells whether every byte of a tag is zero.
pub fn tag_is_zero(t: &[u8; META_TAG_SIZE]) -> (r: bool)
    ensures
        r == zero_tag(t@),
{
    let mut i: usize = 0;
    while i < META_TAG_SIZE
        invariant
            t@.len() == META_TAG_SIZE,
            i <= META_TAG_SIZE,
            forall|k: int| 0 <= k < i ==> t@[k] == 0,
        decreases META_TAG_SIZE - i,
    {
        if t[i] != 0 {
            return false;
        }
        i = i + 1;
    }
    true
}

/// The record of an attempt that has written nothing yet.
pub open spec fn empty_metadata() -> HibernateMetadata {
    HibernateMetadata { data_tag: [0u8; META_TAG_SIZE], image_size: 0, flags: 0, meta_size: 0 }
}

/// `m` after a completely written image of `image_size` bytes with tag `data_tag`.
pub open spec fn written_metadata(
    m: HibernateMetadata,
    image_size: u64,
    data_tag: [u8; META_TAG_SIZE],
) -> HibernateMetadata {
    HibernateMetadata {
        data_tag,
        image_size,
        flags: m.flags | META_FLAG_VALID,
        meta_size: m.meta_size,
    }
}

impl HibernateMetadata {
    /// The valid bit is set only over a computed tag and a non-empty image.
    pub open spec fn wf(self) -> bool {
        flags_valid(self.flags) ==> !zero_tag(self.data_tag@) && self.image_size > 0
    }

    /// A record with a zero tag, no sizes and no flags.
    pub fn new() -> (r: Self)
        ensures
            r == empty_metadata(),
            zero_tag(r.data_tag@),
            r.wf(),
    {
        let r = HibernateMetadata {
            data_tag: [0u8; META_TAG_SIZE],
            image_size: 0,
            flags: 0,
            meta_size: 0,
        };
        assert(!flags_valid(0u32)) by (bit_vector);
        r
    }

    /// Tells whether the valid bit is set.
    pub fn is_valid(&self) -> (r: bool)
        ensures
            r == flags_valid(self.flags),
    {
        self.flags & META_FLAG_VALID != 0
    }

    /// Records a completely written image: its tag, its size and the valid
    /// bit. Refused, leaving the record as it was, when the tag is zero or
    /// the image is empty.
    pub fn mark_written(&mut self, image_size: u64, data_tag: [u8; META_TAG_SIZE]) -> (r: bool)
        requires
            old(self).wf(),
        ensures
            r == (!zero_tag(data_tag@) && image_size > 0),
            r ==> *final(self) == written_metadata(*old(self), image_size, data_tag),
            !r ==> *final(self) == *old(self),
            flags_valid(final(self).flags) || !r,
            final(self).wf(),
    {
        if tag_is_zero(&data_tag) || image_size == 0 {
            return false;
        }
        let f = self.flags;
        self.data_tag = data_tag;
        self.image_size = image_size;
        self.flags = f | META_FLAG_VALID;
        assert((f | 1u32) & 1u32 != 0) by (bit_vector);
        true
    }
}

} // verus!
