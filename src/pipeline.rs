//! Staging of the image transfer: a first page so the header can be parsed,
//! then the header padded to a page, then the page-padded body.
use vstd::prelude::*;

verus! {

/// Pages per transfer chunk of the header and body stages.
pub const BUFFER_PAGES: u64 = 32;

/// Largest page size accepted.
pub const MAX_PAGE_SIZE: u64 = 1048576;

/// Largest image size accepted, in bytes.
pub const MAX_IMAGE_SIZE: u64 = 281474976710656;

/// `x` rounded up to a multiple of `p`.
pub open spec fn round_up(x: int, p: int) -> int {
    if x % p == 0 {
        x
    } else {
        x + (p - x % p)
    }
}

/// A page size and an image size that the pipeline can stage.
pub open spec fn geometry_ok(image_size: u64, page_size: u64) -> bool {
    0 < page_size <= MAX_PAGE_SIZE && 0 < image_size <= MAX_IMAGE_SIZE
}

/// Which stage of the transfer a mover runs.
#[derive(Clone, Copy, Debug, PartialEq, Eq, Structural)]
pub enum MoveKind {
    FirstPage,
    Header,
    Body,
}

/// One run of the image mover: read `source_bytes` from the snapshot and
/// push `transfer_bytes` through the splitter, `chunk_bytes` at a time;
/// `pad_output` pads the written length to a page multiple.
#[derive(Clone, Copy, Debug, PartialEq, Eq, Structural)]
pub struct MoveStage {
    pub kind: MoveKind,
    pub source_bytes: u64,
    pub transfer_bytes: u64,
    pub chunk_bytes: u64,
    pub pad_output: bool,
}

/// The one-page run that lets the splitter parse the header's length.
pub open spec fn first_page(page_size: u64) -> MoveStage {
    MoveStage {
        kind: MoveKind::FirstPage,
        source_bytes: page_size,
        transfer_bytes: page_size,
        chunk_bytes: page_size,
        pad_output: false,
    }
}

/// The run that moves `remaining` header bytes, padded to a page.
pub open spec fn header_move(remaining: u64, page_size: u64) -> MoveStage {
    MoveStage {
        kind: MoveKind::Header,
        source_bytes: remaining,
        transfer_bytes: round_up(remaining as int, page_size as int) as u64,
        chunk_bytes: (page_size * BUFFER_PAGES) as u64,
        pad_output: false,
    }
}

/// The run that moves the body that follows a `meta_size`-byte header,
/// its output padded to a page multiple.
pub open spec fn body_move(image_size: u64, meta_size: u64, page_size: u64) -> MoveStage {
    MoveStage {
        kind: MoveKind::Body,
        source_bytes: (image_size - meta_size) as u64,
        transfer_bytes: round_up(image_size - meta_size, page_size as int) as u64,
        chunk_bytes: (page_size * BUFFER_PAGES) as u64,
        pad_output: true,
    }
}

/// Tells whether the pipeline can stage an image of this size on pages of
/// this size.
pub fn check_geometry(image_size: u64, page_size: u64) -> (r: bool)
    ensures
        r == geometry_ok(image_size, page_size),
{
    0 < page_size && page_size <= MAX_PAGE_SIZE && 0 < image_size && image_size <= MAX_IMAGE_SIZE
}

/// `len` rounded up to a whole number of pages.
pub fn pad_to_page(len: u64, page_size: u64) -> (r: u64)
    requires
        0 < page_size <= MAX_PAGE_SIZE,
        len <= MAX_IMAGE_SIZE,
    ensures
        r == round_up(len as int, page_size as int),
        r % page_size == 0,
        len <= r < len + page_size,
{
    let rem = len % page_size;
    if rem == 0 {
        len
    } else {
        assert((len as int + (page_size as int - rem as int)) % page_size as int == 0) by (nonlinear_arith)
            requires
                rem == len as int % page_size as int,
                page_size > 0,
        {
            assert(len as int == page_size as int * (len as int / page_size as int) + rem);
            assert(len as int + (page_size as int - rem as int) == page_size as int * (len as int
                / page_size as int + 1));
        }
        len + (page_size - rem)
    }
}

/// The one-page run that lets the splitter parse the header's length.
pub fn first_page_stage(page_size: u64) -> (r: MoveStage)
    requires
        0 < page_size <= MAX_PAGE_SIZE,
    ensures
        r == first_page(page_size),
{
    MoveStage {
        kind: MoveKind::FirstPage,
        source_bytes: page_size,
        transfer_bytes: page_size,
        chunk_bytes: page_size,
        pad_output: false,
    }
}

/// Header bytes still to move: the whole header when no first page was
/// moved, else what the first page did not hold.
pub open spec fn header_left(meta_size: u64, page_size: u64, first_page_moved: bool) -> u64 {
    if !first_page_moved {
        meta_size
    } else if meta_size > page_size {
        (meta_size - page_size) as u64
    } else {
        0
    }
}

/// Computes `header_left`.
pub fn header_remaining(meta_size: u64, page_size: u64, first_page_moved: bool) -> (r: u64)
    ensures
        r == header_left(meta_size, page_size, first_page_moved),
{
    if !first_page_moved {
        meta_size
    } else if meta_size > page_size {
        meta_size - page_size
    } else {
        0
    }
}

/// The run that moves the rest of the header, padded to a page.
pub fn header_stage(remaining: u64, page_size: u64) -> (r: MoveStage)
    requires
        0 < page_size <= MAX_PAGE_SIZE,
        remaining <= MAX_IMAGE_SIZE,
    ensures
        r == header_move(remaining, page_size),
        r.transfer_bytes % page_size == 0,
{
    MoveStage {
        kind: MoveKind::Header,
        source_bytes: remaining,
        transfer_bytes: pad_to_page(remaining, page_size),
        chunk_bytes: page_size * BUFFER_PAGES,
        pad_output: false,
    }
}

/// The run that moves the image body, its output padded to a page multiple.
pub fn body_stage(image_size: u64, meta_size: u64, page_size: u64) -> (r: MoveStage)
    requires
        geometry_ok(image_size, page_size),
        meta_size <= image_size,
    ensures
        r == body_move(image_size, meta_size, page_size),
        r.transfer_bytes % page_size == 0,
{
    let body = image_size - meta_size;
    MoveStage {
        kind: MoveKind::Body,
        source_bytes: body,
        transfer_bytes: pad_to_page(body, page_size),
        chunk_bytes: page_size * BUFFER_PAGES,
        pad_output: true,
    }
}

} // verus!
