use vstd::prelude::*;

use crate::units::{Bytes, Pages, PAGE_SIZE};

verus! {

/// Largest mapping length that a memory layout can describe.
pub open spec fn max_map_len() -> int {
    isize::MAX as int
}

/// Why a page request cannot be handed to the operating system.
#[derive(Clone, Copy, Debug, PartialEq, Eq, Structural)]
pub enum PageError {
    /// A mapping must cover at least one page.
    NoPages,
    /// The byte length of the mapping exceeds `isize::MAX`.
    TooLarge,
}

/// An anonymous mapping request: its length in bytes and the alignment asked for.
#[derive(Clone, Copy, Debug, PartialEq, Eq, Structural)]
pub struct MapRequest {
    pub len: Bytes,
    pub align: usize,
}

/// The request that `pages` pages become, or the reason there is none.
pub open spec fn request_of(pages: Pages) -> Result<MapRequest, PageError> {
    if pages.0 == 0 {
        Err(PageError::NoPages)
    } else if pages.byte_len() > max_map_len() {
        Err(PageError::TooLarge)
    } else {
        Ok(MapRequest { len: Bytes(pages.byte_len() as usize), align: 1 })
    }
}

/// Turns a page count into the single mapping request that obtains those pages:
/// `pages * PAGE_SIZE` bytes, with no alignment beyond what a page already has.
pub fn map_request(pages: Pages) -> (r: Result<MapRequest, PageError>)
    ensures
        r == request_of(pages),
        r is Ok <==> 0 < pages.0 && pages.byte_len() <= max_map_len(),
        r is Ok ==> r->Ok_0.len.0 == pages.0 * PAGE_SIZE && r->Ok_0.align == 1,
{
    if pages.0 == 0 {
        return Err(PageError::NoPages);
    }
    match pages.checked_bytes() {
        Some(len) => {
            if len.0 > isize::MAX as usize {
                Err(PageError::TooLarge)
            } else {
                Ok(MapRequest { len, align: 1 })
            }
        },
        None => Err(PageError::TooLarge),
    }
}

} // verus!
