use vstd::prelude::*;

verus! {

/// Size of one page, in bytes.
pub const PAGE_SIZE: usize = 65536;

/// A byte count.
#[derive(Clone, Copy, Debug, PartialEq, Eq, Structural)]
pub struct Bytes(pub usize);

/// A count of pages of `PAGE_SIZE` bytes each.
#[derive(Clone, Copy, Debug, PartialEq, Eq, Structural)]
pub struct Pages(pub usize);

impl Pages {
    /// Number of bytes spanned by this many pages, as a mathematical integer.
    pub open spec fn byte_len(self) -> int {
        self.0 * PAGE_SIZE
    }

    /// The byte count spanned by these pages, or `None` when it does not fit in `usize`.
    pub fn checked_bytes(self) -> (r: Option<Bytes>)
        ensures
            r == (if self.byte_len() <= usize::MAX {
                Some(Bytes(self.byte_len() as usize))
            } else {
                None::<Bytes>
            }),
    {
        match self.0.checked_mul(PAGE_SIZE) {
            Some(n) => Some(Bytes(n)),
            None => None,
        }
    }
}

impl Bytes {
    /// Fewest pages that together hold at least this many bytes.
    pub open spec fn pages_needed(self) -> int {
        (self.0 + PAGE_SIZE - 1) / (PAGE_SIZE as int)
    }

    /// Rounds this byte count up to whole pages.
    pub fn round_up_to_pages(self) -> (r: Pages)
        ensures
            r.0 == self.pages_needed(),
            r.byte_len() >= self.0,
            r.0 == 0 || (r.0 - 1) * PAGE_SIZE < self.0,
    {
        let whole = self.0 / PAGE_SIZE;
        let rest = self.0 % PAGE_SIZE;
        let r = if rest == 0 { whole } else { whole + 1 };
        let ghost n = self.0 as int;
        assert(r == (n + 65535) / 65536 && r * 65536 >= n && (r == 0 || (r - 1) * 65536 < n))
            by (nonlinear_arith)
            requires
                whole == n / 65536,
                rest == n % 65536,
                r == (if rest == 0 { whole as int } else { whole + 1 }),
        ;
        Pages(r)
    }
}

/// Converting a page count to bytes and rounding those bytes up to pages
/// gives back the same page count.
pub proof fn lemma_pages_bytes_round_trip(p: Pages)
    requires
        p.byte_len() <= usize::MAX,
    ensures
        Bytes(p.byte_len() as usize).pages_needed() == p.0,
{
    let n = p.0 as int;
    assert((n * 65536 + 65535) / 65536 == n) by (nonlinear_arith)
        requires
            n >= 0,
    ;
}

} // verus!
