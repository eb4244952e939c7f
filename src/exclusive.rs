use vstd::prelude::*;
use vstd::rwlock::RwLock;

verus! {

/// Bytes in one cache line; each cell carries this much padding so that two
/// cells placed side by side never share a line.
pub const CACHE_LINE_SIZE: usize = 64;

/// A value guarded by a lock, handed out to one unit of work at a time.
///
/// The cell is created with an invariant on the guarded value; every unit of
/// work receives a value that satisfies it and must hand back one that does.
#[verifier::reject_recursive_types(T)]
pub struct Exclusive<T> {
    lock: RwLock<T, spec_fn(T) -> bool>,
    #[allow(dead_code)]
    no_false_sharing: [u8; CACHE_LINE_SIZE],
}

impl<T> Exclusive<T> {
    /// The invariant that every value held in the cell satisfies.
    pub closed spec fn inv(&self, v: T) -> bool {
        self.lock.inv(v)
    }

    /// A cell that holds `value`, unlocked, with no constraint on what it may hold.
    pub fn new(value: T) -> (r: Self)
        ensures
            forall|v: T| r.inv(v),
    {
        Self::with_invariant(value, Ghost(|v: T| true))
    }

    /// A cell that holds `value`, unlocked, and keeps `inv` true of what it holds.
    pub fn with_invariant(value: T, Ghost(inv): Ghost<spec_fn(T) -> bool>) -> (r: Self)
        requires
            inv(value),
        ensures
            forall|v: T| r.inv(v) == inv(v),
    {
        Exclusive { lock: RwLock::new(value, Ghost(inv)), no_false_sharing: [0u8; CACHE_LINE_SIZE] }
    }

    /// Blocks until the lock is free, runs `f` on the guarded value while the
    /// lock is held, stores the value that `f` hands back, releases the lock,
    /// and returns what else `f` produced.
    ///
    /// `f` must not call this method on the same cell: the lock is not
    /// reentrant, and such a call waits forever.
    pub fn with_exclusive_access<F, U>(&self, f: F) -> (r: U)
        where
            F: FnOnce(T) -> (T, U),
        requires
            forall|v: T| self.inv(v) ==> #[trigger] f.requires((v,)),
            forall|v: T, out: (T, U)|
                self.inv(v) && #[trigger] f.ensures((v,), out) ==> self.inv(out.0),
        ensures
            exists|v: T, w: T| self.inv(v) && #[trigger] f.ensures((v,), (w, r)) && self.inv(w),
    {
        let (v, handle) = self.lock.acquire_write();
        let (w, r) = f(v);
        handle.release_write(w);
        r
    }

    /// Consumes the cell and returns the value it holds.
    pub fn into_inner(self) -> (v: T)
        ensures
            self.inv(v),
    {
        self.lock.into_inner()
    }
}

impl<T: Default> Default for Exclusive<T> {
    /// An unlocked cell that holds `T`'s default value.
    fn default() -> (r: Self)
        ensures
            forall|v: T| r.inv(v),
    {
        Self::new(T::default())
    }
}

} // verus!
