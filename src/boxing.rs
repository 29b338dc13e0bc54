//! The decisions of the bounding-box engine that do not depend on coordinates: where to search
//! for an extremum, and the lazily computed, cached box.
use vstd::prelude::*;

verus! {

/// Knot indices of the interval in which to refine an extremum that the sampling found at
/// sample `j`. The samples are the knots `p .. n - p` of a knot vector of `n` knots for degree
/// `p`, so sample `j` is knot `p + j`.
pub open spec fn bracket(j: int, p: int, n: int) -> (int, int) {
    if j == 0 {
        (p, p + 2)
    } else if j == n - 2 * p - 1 {
        (n - 2, n - 1)
    } else {
        (p + j - 1, p + j + 1)
    }
}

/// The interval, as two knot indices, around sample `j` in which to search for an extremum:
/// the first two spans for the first sample, the last span for the last sample, and the two
/// spans around the sample otherwise.
pub fn bracket_interval(j: usize, p: usize, n: usize) -> (r: (usize, usize))
    requires
        n >= 2 * p + 1,
        n >= p + 3,
        j < n - 2 * p,
    ensures
        (r.0 as int, r.1 as int) == bracket(j as int, p as int, n as int),
        r.0 < r.1 < n,
{
    if j == 0 {
        (p, p + 2)
    } else if j == n - 2 * p - 1 {
        (n - 2, n - 1)
    } else {
        (p + j - 1, p + j + 1)
    }
}

/// What is stored after a computation that gave `fresh`: its value if it succeeded, nothing
/// otherwise.
pub open spec fn stored<T, E>(fresh: Result<T, E>) -> Option<T> {
    match fresh {
        Ok(v) => Some(v),
        Err(_) => None,
    }
}

/// The cache that results from a get-or-compute on cache `c`, and what it returns, where
/// `fresh` is what a computation would give: a stored value is returned as it is; otherwise the
/// computation's outcome is returned and, if it succeeded, stored.
pub open spec fn cache_step<T, E>(c: Option<T>, fresh: Result<T, E>) -> (Option<T>, Result<T, E>) {
    match c {
        Some(v) => (c, Ok(v)),
        None => (stored(fresh), fresh),
    }
}

/// A value computed at most once, on first request, and kept until it is recomputed on
/// demand.
#[derive(Clone, Copy, Debug)]
pub enum BoxCache<T> {
    Uncomputed,
    Computed(T),
}

impl<T> View for BoxCache<T> {
    type V = Option<T>;

    open spec fn view(&self) -> Option<T> {
        match self {
            BoxCache::Uncomputed => None,
            BoxCache::Computed(v) => Some(*v),
        }
    }
}

impl<T: Copy> BoxCache<T> {
    /// A cache with nothing computed yet.
    pub fn new() -> (r: Self)
        ensures
            r@ is None,
    {
        BoxCache::Uncomputed
    }

    /// The stored value, if there is one.
    pub fn get(&self) -> (r: Option<T>)
        ensures
            r == self@,
    {
        match self {
            BoxCache::Uncomputed => None,
            BoxCache::Computed(v) => Some(*v),
        }
    }

    /// The stored value; when there is none, the outcome of `compute`, whose value is stored if
    /// it succeeded. `compute` is called only when nothing is stored.
    pub fn get_or_compute<E, F: FnOnce() -> Result<T, E>>(&mut self, compute: F) -> (r: Result<T, E>)
        requires
            old(self)@ is None ==> compute.requires(()),
        ensures
            old(self)@ is None ==> compute.ensures((), r),
            (final(self)@, r) == cache_step(old(self)@, r),
    {
        match self {
            BoxCache::Computed(v) => Ok(*v),
            BoxCache::Uncomputed => {
                let fresh = compute();
                match fresh {
                    Ok(v) => {
                        *self = BoxCache::Computed(v);
                        Ok(v)
                    },
                    Err(e) => Err(e),
                }
            },
        }
    }

    /// Computes the value again with `compute` and stores it if that succeeded; after a failure
    /// the cache is as it was.
    pub fn recompute<E, F: FnOnce() -> Result<T, E>>(&mut self, compute: F) -> (r: Result<T, E>)
        requires
            compute.requires(()),
        ensures
            compute.ensures((), r),
            r matches Ok(v) ==> final(self)@ == Some(v),
            r is Err ==> final(self)@ == old(self)@,
    {
        let fresh = compute();
        match fresh {
            Ok(v) => {
                *self = BoxCache::Computed(v);
                Ok(v)
            },
            Err(e) => Err(e),
        }
    }
}

/// Once a get-or-compute has succeeded, another one returns the same value and leaves the
/// cache as it is, whatever a computation would give the second time.
pub proof fn lemma_get_box_idempotent<T, E>(c: Option<T>, first: Result<T, E>, second: Result<T, E>)
    requires
        cache_step(c, first).1 is Ok,
    ensures
        cache_step(cache_step(c, first).0, second) == cache_step(c, first),
{
}

} // verus!
