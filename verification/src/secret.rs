use vstd::prelude::*;

verus! {

/// A value that must not leak into logs or debug output by accident.
#[derive(Clone, PartialEq, Eq)]
pub struct Secret<T> {
    inner: T,
}

impl<T> Secret<T> {
    /// The wrapped value.
    pub closed spec fn value(self) -> T {
        self.inner
    }

    /// The secret that wraps `v`.
    pub closed spec fn new_spec(v: T) -> Self {
        Secret { inner: v }
    }

    pub fn new(v: T) -> (r: Self)
        ensures
            r.value() == v,
            r == Self::new_spec(v),
    {
        Secret { inner: v }
    }

    pub fn expose_secret(&self) -> (r: &T)
        ensures
            *r == self.value(),
    {
        &self.inner
    }
}

} // verus!
