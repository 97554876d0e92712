//! A value that is first owned, so that it can be changed, and later shared,
//! so that it can be handed out cheaply.

use vstd::prelude::*;
use std::sync::Arc;

verus! {

enum Inner<T> {
    Owned(T),
    Shared(Arc<T>),
    /// Stands in while the value moves from owned to shared.
    Empty,
}

/// A value that is owned until it is shared for the first time.
pub struct MaybeOwned<T> {
    inner: Inner<T>,
}

impl<T> MaybeOwned<T> {
    /// Whether the handle holds a value. Every handle that this module hands
    /// out does.
    pub closed spec fn wf(&self) -> bool {
        !(self.inner is Empty)
    }

    /// Whether the value can still be changed.
    pub closed spec fn is_owned(&self) -> bool {
        self.inner is Owned
    }

    /// The value held.
    pub closed spec fn value(&self) -> T {
        match self.inner {
            Inner::Owned(x) => x,
            Inner::Shared(a) => *a,
            Inner::Empty => arbitrary(),
        }
    }

    /// An owned handle to `val`.
    pub fn new(val: T) -> (r: MaybeOwned<T>)
        ensures
            r.wf(),
            r.is_owned(),
            r.value() == val,
    {
        MaybeOwned { inner: Inner::Owned(val) }
    }

    /// Whether the value can still be changed.
    pub fn owned(&self) -> (r: bool)
        requires
            self.wf(),
        ensures
            r == self.is_owned(),
    {
        match &self.inner {
            Inner::Owned(_) => true,
            _ => false,
        }
    }

    /// The value, to read.
    pub fn get(&self) -> (r: &T)
        requires
            self.wf(),
        ensures
            *r == self.value(),
    {
        match &self.inner {
            Inner::Owned(x) => x,
            Inner::Shared(x) => x,
            Inner::Empty => vstd::pervasive::unreached(),
        }
    }

    /// The value, to change, while it is owned. Once the value has been
    /// shared there is nothing to change, and the handle stays as it is.
    pub fn as_mut(&mut self) -> (r: Option<&mut T>)
        requires
            old(self).wf(),
        ensures
            old(self).is_owned() <==> r is Some,
            match r {
                Some(m) => *m == old(self).value() && final(self).wf() && final(self).is_owned()
                    && final(self).value() == *final(m),
                None => *final(self) == *old(self),
            },
    {
        match &mut self.inner {
            Inner::Owned(x) => Some(x),
            Inner::Shared(_) => None,
            Inner::Empty => None,
        }
    }

    /// The value, to change. The value must not have been shared.
    pub fn assert_mut(&mut self) -> (m: &mut T)
        requires
            old(self).wf(),
            old(self).is_owned(),
        ensures
            *m == old(self).value(),
            final(self).wf(),
            final(self).is_owned(),
            final(self).value() == *final(m),
    {
        match &mut self.inner {
            Inner::Owned(x) => x,
            _ => vstd::pervasive::unreached(),
        }
    }

    /// Shares the value, if it is not shared yet. The value stays what it is.
    pub fn make_shared(&mut self)
        requires
            old(self).wf(),
        ensures
            final(self).wf(),
            !final(self).is_owned(),
            final(self).value() == old(self).value(),
    {
        if let Inner::Shared(_) = self.inner {
            return ;
        }
        let mut inner = Inner::Empty;
        core::mem::swap(&mut self.inner, &mut inner);
        match inner {
            Inner::Owned(x) => {
                self.inner = Inner::Shared(Arc::new(x));
            },
            _ => vstd::pervasive::unreached(),
        }
    }

    /// Shares the value, if it is not shared yet, and returns the shared
    /// handle.
    pub fn arc(&mut self) -> (a: &Arc<T>)
        requires
            old(self).wf(),
        ensures
            final(self).wf(),
            !final(self).is_owned(),
            final(self).value() == old(self).value(),
            **a == old(self).value(),
    {
        self.make_shared();
        match &self.inner {
            Inner::Shared(x) => x,
            _ => vstd::pervasive::unreached(),
        }
    }
}

} // verus!
