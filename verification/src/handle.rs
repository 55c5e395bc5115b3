//! The context handle: reference-counted, reader/writer-exclusive shared
//! access to one rendering context across host-runtime threads.
//!
//! Any number of read accesses may proceed together; a write access
//! excludes all other accesses. The lock keeps one invariant: every
//! context stored in it is well-formed, so every reader sees a
//! well-formed context and every writer must leave one behind.

use vstd::prelude::*;
use vstd::rwlock::{ReadHandle, RwLock, RwLockPredicate, WriteHandle};

use std::sync::Arc;

use crate::context::Context;
use crate::device::MAX_DIM;

verus! {

/// The lock predicate of a context handle: only well-formed contexts are
/// ever stored.
pub struct ContextInv {}

impl RwLockPredicate<Context> for ContextInv {
    open spec fn inv(self, v: Context) -> bool {
        v.wf()
    }
}

/// A reference-counted wrapper giving shared, synchronized access to one
/// rendering context. Clones share the same underlying context; the
/// context lives as long as its longest-lived holder.
#[derive(Clone)]
pub struct ContextWrapper {
    inner: Arc<RwLock<Context, ContextInv>>,
}

/// Relies on std's `Arc::clone`: the returned handle is a new reference
/// to the very same allocation, so its mathematical value is the same.
#[verifier::external_body]
fn arc_clone(a: &Arc<RwLock<Context, ContextInv>>) -> (r: Arc<RwLock<Context, ContextInv>>)
    ensures
        r == *a,
{
    Arc::clone(a)
}

impl ContextWrapper {
    /// The shared lock this handle refers to.
    pub closed spec fn lock(self) -> RwLock<Context, ContextInv> {
        *self.inner
    }

    /// The handle's lock is configured with the well-formedness
    /// invariant.
    pub open spec fn wf(self) -> bool {
        self.lock().pred() == (ContextInv {  })
    }

    /// Takes ownership of a freshly built context; the sole creation
    /// path for a handle.
    pub fn new(context: Context) -> (w: ContextWrapper)
        requires
            context.wf(),
        ensures
            w.wf(),
    {
        ContextWrapper { inner: Arc::new(RwLock::new(context, Ghost(ContextInv {  }))) }
    }

    /// A new handle sharing the same underlying context — reference
    /// counted, not a deep copy.
    pub fn share(&self) -> (w: ContextWrapper)
        ensures
            w.lock() == self.lock(),
            self.wf() ==> w.wf(),
    {
        ContextWrapper { inner: arc_clone(&self.inner) }
    }

    /// A scoped read access: the context seen through it is well-formed,
    /// and any number of such accesses may be held at once.
    pub fn get_context<'a>(&'a self) -> (h: ReadHandle<'a, Context, ContextInv>)
        requires
            self.wf(),
        ensures
            h.rwlock() == self.lock(),
            h@.wf(),
    {
        self.inner.acquire_read()
    }

    /// A scoped write access: the context handed out is well-formed, and
    /// the handle's `release_write` demands a well-formed context back.
    pub fn get_context_mut<'a>(&'a self) -> (ret: (Context, WriteHandle<'a, Context, ContextInv>))
        requires
            self.wf(),
        ensures
            ret.0.wf(),
            ret.1.rwlock() == self.lock(),
    {
        self.inner.acquire_write()
    }

    /// This handle, boxed; host layers keep it behind a stable address.
    pub fn into_box(self) -> (b: Box<ContextWrapper>)
        ensures
            *b == self,
    {
        Box::new(self)
    }

    /// The shared inner lock, for handing to [`ContextWrapper::from_inner`].
    pub fn get_inner(&self) -> (r: &Arc<RwLock<Context, ContextInv>>)
        ensures
            **r == self.lock(),
    {
        &self.inner
    }

    /// Rebuilds a handle around an already shared lock.
    pub fn from_inner(inner: Arc<RwLock<Context, ContextInv>>) -> (w: ContextWrapper)
        requires
            (*inner).pred() == (ContextInv {  }),
        ensures
            w.wf(),
            w.lock() == *inner,
    {
        ContextWrapper { inner }
    }

    /// Write-locks the context and rebuilds its surface at the new
    /// dimensions, with density, alpha and dots-per-inch carried over
    /// from its device.
    pub fn resize(&mut self, width: u32, height: u32)
        requires
            old(self).wf(),
            0 < width <= MAX_DIM,
            0 < height <= MAX_DIM,
        ensures
            *final(self) == *old(self),
    {
        let (mut context, handle) = self.inner.acquire_write();
        context.resize(width, height);
        handle.release_write(context);
    }

    /// Write-locks the context and rebuilds its surface for a GPU
    /// target. The caller re-queries the platform framebuffer binding
    /// for this very call — the binding is surface-generation-specific
    /// and is never cached across resizes.
    pub fn resize_gl(&mut self, width: u32, height: u32, framebuffer_binding: i32)
        requires
            old(self).wf(),
            0 < width <= MAX_DIM,
            0 < height <= MAX_DIM,
        ensures
            *final(self) == *old(self),
    {
        let (mut context, handle) = self.inner.acquire_write();
        context.resize_gl(width, height, framebuffer_binding);
        handle.release_write(context);
    }
}

} // verus!
