use vstd::prelude::*;
use crate::frame::{swap_frames, Frame};
use crate::token::{Id, IdTable};

verus! {

/// What a context built by construction owns beyond its storage: the stack it
/// runs on and the token of the context resumed when its entry function
/// returns.
pub struct Persistent {
    pub stack: Vec<u8>,
    pub successor: Id,
}

/// A resumable point of execution: its identity token, its raw storage, and,
/// for a context built by construction, what it owns.
pub struct Context {
    pub id: Id,
    pub context: Frame,
    pub persistent: Option<Persistent>,
}

/// Raw storage handed over by the operating system (for instance to a signal
/// handler), with no token and nothing owned.
pub struct HandlerContext(pub Frame);

/// Why an operation did not produce what was asked for.
#[derive(Clone, Copy, Debug, PartialEq, Eq, Structural)]
pub enum ContextError {
    /// The operating system's call failed with this code.
    Os(i32),
    /// Restoring from storage not made by this library is not supported.
    Unsupported,
}

impl Context {
    /// A context with a fresh token around `context`.
    pub fn from(ids: &mut IdTable, context: Frame, persistent: Option<Persistent>) -> (r: Context)
        ensures
            r.id.tag == old(ids)@.len(),
            final(ids)@ == old(ids)@.push(true),
            r.context == context,
            r.persistent == persistent,
    {
        Context { id: ids.create(), context, persistent }
    }

    /// A context as plain capture makes it: nothing owned.
    pub fn default(ids: &mut IdTable, context: Frame) -> (r: Context)
        ensures
            r.id.tag == old(ids)@.len(),
            final(ids)@ == old(ids)@.push(true),
            r.context == context,
            r.persistent is None,
    {
        Self::from(ids, context, None)
    }

    /// A context as construction makes it: it owns `stack` and names
    /// `successor`.
    pub fn new(ids: &mut IdTable, context: Frame, stack: Vec<u8>, successor: Id) -> (r: Context)
        ensures
            r.id.tag == old(ids)@.len(),
            final(ids)@ == old(ids)@.push(true),
            r.context == context,
            r.persistent == Some(Persistent { stack, successor }),
    {
        Self::from(ids, context, Some(Persistent { stack, successor }))
    }

    /// Exchanges this context's storage with storage handed over by the
    /// operating system, bypassing the token; each record keeps its address
    /// and has its self-referential field recomputed.
    pub fn swap(&mut self, other: &mut HandlerContext)
        requires
            old(self).context.wf(),
            old(other).0.wf(),
            old(self).context.layout == old(other).0.layout,
        ensures
            final(self).id == old(self).id,
            final(self).persistent == old(self).persistent,
            final(self).context.wf(),
            final(other).0.wf(),
            final(self).context.anchored(),
            final(other).0.anchored(),
            final(self).context.base == old(self).context.base,
            final(other).0.base == old(other).0.base,
            final(self).context.layout == old(self).context.layout,
            final(other).0.layout == old(other).0.layout,
            final(self).context.link == old(other).0.link,
            final(other).0.link == old(self).context.link,
            final(self).context.bound == old(other).0.bound,
            final(other).0.bound == old(self).context.bound,
            final(self).context.regs@ == old(other).0.regs@,
            final(other).0.regs@ == old(self).context.regs@,
    {
        swap_frames(&mut self.context, &mut other.0);
    }
}

} // verus!
