use vstd::prelude::*;

verus! {

/// The handle to the current engine execution context: the isolation
/// domain that is active for this native call chain, and the root stack
/// on which transient iteration state is registered. The root stack is
/// modelled by its depth alone, as ghost state: a push is owed exactly
/// one pop, and the depth is restored by the time every conversion
/// returns.
pub struct Context {
    pub compartment: u32,
    pub roots: Ghost<nat>,
}

impl Context {
    /// A context for the given isolation domain, with an empty root stack.
    pub fn new(compartment: u32) -> (cx: Context)
        ensures
            cx.compartment == compartment,
            cx.roots@ == 0,
    {
        Context { compartment, roots: Ghost(0) }
    }

    /// The isolation domain this context is bound to.
    pub fn compartment(&self) -> (c: u32)
        ensures
            c == self.compartment,
    {
        self.compartment
    }
}

/// The scoped registration of a for-of iterator's internal state on the
/// context's root stack. Construction pushes the entry; `release`
/// consumes the guard and pops it. Because `release` takes the guard by
/// value, the entry can be popped exactly once, and an unbalanced pop is
/// structurally impossible; the contracts of the conversion functions
/// state that the depth is restored on every exit path.
pub struct ForOfIteratorGuard {
    pub entered_at: Ghost<nat>,
}

impl ForOfIteratorGuard {
    /// Pushes the iterator's state onto the root stack of `cx`.
    pub fn new(cx: &mut Context) -> (guard: ForOfIteratorGuard)
        ensures
            final(cx).compartment == old(cx).compartment,
            final(cx).roots@ == old(cx).roots@ + 1,
            guard.entered_at@ == old(cx).roots@,
    {
        let ghost depth = cx.roots@;
        cx.roots = Ghost(cx.roots@ + 1);
        ForOfIteratorGuard { entered_at: Ghost(depth) }
    }

    /// Pops the entry this guard pushed. Consumes the guard.
    pub fn release(self, cx: &mut Context)
        requires
            old(cx).roots@ == self.entered_at@ + 1,
        ensures
            final(cx).compartment == old(cx).compartment,
            final(cx).roots@ == self.entered_at@,
    {
        cx.roots = Ghost((cx.roots@ - 1) as nat);
    }
}

} // verus!

verus! {

use crate::value::ObjectData;
use crate::value::obj_view;

/// The isolation-domain assertion: an object produced by a conversion
/// must belong to the active context's domain. In the engine this check
/// aborts the process on violation — it is a programming error, not a
/// recoverable condition — so verified callers must rule the violation
/// out beforehand, which the precondition states.
pub fn assert_same_compartment(cx: &Context, o: &ObjectData)
    requires
        obj_view(*o).compartment == cx.compartment as int,
{
}

} // verus!
