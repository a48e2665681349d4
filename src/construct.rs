use vstd::prelude::*;
use crate::context::{Context, ContextError};
use crate::frame::{Binding, Entry, Frame};
use crate::token::{without, Id, IdTable};

verus! {

/// The two 32-bit halves of an entry function's address.
pub open spec fn halves(call: u64) -> Entry {
    Entry { lower: (call % 0x1_0000_0000) as u32, upper: (call / 0x1_0000_0000) as u32 }
}

/// The address that two halves stand for.
pub open spec fn joined(e: Entry) -> int {
    e.lower + e.upper * 0x1_0000_0000
}

/// Splits an entry function's address into the halves handed to the
/// trampoline.
pub fn split_entry(call: u64) -> (r: Entry)
    ensures
        r == halves(call),
{
    let lower = call & 0xffff_ffff;
    let upper = call >> 32;
    assert(lower == call % 0x1_0000_0000) by (bit_vector)
        requires
            lower == call & 0xffff_ffff,
    ;
    assert(upper == call / 0x1_0000_0000) by (bit_vector)
        requires
            upper == call >> 32,
    ;
    Entry { lower: lower as u32, upper: upper as u32 }
}

/// Reassembles, inside the trampoline, the address that `split_entry` split.
pub fn join_entry(e: Entry) -> (r: u64)
    ensures
        r == joined(e),
{
    let lower = e.lower as u64;
    let upper = e.upper as u64;
    let r = lower | (upper << 32);
    assert(r == lower + upper * 0x1_0000_0000) by (bit_vector)
        requires
            lower < 0x1_0000_0000,
            upper < 0x1_0000_0000,
            r == lower | (upper << 32),
    ;
    r
}

/// Splitting an address and joining the halves gives the address back.
pub proof fn lemma_entry_round_trip(call: u64)
    ensures
        joined(halves(call)) == call,
{
}

/// `c` is the context that construction builds in storage `context` on
/// `stack` (at address `stack_base`) for entry function `call`, falling
/// through to `successor`.
pub open spec fn wired(
    c: Context,
    successor: Context,
    context: Frame,
    stack: Seq<u8>,
    stack_base: usize,
    call: u64,
) -> bool {
    &&& c.persistent is Some
    &&& c.persistent->Some_0.stack@ == stack
    &&& c.persistent->Some_0.successor == successor.id
    &&& c.context.base == context.base
    &&& c.context.layout == context.layout
    &&& c.context.fpregs == context.fpregs
    &&& c.context.regs@ == context.regs@
    &&& c.context.link == successor.context.base
    &&& c.context.bound == Some(
        Binding { stack_base, stack_size: stack.len() as usize, entry: halves(call) },
    )
}

/// Builds the context that runs entry function `call` on `stack` (at address
/// `stack_base`) from storage `context`, which the operating system captured
/// with outcome `captured`, and that falls through to `successor` when the
/// entry function returns. A failed capture yields no context and creates no
/// token.
pub fn makecontext(
    ids: &mut IdTable,
    successor: &Context,
    context: Frame,
    stack: Vec<u8>,
    stack_base: usize,
    call: u64,
    captured: Result<(), i32>,
) -> (r: Result<Context, ContextError>)
    ensures
        captured is Err ==> r == Err::<Context, ContextError>(ContextError::Os(captured->Err_0))
            && final(ids)@ == old(ids)@,
        captured is Ok ==> r is Ok && r->Ok_0.id.tag == old(ids)@.len() && final(ids)@ == old(
            ids,
        )@.push(true) && wired(r->Ok_0, *successor, context, stack@, stack_base, call),
{
    match captured {
        Err(code) => Err(ContextError::Os(code)),
        Ok(()) => {
            let ghost frame = context;
            let ghost bytes = stack@;
            let stack_size = stack.len();
            let mut context = context;
            context.link = successor.context.base;
            context.bound = Some(Binding { stack_base, stack_size, entry: split_entry(call) });
            let c = Context::new(ids, context, stack, successor.id);
            assert(wired(c, *successor, frame, bytes, stack_base, call));
            Ok(c)
        },
    }
}

/// Whether a construction guard can still be released.
pub open spec fn can_release(guard: Option<Id>) -> bool {
    guard is Some
}

/// Releases a construction guard: invalidates the token it holds and empties
/// it. Releasing an empty guard means the successor was resumed twice, which
/// callers must treat as fatal.
pub fn release_guard(ids: &mut IdTable, guard: &mut Option<Id>)
    requires
        can_release(*old(guard)),
    ensures
        *final(guard) == None::<Id>,
        final(ids)@ == without(old(ids)@, old(guard)->Some_0.tag),
{
    let id = guard.take().unwrap();
    ids.invalidate(id);
}

/// Once a guard is released it can never be released again: a second pass
/// through the successor path finds it empty and is fatal.
pub proof fn lemma_guard_single_use(before: Option<Id>, after: Option<Id>)
    requires
        can_release(before),
        after == None::<Id>,
    ensures
        !can_release(after),
{
}

/// A constructed context runs its entry function, the address handed to
/// construction, and when that returns falls through to its successor's
/// storage, with no transfer written in the entry function.
pub proof fn lemma_fall_through(
    c: Context,
    successor: Context,
    context: Frame,
    stack: Seq<u8>,
    stack_base: usize,
    call: u64,
)
    requires
        wired(c, successor, context, stack, stack_base, call),
    ensures
        c.context.bound is Some,
        joined(c.context.bound->Some_0.entry) == call,
        c.context.link == successor.context.base,
        c.persistent->Some_0.successor == successor.id,
{
    lemma_entry_round_trip(call);
}

} // verus!
