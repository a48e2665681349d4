use vstd::prelude::*;
use crate::context::{Context, ContextError};
use crate::token::{live, without, without_subsequent, IdTable};

verus! {

/// The outcome of a transfer request: the target is not live, or its storage
/// is ready for the operating system's switch.
#[derive(Clone, Copy, Debug, PartialEq, Eq, Structural)]
pub enum Transfer {
    Invalid,
    Proceed,
}

/// The token table after a transfer into the context with token `tag`: the
/// target is consumed and every token created after it is void.
pub open spec fn consumed(t: Seq<bool>, tag: u64) -> Seq<bool> {
    without(without_subsequent(t, tag), tag)
}

/// A constructed context's successor is still live.
pub open spec fn successor_live(t: Seq<bool>, c: Context) -> bool {
    c.persistent is Some ==> live(t, c.persistent->Some_0.successor.tag)
}

/// Decides a transfer into `continuation` (`None` for a null reference). A
/// null or invalidated target is refused and nothing changes. Otherwise the
/// target's token and every later one are invalidated and the target's
/// storage is fixed up for its current address, ready for the switch.
pub fn setcontext(ids: &mut IdTable, continuation: Option<&mut Context>) -> (r: Transfer)
    requires
        match continuation {
            Some(c) => live(old(ids)@, c.id.tag) ==> successor_live(old(ids)@, *c)
                && c.context.wf(),
            None => true,
        },
    ensures
        match continuation {
            None => r == Transfer::Invalid && final(ids)@ == old(ids)@,
            Some(c) => if live(old(ids)@, c.id.tag) {
                &&& r == Transfer::Proceed
                &&& final(ids)@ == consumed(old(ids)@, c.id.tag)
                &&& final(c).id == c.id
                &&& final(c).persistent == c.persistent
                &&& final(c).context.wf()
                &&& final(c).context.anchored()
                &&& final(c).context.base == c.context.base
                &&& final(c).context.layout == c.context.layout
                &&& final(c).context.link == c.context.link
                &&& final(c).context.bound == c.context.bound
                &&& final(c).context.regs@ == c.context.regs@
            } else {
                r == Transfer::Invalid && final(ids)@ == old(ids)@ && *final(c) == *c
            },
        },
{
    match continuation {
        None => Transfer::Invalid,
        Some(c) => {
            if !ids.is_valid(c.id) {
                return Transfer::Invalid;
            }
            ids.invalidate_subsequent(c.id);
            ids.invalidate(c.id);
            c.context.after_move();
            Transfer::Proceed
        },
    }
}

/// Restoring a context from storage that this library did not capture or
/// construct is not supported.
pub fn restorecontext(persistent: Context) -> (r: Result<(), ContextError>)
    ensures
        r == Err::<(), ContextError>(ContextError::Unsupported),
{
    Err(ContextError::Unsupported)
}

/// A token is single-use: once a transfer has consumed it, or its capturing
/// scope has invalidated it, it stays invalid whatever tokens are created
/// later, so every further transfer into it is refused.
pub proof fn lemma_single_use(t: Seq<bool>, tag: u64, created: nat)
    ensures
        !live(consumed(t, tag), tag),
        !live(without(t, tag), tag),
        tag < t.len() && !live(t, tag) ==> !live(t + Seq::new(created, |i: int| true), tag),
{
    if tag < t.len() {
        assert((t + Seq::new(created, |i: int| true))[tag as int] == t[tag as int]);
    }
}

/// A transfer into the context with token `a` voids every context captured
/// after it.
pub proof fn lemma_subsequent_invalidation(t: Seq<bool>, a: u64, b: u64)
    requires
        a < b,
    ensures
        !live(consumed(t, a), b),
{
}

} // verus!
