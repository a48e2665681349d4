use vstd::prelude::*;
use crate::context::{Context, ContextError};

verus! {

/// Which physical pass through a capture point is running: the first, right
/// after the capture, or a later one reached by a transfer into the captured
/// context.
#[derive(Clone, Copy, Debug, PartialEq, Eq, Structural)]
pub enum Pass {
    First,
    Resumed,
}

/// What the caller of a capture runs next: the one-shot callback with the
/// captured context, or the repeatable callback.
pub enum Capture {
    Scope(Context),
    Checkpoint,
}

pub open spec fn pass_of(unused: bool) -> Pass {
    if unused {
        Pass::First
    } else {
        Pass::Resumed
    }
}

/// The passes seen by `n` successive observations of a liveness flag that
/// starts as `unused`.
pub open spec fn passes(unused: bool, n: nat) -> Seq<Pass>
    decreases n,
{
    if n == 0 {
        Seq::empty()
    } else {
        seq![pass_of(unused)] + passes(false, (n - 1) as nat)
    }
}

/// Reads the liveness flag and clears it: only the first observation of a
/// fresh flag is the first pass.
pub fn observe(unused: &mut bool) -> (r: Pass)
    ensures
        r == pass_of(*old(unused)),
        !*final(unused),
{
    if *unused {
        *unused = false;
        Pass::First
    } else {
        Pass::Resumed
    }
}

/// Decides what follows the operating system's capture of `this`, given its
/// outcome (`Err` with the system's code on failure) and the liveness flag of
/// the capture point. On the first pass the one-shot callback gets the
/// context; on a later pass the context is dropped and the repeatable callback
/// runs. A failed capture yields no context and leaves the flag alone.
pub fn getcontext(this: Context, unused: &mut bool, captured: Result<(), i32>) -> (r: Result<
    Capture,
    ContextError,
>)
    ensures
        captured is Err ==> r == Err::<Capture, ContextError>(ContextError::Os(captured->Err_0))
            && *final(unused) == *old(unused),
        captured is Ok && *old(unused) ==> r == Ok::<Capture, ContextError>(Capture::Scope(this))
            && !*final(unused),
        captured is Ok && !*old(unused) ==> r == Ok::<Capture, ContextError>(Capture::Checkpoint)
            && !*final(unused),
{
    match captured {
        Err(code) => Err(ContextError::Os(code)),
        Ok(()) => match observe(unused) {
            Pass::First => Ok(Capture::Scope(this)),
            Pass::Resumed => Ok(Capture::Checkpoint),
        },
    }
}

/// However often a capture point is reached again, the one-shot callback runs
/// on exactly one pass, the first, and every later pass runs the repeatable
/// callback.
pub proof fn lemma_one_shot(n: nat)
    requires
        n >= 1,
    ensures
        passes(true, n).len() == n,
        passes(true, n)[0] == Pass::First,
        forall|i: int| 1 <= i < n ==> passes(true, n)[i] == Pass::Resumed,
    decreases n,
{
    lemma_all_resumed((n - 1) as nat);
    assert(passes(true, n) == seq![Pass::First] + passes(false, (n - 1) as nat));
}

proof fn lemma_all_resumed(n: nat)
    ensures
        passes(false, n).len() == n,
        forall|i: int| 0 <= i < n ==> passes(false, n)[i] == Pass::Resumed,
    decreases n,
{
    if n > 0 {
        lemma_all_resumed((n - 1) as nat);
    }
}

} // verus!
