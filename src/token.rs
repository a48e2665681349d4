use vstd::prelude::*;

verus! {

/// A generation tag: the position at which a token was created.
#[derive(Clone, Copy, Debug, PartialEq, Eq, Structural)]
pub struct Id {
    pub tag: u64,
}

/// True when the token `tag` has been created and not yet invalidated.
pub open spec fn live(t: Seq<bool>, tag: u64) -> bool {
    tag < t.len() && t[tag as int]
}

/// The validity flags after every token created strictly after `tag` is
/// invalidated.
pub open spec fn without_subsequent(t: Seq<bool>, tag: u64) -> Seq<bool> {
    Seq::new(t.len(), |i: int| t[i] && i <= tag)
}

/// The validity flags after the token `tag` is invalidated.
pub open spec fn without(t: Seq<bool>, tag: u64) -> Seq<bool> {
    Seq::new(t.len(), |i: int| t[i] && i != tag)
}

/// The process-wide table of identity tokens. Tags come from a monotonic
/// counter (the length of the table), so a later token always has a larger
/// tag, and an invalidated token never becomes valid again.
pub struct IdTable {
    valid: Vec<bool>,
}

impl View for IdTable {
    type V = Seq<bool>;

    closed spec fn view(&self) -> Seq<bool> {
        self.valid@
    }
}

impl IdTable {
    /// A table in which no token has been created yet.
    pub fn new() -> (r: IdTable)
        ensures
            r@ == Seq::<bool>::empty(),
    {
        IdTable { valid: Vec::new() }
    }

    /// How many tokens have been created.
    pub fn len(&self) -> (r: u64)
        ensures
            r == self@.len(),
    {
        self.valid.len() as u64
    }

    /// Creates a fresh token, valid and later than every existing one.
    pub fn create(&mut self) -> (r: Id)
        ensures
            r.tag == old(self)@.len(),
            final(self)@ == old(self)@.push(true),
    {
        let tag = self.valid.len() as u64;
        self.valid.push(true);
        Id { tag }
    }

    /// Whether `id` is still valid.
    pub fn is_valid(&self, id: Id) -> (r: bool)
        ensures
            r == live(self@, id.tag),
    {
        if id.tag < self.valid.len() as u64 {
            self.valid[id.tag as usize]
        } else {
            false
        }
    }

    /// Invalidates `id`; this cannot be undone.
    pub fn invalidate(&mut self, id: Id)
        ensures
            final(self)@ == without(old(self)@, id.tag),
    {
        if id.tag < self.valid.len() as u64 {
            self.valid.set(id.tag as usize, false);
        }
        assert(self@ =~= without(old(self)@, id.tag));
    }

    /// Invalidates every token created strictly after `id`.
    pub fn invalidate_subsequent(&mut self, id: Id)
        ensures
            final(self)@ == without_subsequent(old(self)@, id.tag),
    {
        let n = self.valid.len();
        let mut i: usize = n;
        while i > 0
            invariant
                i <= n,
                n == self@.len(),
                n == old(self)@.len(),
                forall|j: int| 0 <= j < i ==> self@[j] == old(self)@[j],
                forall|j: int|
                    i <= j < n ==> self@[j] == (old(self)@[j] && j <= id.tag),
            decreases i,
        {
            i = i - 1;
            if i as u64 > id.tag {
                self.valid.set(i, false);
            }
        }
        assert(self@ =~= without_subsequent(old(self)@, id.tag));
    }
}

} // verus!
