use vstd::prelude::*;

verus! {

/// The platform's layout of raw context storage: its size in bytes and the
/// offset of the region that its self-referential field must point at.
#[derive(Clone, Copy, Debug, PartialEq, Eq, Structural)]
pub struct Layout {
    pub size: usize,
    pub fpregs_offset: usize,
}

impl Layout {
    pub open spec fn wf(self) -> bool {
        0 < self.fpregs_offset < self.size
    }
}

/// The entry function's address as two 32-bit halves, the widest arguments the
/// operating system's construction call passes on.
#[derive(Clone, Copy, Debug, PartialEq, Eq, Structural)]
pub struct Entry {
    pub lower: u32,
    pub upper: u32,
}

/// What construction binds into storage: the stack it runs on and the
/// arguments of the trampoline that calls the entry function.
#[derive(Clone, Copy, Debug, PartialEq, Eq, Structural)]
pub struct Binding {
    pub stack_base: usize,
    pub stack_size: usize,
    pub entry: Entry,
}

/// Raw context storage as this library sees it: the address the record
/// occupies now, the platform layout, the self-referential field, the link to
/// the storage resumed when a constructed context's entry function returns
/// (zero for none), what construction bound into it, and the opaque machine
/// state.
pub struct Frame {
    pub base: usize,
    pub layout: Layout,
    pub fpregs: usize,
    pub link: usize,
    pub bound: Option<Binding>,
    pub regs: Vec<u64>,
}

/// True when `p` points strictly inside the record of `size` bytes at `base`.
pub open spec fn within(p: usize, base: usize, size: usize) -> bool {
    base < p && p < base + size
}

impl Frame {
    /// The layout is sound and the whole record lies in the address space.
    pub open spec fn wf(&self) -> bool {
        &&& self.layout.wf()
        &&& self.base + self.layout.size <= usize::MAX
    }

    /// Where the self-referential field must point for the record's current
    /// address.
    pub open spec fn anchor(&self) -> int {
        self.base + self.layout.fpregs_offset
    }

    /// The self-referential field agrees with the record's current address.
    pub open spec fn anchored(&self) -> bool {
        self.fpregs == self.anchor()
    }

    pub open spec fn contains(&self, p: usize) -> bool {
        within(p, self.base, self.layout.size)
    }

    /// Storage as the operating system fills it at capture time at address
    /// `base`: its self-referential field points into the record itself.
    pub fn captured(base: usize, layout: Layout, regs: Vec<u64>) -> (r: Frame)
        requires
            layout.wf(),
            base + layout.size <= usize::MAX,
        ensures
            r.wf(),
            r.anchored(),
            r.base == base,
            r.layout == layout,
            r.link == 0,
            r.bound is None,
            r.regs@ == regs@,
    {
        Frame { base, layout, fpregs: base + layout.fpregs_offset, link: 0, bound: None, regs }
    }

    /// The record has been moved, bytes unchanged, to `new_base`: its
    /// self-referential field still names the old place.
    pub fn relocate(&mut self, new_base: usize)
        requires
            new_base + old(self).layout.size <= usize::MAX,
        ensures
            final(self).base == new_base,
            final(self).layout == old(self).layout,
            final(self).fpregs == old(self).fpregs,
            final(self).link == old(self).link,
            final(self).bound == old(self).bound,
            final(self).regs@ == old(self).regs@,
    {
        self.base = new_base;
    }

    /// Recomputes the self-referential field for the record's current address;
    /// nothing else changes.
    pub fn after_move(&mut self)
        requires
            old(self).wf(),
        ensures
            final(self).wf(),
            final(self).anchored(),
            final(self).base == old(self).base,
            final(self).layout == old(self).layout,
            final(self).link == old(self).link,
            final(self).bound == old(self).bound,
            final(self).regs@ == old(self).regs@,
    {
        self.fpregs = self.base + self.layout.fpregs_offset;
    }

    /// Whether `p` points strictly inside this record.
    pub fn holds(&self, p: usize) -> (r: bool)
        requires
            self.wf(),
        ensures
            r == self.contains(p),
    {
        self.base < p && p < self.base + self.layout.size
    }
}

/// Exchanges the contents of two records in place, each keeping its address,
/// and recomputes each one's self-referential field for where it now lies.
/// Links travel with the contents they belong to.
pub fn swap_frames(a: &mut Frame, b: &mut Frame)
    requires
        old(a).wf(),
        old(b).wf(),
        old(a).layout == old(b).layout,
    ensures
        final(a).wf(),
        final(b).wf(),
        final(a).anchored(),
        final(b).anchored(),
        final(a).base == old(a).base,
        final(b).base == old(b).base,
        final(a).layout == old(a).layout,
        final(b).layout == old(b).layout,
        final(a).link == old(b).link,
        final(b).link == old(a).link,
        final(a).bound == old(b).bound,
        final(b).bound == old(a).bound,
        final(a).regs@ == old(b).regs@,
        final(b).regs@ == old(a).regs@,
{
    let a_base = a.base;
    let b_base = b.base;
    std::mem::swap(a, b);
    a.relocate(a_base);
    b.relocate(b_base);
    a.after_move();
    b.after_move();
}

/// Moving a captured record and then fixing it up leaves its self-referential
/// field inside the new record, and outside the old one where the two places
/// do not overlap.
pub proof fn lemma_move_fixup_round_trip(f: Frame, new_base: usize, g: Frame)
    requires
        f.wf(),
        f.anchored(),
        new_base + f.layout.size <= usize::MAX,
        g.base == new_base,
        g.layout == f.layout,
        g.anchored(),
    ensures
        g.contains(g.fpregs),
        new_base >= f.base + f.layout.size || f.base >= new_base + f.layout.size
            ==> !f.contains(g.fpregs),
{
}

/// After a swap each record's self-referential field lies inside its own
/// record, and a link that pointed into its own record before the swap points
/// into the other record after it.
pub proof fn lemma_swap_symmetry(a0: Frame, b0: Frame, a1: Frame, b1: Frame)
    requires
        a0.wf(),
        b0.wf(),
        a0.layout == b0.layout,
        a0.contains(a0.link),
        b0.contains(b0.link),
        a1.base == a0.base,
        b1.base == b0.base,
        a1.layout == a0.layout,
        b1.layout == b0.layout,
        a1.anchored(),
        b1.anchored(),
        a1.link == b0.link,
        b1.link == a0.link,
    ensures
        a1.contains(a1.fpregs),
        b1.contains(b1.fpregs),
        b1.contains(a1.link),
        a1.contains(b1.link),
{
}

} // verus!
