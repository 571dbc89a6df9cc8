//! Two render targets used in alternation: one is read by the compositor
//! while the other is drawn into.
use vstd::prelude::*;

verus! {

/// One framebuffer and the texture attached to it, as opaque GPU names.
#[derive(Clone, Copy, Debug, PartialEq, Eq, Structural)]
pub struct RenderTarget {
    pub framebuffer: u32,
    pub texture: u32,
}

/// Owns two render targets; a single flag decides which one is readable
/// (handed to the compositor) and which one is writable (drawn into next).
pub struct PingPongRenderer {
    targets: [RenderTarget; 2],
    current_target: bool,
}

impl PingPongRenderer {
    /// Slot of the target whose texture is submitted for display.
    pub closed spec fn read_slot(&self) -> int {
        if self.current_target {
            0
        } else {
            1
        }
    }

    /// Slot of the target that is drawn into.
    pub open spec fn write_slot(&self) -> int {
        1 - self.read_slot()
    }

    /// The target in slot `i` (0 or 1).
    pub closed spec fn target(&self, i: int) -> RenderTarget {
        self.targets@[i]
    }

    pub open spec fn readable(&self) -> RenderTarget {
        self.target(self.read_slot())
    }

    pub open spec fn writable(&self) -> RenderTarget {
        self.target(self.write_slot())
    }

    /// The two targets are distinct GPU resources.
    pub open spec fn wf(&self) -> bool {
        &&& self.target(0).texture != self.target(1).texture
        &&& self.target(0).framebuffer != self.target(1).framebuffer
    }

    /// Every renderer holds two distinct targets.
    #[verifier::type_invariant]
    spec fn distinct_targets(&self) -> bool {
        self.wf()
    }

    /// The renderer after one flip: same targets, roles swapped.
    pub closed spec fn flipped(self) -> PingPongRenderer {
        PingPongRenderer { targets: self.targets, current_target: !self.current_target }
    }

    /// The renderer after `n` flips.
    pub open spec fn flipped_n(self, n: nat) -> PingPongRenderer
        decreases n,
    {
        if n == 0 {
            self
        } else {
            self.flipped_n((n - 1) as nat).flipped()
        }
    }

    pub proof fn lemma_flipped(self)
        ensures
            self.flipped().target(0) == self.target(0),
            self.flipped().target(1) == self.target(1),
            self.flipped().read_slot() == self.write_slot(),
            self.flipped().write_slot() == self.read_slot(),
    {
    }

    /// Takes ownership of two distinct targets; the first one is written
    /// first and the second one is the first to be displayed.
    pub fn new(first: RenderTarget, second: RenderTarget) -> (r: PingPongRenderer)
        requires
            first.texture != second.texture,
            first.framebuffer != second.framebuffer,
        ensures
            r.wf(),
            r.target(0) == first,
            r.target(1) == second,
            r.write_slot() == 0,
            r.read_slot() == 1,
    {
        PingPongRenderer { targets: [first, second], current_target: false }
    }

    /// The texture last fully written, safe for the compositor to read; it
    /// is never the texture being drawn into.
    pub fn current_texture(&self) -> (r: u32)
        ensures
            r == self.readable().texture,
            r != self.writable().texture,
    {
        proof {
            use_type_invariant(self);
        }
        self.targets[if self.current_target { 0 } else { 1 }].texture
    }

    /// The framebuffer that is safe to draw into now.
    pub fn current_framebuffer(&self) -> (r: u32)
        ensures
            r == self.writable().framebuffer,
    {
        self.targets[if self.current_target { 1 } else { 0 }].framebuffer
    }

    /// The texture attached to the framebuffer that is drawn into now.
    pub fn writable_texture(&self) -> (r: u32)
        ensures
            r == self.writable().texture,
    {
        self.targets[if self.current_target { 1 } else { 0 }].texture
    }

    /// Both targets, in slot order (for releasing their GPU resources).
    pub fn targets(&self) -> (r: [RenderTarget; 2])
        ensures
            r@[0] == self.target(0),
            r@[1] == self.target(1),
    {
        self.targets
    }

    /// Swaps the read and write roles of the two targets.
    pub fn flip(&mut self)
        ensures
            *final(self) == old(self).flipped(),
            final(self).readable() == old(self).writable(),
            final(self).writable() == old(self).readable(),
            final(self).wf(),
    {
        proof {
            use_type_invariant(&*self);
        }
        self.current_target = !self.current_target;
    }
}

/// Over any number of flips the targets keep their distinct identities, the
/// texture handed to the compositor is never the one being drawn into, and
/// the roles alternate strictly: after an even number of flips they are as at
/// the start, after an odd number they are swapped.
pub proof fn lemma_flips_alternate(r: PingPongRenderer, n: nat)
    requires
        r.wf(),
    ensures
        r.flipped_n(n).wf(),
        r.flipped_n(n).readable().texture != r.flipped_n(n).writable().texture,
        n % 2 == 0 ==> r.flipped_n(n).readable() == r.readable()
            && r.flipped_n(n).writable() == r.writable(),
        n % 2 == 1 ==> r.flipped_n(n).readable() == r.writable()
            && r.flipped_n(n).writable() == r.readable(),
    decreases n,
{
    if n > 0 {
        lemma_flips_alternate(r, (n - 1) as nat);
        r.flipped_n((n - 1) as nat).lemma_flipped();
        r.lemma_flipped();
    }
    r.lemma_flipped();
}

} // verus!
