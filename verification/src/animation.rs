//! Which frame of a sprite sheet an animation shows.

use vstd::prelude::*;

verus! {

/// The frames of a looping animation, as places on a sprite sheet, and the
/// one that is shown next.
#[derive(Debug, PartialEq, Eq)]
pub struct Frames {
    frames: Vec<usize>,
    current: usize,
}

/// What an animation is: its frames and the place of the next one among
/// them.
pub struct FramesView {
    pub frames: Seq<usize>,
    pub current: nat,
}

impl FramesView {
    /// There is at least one frame, and the next one is one of them.
    pub open spec fn wf(self) -> bool {
        self.current < self.frames.len()
    }

    /// The frame that is shown next.
    pub open spec fn frame(self) -> usize {
        self.frames[self.current as int]
    }

    /// The animation one frame further, back at the first after the last.
    pub open spec fn stepped(self) -> FramesView {
        if self.current + 1 == self.frames.len() {
            FramesView { current: 0, ..self }
        } else {
            FramesView { current: self.current + 1, ..self }
        }
    }
}

impl View for Frames {
    type V = FramesView;

    closed spec fn view(&self) -> FramesView {
        FramesView { frames: self.frames@, current: self.current as nat }
    }
}

impl Clone for Frames {
    fn clone(&self) -> (copy: Self)
        ensures
            copy@ == self@,
    {
        proof {
            use_type_invariant(self);
        }
        Frames { frames: self.frames.clone(), current: self.current }
    }
}

impl Frames {
    #[verifier::type_invariant]
    pub open spec fn inv(&self) -> bool {
        self@.wf()
    }

    /// The animation that loops through `frames`, which are not none, from
    /// the first.
    pub fn new(frames: Vec<usize>) -> (animation: Self)
        requires
            frames@.len() > 0,
        ensures
            animation@.frames == frames@,
            animation@.current == 0,
    {
        Frames { frames, current: 0 }
    }

    /// The frame to show now. The animation moves on to the one after it,
    /// and from the last back to the first.
    pub fn advance(&mut self) -> (frame: usize)
        ensures
            frame == old(self)@.frame(),
            final(self)@ == old(self)@.stepped(),
            final(self)@.wf(),
    {
        proof {
            use_type_invariant(&*self);
        }
        let count: usize = self.frames.len();
        let frame: usize = self.frames[self.current];
        let next: usize = self.current + 1;
        if next == count {
            self.current = 0;
        } else {
            self.current = next;
        }
        frame
    }
}

} // verus!
