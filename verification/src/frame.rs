use vstd::prelude::*;

use crate::render::{blank, Display};

verus! {

/// What the animation loop does once a drawn frame has been handed to the
/// screen.
#[derive(Clone, Copy, Debug, PartialEq, Eq, Structural)]
pub enum FrameStep {
    /// Ask for the next animation frame.
    Continue,
    /// Stop the animation.
    Stop,
}

/// Decides how the animation loop goes on after a frame was handed to the
/// screen: when the frame was shown, the buffer is cleared for the next frame
/// and the loop continues; when showing it failed, the loop stops and the
/// buffer is left as it was.
pub fn finish_frame(disp: &mut Display, shown: bool) -> (step: FrameStep)
    requires
        shown ==> old(disp).width * old(disp).height * 4 <= usize::MAX,
    ensures
        shown ==> {
            &&& step == FrameStep::Continue
            &&& final(disp).width == old(disp).width
            &&& final(disp).height == old(disp).height
            &&& final(disp).pixels@ == blank(old(disp).width as int, old(disp).height as int)
            &&& final(disp).pixels@.len() == old(disp).width * old(disp).height * 4
            &&& forall|i: int| 0 <= i < final(disp).pixels@.len() ==> final(disp).pixels@[i] == 0u8
        },
        !shown ==> step == FrameStep::Stop && *final(disp) == *old(disp),
{
    if shown {
        disp.clear();
        FrameStep::Continue
    } else {
        FrameStep::Stop
    }
}

} // verus!
