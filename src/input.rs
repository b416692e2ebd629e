//! Turning key state into what a frame asks of the actor.
use vstd::prelude::*;

verus! {

/// What the player asks for in one frame.
#[derive(Clone, Copy, Debug, PartialEq, Eq, Structural)]
pub struct FrameInput {
    /// -1 for left, +1 for right, 0 for neither.
    pub horizontal_intent: i64,
    /// A jump starts this frame.
    pub jump_requested: bool,
}

impl FrameInput {
    pub open spec fn wf(self) -> bool {
        -1 <= self.horizontal_intent <= 1
    }

    /// A frame with no key input.
    pub fn idle() -> (r: FrameInput)
        ensures
            r.horizontal_intent == 0,
            !r.jump_requested,
    {
        FrameInput { horizontal_intent: 0, jump_requested: false }
    }
}

/// The horizontal intent for the held keys: left wins over right.
pub open spec fn intent_spec(left_held: bool, right_held: bool) -> int {
    if left_held {
        -1
    } else if right_held {
        1
    } else {
        0
    }
}

/// Reads the frame's input from the held direction keys and from whether the
/// jump key went down this frame.
pub fn sample_input(left_held: bool, right_held: bool, jump_just_pressed: bool) -> (r: FrameInput)
    ensures
        r.wf(),
        r.horizontal_intent == intent_spec(left_held, right_held),
        r.jump_requested == jump_just_pressed,
{
    let horizontal_intent: i64 = if left_held {
        -1
    } else if right_held {
        1
    } else {
        0
    };
    FrameInput { horizontal_intent, jump_requested: jump_just_pressed }
}

/// Whether a key went down between two samples of it.
pub open spec fn pressed_edge(was_held: bool, held: bool) -> bool {
    held && !was_held
}

/// The press events seen over a run of samples of a key that was `start`
/// before the first of them.
pub open spec fn press_events(start: bool, held: Seq<bool>) -> Seq<bool> {
    Seq::new(
        held.len(),
        |i: int| pressed_edge(if i == 0 { start } else { held[i - 1] }, held[i]),
    )
}

/// Remembers a key's state from one frame to the next, so that a press is
/// reported once, on the frame the key goes down.
#[derive(Clone, Copy, Debug, PartialEq, Eq, Structural)]
pub struct PressDetector {
    pub was_held: bool,
}

impl PressDetector {
    pub fn new() -> (r: PressDetector)
        ensures
            !r.was_held,
    {
        PressDetector { was_held: false }
    }

    /// Takes this frame's state of the key and says whether it was just pressed.
    pub fn sample(&mut self, held: bool) -> (r: bool)
        ensures
            r == pressed_edge(old(self).was_held, held),
            final(self).was_held == held,
    {
        let r = held && !self.was_held;
        self.was_held = held;
        r
    }

    /// Samples a run of frames and returns the press event of each.
    pub fn sample_all(&mut self, held: &Vec<bool>) -> (r: Vec<bool>)
        ensures
            r@ == press_events(old(self).was_held, held@),
            held@.len() > 0 ==> final(self).was_held == held@.last(),
            held@.len() == 0 ==> *final(self) == *old(self),
    {
        let ghost start = self.was_held;
        let mut r: Vec<bool> = Vec::new();
        let mut i: usize = 0;
        while i < held.len()
            invariant
                i <= held@.len(),
                r@ == press_events(start, held@.subrange(0, i as int)),
                i > 0 ==> self.was_held == held@[i - 1],
                i == 0 ==> self.was_held == start,
            decreases held@.len() - i,
        {
            let e = self.sample(held[i]);
            r.push(e);
            i = i + 1;
            assert(r@ =~= press_events(start, held@.subrange(0, i as int)));
        }
        assert(held@.subrange(0, i as int) =~= held@);
        r
    }
}

/// Holding a key down for a run of frames, after it was up, gives exactly one
/// press event: on the first frame of the run, and on no other.
pub proof fn lemma_held_key_presses_once(held: Seq<bool>)
    requires
        held.len() > 0,
        forall|i: int| 0 <= i < held.len() ==> held[i],
    ensures
        press_events(false, held).len() == held.len(),
        press_events(false, held)[0],
        forall|i: int| 0 < i < held.len() ==> !(#[trigger] press_events(false, held)[i]),
{
}

} // verus!
