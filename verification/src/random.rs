//! The sparkle show: every LED gets a fresh random hue each frame.

use vstd::prelude::*;

verus! {

use crate::controller::{ColorMemoryController, STRIP_LEN};
use crate::fix::Fix32;
use crate::hsv::{full_hue_color, hsv_to_rgbw, is_full_hue};
use crate::rng::{rand_below, rng_from_seed};
use crate::show::State;

/// Fully saturated random colors, refreshed every frame until cancelled.
pub struct RandomShow {
    rng: rand::rngs::SmallRng,
}

impl RandomShow {
    pub fn new(seed: u64) -> RandomShow {
        RandomShow { rng: rng_from_seed(seed) }
    }

    /// Paints every LED a random hue at full saturation and value; whatever
    /// the generator yields, every pixel of the frame is some full hue.
    pub fn update(&mut self, ctrl: &mut ColorMemoryController) -> (r: (State, u32))
        requires
            old(ctrl).wf(),
        ensures
            final(ctrl).wf(),
            forall|j: int| 0 <= j < STRIP_LEN ==> is_full_hue(#[trigger] final(ctrl).view()[j]),
            r == (State::Running, 0u32),
    {
        let one = Fix32::one();
        let mut l: usize = 0;
        while l < STRIP_LEN
            invariant
                l <= STRIP_LEN,
                ctrl.wf(),
                one.bits == 65536,
                forall|j: int| 0 <= j < l ==> is_full_hue(#[trigger] ctrl.view()[j]),
            decreases STRIP_LEN - l,
        {
            let hue_bits = rand_below(&mut self.rng, 65536);
            let hue = Fix32 { bits: hue_bits as i32 };
            let c = hsv_to_rgbw(hue, one, one);
            proof {
                assert(c == full_hue_color(hue.bits as int));
            }
            ctrl.set(l, c);
            proof {
                let h = hue.bits as int;
                assert(0 <= h < 65536 && ctrl.view()[l as int] == full_hue_color(h));
                assert(is_full_hue(ctrl.view()[l as int]));
            }
            l += 1;
        }
        (State::Running, 0)
    }
}

} // verus!
