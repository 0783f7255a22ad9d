//! The snake show: a snake slides down the strip chasing randomly placed
//! fruit; every fruit eaten becomes a new tail segment of the fruit's color.

use vstd::prelude::*;

verus! {

use crate::color::NormRgbw;
use crate::controller::{ColorMemoryController, STRIP_LEN};
use crate::fix::Fix32;
use crate::hsv::hsv_to_rgbw;
use crate::rng::{rand_below, rng_from_seed};
use crate::show::State;

/// The snake's world: its head position, its tail colors, and one fruit.
pub struct SnakeShow {
    rng: rand::rngs::SmallRng,
    head: usize,
    tail: Vec<NormRgbw>,
    fruit_pos: usize,
    fruit_color: NormRgbw,
}

impl SnakeShow {
    pub closed spec fn spec_head(&self) -> int {
        self.head as int
    }

    pub closed spec fn spec_tail(&self) -> Seq<NormRgbw> {
        self.tail@
    }

    pub closed spec fn spec_fruit_pos(&self) -> int {
        self.fruit_pos as int
    }

    pub closed spec fn spec_fruit_color(&self) -> NormRgbw {
        self.fruit_color
    }

    pub open spec fn wf(&self) -> bool {
        &&& self.spec_head() < STRIP_LEN
        &&& self.spec_fruit_pos() < STRIP_LEN
        &&& self.spec_fruit_color().in_range()
        &&& forall|i: int|
            0 <= i < self.spec_tail().len() ==> (#[trigger] self.spec_tail()[i]).in_range()
    }

    fn random_color(rng: &mut rand::rngs::SmallRng) -> (c: NormRgbw)
        ensures
            c.in_range(),
    {
        let hue_bits = rand_below(rng, 65536);
        hsv_to_rgbw(Fix32 { bits: hue_bits as i32 }, Fix32::one(), Fix32::one())
    }

    pub fn new(seed: u64) -> (s: SnakeShow)
        ensures
            s.wf(),
            s.spec_tail().len() == 0,
    {
        let mut rng = rng_from_seed(seed);
        let head = rand_below(&mut rng, STRIP_LEN);
        let fruit_pos = rand_below(&mut rng, STRIP_LEN);
        let fruit_color = Self::random_color(&mut rng);
        SnakeShow { rng, head, tail: Vec::new(), fruit_pos, fruit_color }
    }

    /// One frame: eat the fruit if the head reached it (the tail grows by
    /// that fruit's color and a new fruit appears), paint the tail from the
    /// head onward, paint the fruit over it, slide the head one LED down.
    pub fn update(&mut self, ctrl: &mut ColorMemoryController) -> (r: (State, u32))
        requires
            old(self).wf(),
            old(ctrl).wf(),
        ensures
            final(self).wf(),
            final(ctrl).wf(),
            final(self).spec_tail().len() == old(self).spec_tail().len() + (
            if old(self).spec_head() == old(self).spec_fruit_pos() {
                1int
            } else {
                0int
            }),
            final(ctrl).view()[final(self).spec_fruit_pos()] == final(self).spec_fruit_color(),
            final(self).spec_head() == (old(self).spec_head() + STRIP_LEN - 1) % (
            STRIP_LEN as int),
            final(self).spec_tail().len() <= STRIP_LEN ==> forall|k: int|
                0 <= k < final(self).spec_tail().len() && (old(self).spec_head() + k) % (
                STRIP_LEN as int) != final(self).spec_fruit_pos() ==> final(ctrl).view()[(old(
                self,
            ).spec_head() + k) % (STRIP_LEN as int)] == #[trigger] final(self).spec_tail()[k],
            r == (State::Running, 0u32),
    {
        ctrl.set_all(crate::color::color_none());
        if self.head == self.fruit_pos {
            let ghost before = self.tail@;
            self.tail.insert(0, self.fruit_color);
            proof {
                before.insert_ensures(0, self.fruit_color);
                assert(before == old(self).spec_tail());
                assert forall|i: int|
                    0 <= i < self.tail@.len() implies (#[trigger] self.tail@[i]).in_range() by {
                    if i > 0 {
                        let j = i - 1;
                        assert(before.insert(0, self.fruit_color)[j + 1] == before[j]);
                        assert(old(self).spec_tail()[j].in_range());
                    } else {
                        assert(before.insert(0, self.fruit_color)[0] == self.fruit_color);
                    }
                }
            }
            self.fruit_pos = rand_below(&mut self.rng, STRIP_LEN);
            self.fruit_color = Self::random_color(&mut self.rng);
        }
        let ghost h0 = self.spec_head();
        let mut i: usize = 0;
        while i < self.tail.len()
            invariant
                self.wf(),
                ctrl.wf(),
                i <= self.spec_tail().len(),
                h0 == self.spec_head(),
                self.spec_tail().len() <= STRIP_LEN ==> forall|k: int|
                    0 <= k < i ==> ctrl.view()[(h0 + k) % (STRIP_LEN as int)] == #[trigger] self.spec_tail()[k],
            decreases self.spec_tail().len() - i,
        {
            let pos = (self.head + i % STRIP_LEN) % STRIP_LEN;
            let segment = self.tail[i];
            ctrl.set(pos, segment);
            proof {
                if self.spec_tail().len() <= STRIP_LEN {
                    assert(i % STRIP_LEN == i as int);
                    assert(pos == (h0 + i) % (STRIP_LEN as int));
                    assert forall|k: int|
                        0 <= k < i + 1 implies ctrl.view()[(h0 + k) % (STRIP_LEN as int)]
                        == #[trigger] self.spec_tail()[k] by {
                        if k < i {
                            lemma_mod_window_distinct(h0, k, i as int);
                        }
                    }
                }
            }
            i += 1;
        }
        ctrl.set(self.fruit_pos, self.fruit_color);
        self.head = (self.head + STRIP_LEN - 1) % STRIP_LEN;
        (State::Running, 0)
    }
}

/// Two offsets less than the strip length apart land on distinct LEDs.
proof fn lemma_mod_window_distinct(base: int, a: int, b: int)
    requires
        0 <= base,
        0 <= a < b < STRIP_LEN,
    ensures
        (base + a) % (STRIP_LEN as int) != (base + b) % (STRIP_LEN as int),
{
    let n = STRIP_LEN as int;
    vstd::arithmetic::div_mod::lemma_fundamental_div_mod(base + a, n);
    vstd::arithmetic::div_mod::lemma_mod_bound(base + a, n);
    vstd::arithmetic::div_mod::lemma_fundamental_div_mod(base + b, n);
    vstd::arithmetic::div_mod::lemma_mod_bound(base + b, n);
    let qa = (base + a) / n;
    let qb = (base + b) / n;
    if (base + a) % n == (base + b) % n {
        assert(b - a == n * (qb - qa)) by (nonlinear_arith)
            requires
                base + a == n * qa + (base + a) % n,
                base + b == n * qb + (base + b) % n,
                (base + a) % n == (base + b) % n,
        ;
        assert(n * (qb - qa) != b - a) by (nonlinear_arith)
            requires
                0 < b - a < n,
                n == 240,
        ;
    }
}

} // verus!
