use vstd::prelude::*;

use crate::preset::PRESET_COUNT;

verus! {

/// Fast-forward multiplier at start-up.
pub const INITIAL_BOOST: u32 = 8;

/// Smallest fast-forward multiplier.
pub const MIN_BOOST: u32 = 2;

/// Largest fast-forward multiplier.
pub const MAX_BOOST: u32 = 32;

/// The multipliers reachable from the initial one by doubling and halving
/// within the bounds.
pub open spec fn valid_boost(b: nat) -> bool {
    b == 2 || b == 4 || b == 8 || b == 16 || b == 32
}

/// Doubling, capped at the largest multiplier.
pub open spec fn spec_boost_up(b: nat) -> nat {
    if 2 * b <= MAX_BOOST {
        2 * b
    } else {
        MAX_BOOST as nat
    }
}

/// Halving, floored at the smallest multiplier.
pub open spec fn spec_boost_down(b: nat) -> nat {
    if b / 2 >= MIN_BOOST {
        b / 2
    } else {
        MIN_BOOST as nat
    }
}

/// Speed of the simulation clock relative to real time.
pub open spec fn spec_speed(boost: nat, fast_forward: bool) -> nat {
    if fast_forward {
        boost
    } else {
        1
    }
}

/// The fast-forward multiplier: a power of two between `MIN_BOOST` and
/// `MAX_BOOST`.
#[derive(Clone, Copy, Debug, PartialEq, Eq, Structural)]
pub struct Boost {
    multiplier: u32,
}

impl View for Boost {
    type V = nat;

    closed spec fn view(&self) -> nat {
        self.multiplier as nat
    }
}

impl Boost {
    #[verifier::type_invariant]
    spec fn inv(self) -> bool {
        valid_boost(self.multiplier as nat)
    }

    /// The multiplier at start-up.
    pub fn new() -> (b: Boost)
        ensures
            b@ == INITIAL_BOOST,
            valid_boost(b@),
    {
        Boost { multiplier: INITIAL_BOOST }
    }

    pub fn multiplier(&self) -> (m: u32)
        ensures
            m == self@,
            valid_boost(m as nat),
    {
        proof {
            use_type_invariant(self);
        }
        self.multiplier
    }

    /// Doubles the multiplier, up to `MAX_BOOST`.
    pub fn up(self) -> (b: Boost)
        ensures
            b@ == spec_boost_up(self@),
            valid_boost(b@),
            self@ < MAX_BOOST ==> b@ == 2 * self@,
            self@ == MAX_BOOST ==> b@ == MAX_BOOST,
    {
        proof {
            use_type_invariant(&self);
        }
        if self.multiplier < MAX_BOOST {
            Boost { multiplier: self.multiplier * 2 }
        } else {
            Boost { multiplier: MAX_BOOST }
        }
    }

    /// Halves the multiplier, down to `MIN_BOOST`.
    pub fn down(self) -> (b: Boost)
        ensures
            b@ == spec_boost_down(self@),
            valid_boost(b@),
            self@ > MIN_BOOST ==> 2 * b@ == self@,
            self@ == MIN_BOOST ==> b@ == MIN_BOOST,
    {
        proof {
            use_type_invariant(&self);
        }
        if self.multiplier > MIN_BOOST {
            Boost { multiplier: self.multiplier / 2 }
        } else {
            Boost { multiplier: MIN_BOOST }
        }
    }
}

/// Speed multiplier: the boost while fast-forward is held, real time otherwise.
pub fn speed(boost: Boost, fast_forward: bool) -> (s: u32)
    ensures
        s == spec_speed(boost@, fast_forward),
        fast_forward ==> s == boost@,
        !fast_forward ==> s == 1,
{
    if fast_forward {
        boost.multiplier()
    } else {
        1
    }
}

/// The preset key that takes effect among those pressed in one frame: each
/// pressed key resets the simulation in turn, so the last one wins. `r`
/// names that key, or is `None` when no key is pressed.
pub open spec fn is_last_pressed(pressed: Seq<bool>, r: Option<usize>) -> bool {
    match r {
        Some(i) => i < pressed.len() && pressed[i as int] && forall|j: int|
            i < j < pressed.len() ==> !#[trigger] pressed[j],
        None => forall|j: int| 0 <= j < pressed.len() ==> !#[trigger] pressed[j],
    }
}

/// Finds the last pressed preset key.
pub fn selected_preset(pressed: &[bool; 10]) -> (r: Option<usize>)
    ensures
        is_last_pressed(pressed@, r),
{
    let mut i: usize = 10;
    while i > 0
        invariant
            0 <= i <= 10,
            pressed@.len() == 10,
            forall|j: int| i <= j < 10 ==> !#[trigger] pressed@[j],
        decreases i,
    {
        let k = i - 1;
        if pressed[k] {
            return Some(k);
        }
        i = k;
    }
    None
}

/// What the user did during one frame.
pub struct FrameInput {
    /// Which of the preset keys were pressed, in preset order.
    pub preset_keys: [bool; 10],
    /// The key that doubles the boost was pressed.
    pub raise_boost: bool,
    /// The key that halves the boost was pressed.
    pub lower_boost: bool,
    /// The fast-forward key is held down.
    pub fast_forward: bool,
}

/// What the frame loop has to carry out.
#[derive(Clone, Copy, Debug, PartialEq, Eq, Structural)]
pub struct FrameDecision {
    /// Rebuild the simulation from this preset, with the clock set to zero.
    pub restart: Option<usize>,
    /// Speed of the simulation clock for this frame.
    pub speed: u32,
}

/// The state that the viewer's controls keep from frame to frame.
pub struct ViewerControl {
    preset_index: usize,
    boost: Boost,
}

impl ViewerControl {
    #[verifier::type_invariant]
    spec fn inv(self) -> bool {
        self.preset_index < PRESET_COUNT
    }

    /// The preset currently shown.
    pub closed spec fn spec_preset(self) -> nat {
        self.preset_index as nat
    }

    /// The current fast-forward multiplier.
    pub closed spec fn spec_boost(self) -> nat {
        self.boost@
    }

    /// Start-up state: the first preset and the initial boost.
    pub fn new() -> (c: ViewerControl)
        ensures
            c.spec_preset() == 0,
            c.spec_boost() == INITIAL_BOOST,
    {
        ViewerControl { preset_index: 0, boost: Boost::new() }
    }

    pub fn preset_index(&self) -> (i: usize)
        ensures
            i == self.spec_preset(),
            i < PRESET_COUNT,
    {
        proof {
            use_type_invariant(self);
        }
        self.preset_index
    }

    pub fn boost(&self) -> (b: Boost)
        ensures
            b@ == self.spec_boost(),
            valid_boost(b@),
    {
        let b = self.boost;
        proof {
            use_type_invariant(&b);
        }
        b
    }

    /// Applies one frame's input: a pressed preset key restarts that preset
    /// (the last one pressed wins), then the boost is doubled and halved as
    /// asked, and the speed follows the resulting boost.
    pub fn on_frame(&mut self, input: &FrameInput) -> (d: FrameDecision)
        ensures
            is_last_pressed(input.preset_keys@, d.restart),
            final(self).spec_preset() == (match d.restart {
                Some(i) => i as nat,
                None => old(self).spec_preset(),
            }),
            final(self).spec_preset() < PRESET_COUNT,
            final(self).spec_boost() == spec_next_boost(
                old(self).spec_boost(),
                input.raise_boost,
                input.lower_boost,
            ),
            valid_boost(final(self).spec_boost()),
            d.speed == spec_speed(final(self).spec_boost(), input.fast_forward),
            input.fast_forward ==> d.speed == final(self).spec_boost(),
            !input.fast_forward ==> d.speed == 1,
            !input.raise_boost && !input.lower_boost ==> final(self).spec_boost()
                == old(self).spec_boost(),
            input.raise_boost && !input.lower_boost && old(self).spec_boost() < MAX_BOOST
                ==> final(self).spec_boost() == 2 * old(self).spec_boost(),
            input.raise_boost && !input.lower_boost && old(self).spec_boost() == MAX_BOOST
                ==> final(self).spec_boost() == MAX_BOOST,
            !input.raise_boost && input.lower_boost && old(self).spec_boost() > MIN_BOOST
                ==> 2 * final(self).spec_boost() == old(self).spec_boost(),
            !input.raise_boost && input.lower_boost && old(self).spec_boost() == MIN_BOOST
                ==> final(self).spec_boost() == MIN_BOOST,
            input.raise_boost && input.lower_boost && old(self).spec_boost() < MAX_BOOST
                ==> final(self).spec_boost() == old(self).spec_boost(),
            input.raise_boost && input.lower_boost && old(self).spec_boost() == MAX_BOOST
                ==> 2 * final(self).spec_boost() == MAX_BOOST,
    {
        proof {
            use_type_invariant(&*self);
            use_type_invariant(&self.boost);
        }
        let restart = selected_preset(&input.preset_keys);
        if let Some(i) = restart {
            self.preset_index = i;
        }
        if input.raise_boost {
            self.boost = self.boost.up();
        }
        if input.lower_boost {
            self.boost = self.boost.down();
        }
        let s = speed(self.boost, input.fast_forward);
        proof {
            use_type_invariant(&self.boost);
        }
        FrameDecision { restart, speed: s }
    }
}

/// The boost after a frame: doubled if asked, then halved if asked.
pub open spec fn spec_next_boost(b: nat, raise: bool, lower: bool) -> nat {
    let raised = if raise {
        spec_boost_up(b)
    } else {
        b
    };
    if lower {
        spec_boost_down(raised)
    } else {
        raised
    }
}

/// Among the keys pressed in one frame exactly one selection is the last
/// pressed one: the selection is determined by the keys.
pub proof fn lemma_last_pressed_unique(pressed: Seq<bool>, r1: Option<usize>, r2: Option<usize>)
    requires
        is_last_pressed(pressed, r1),
        is_last_pressed(pressed, r2),
    ensures
        r1 == r2,
{
    match (r1, r2) {
        (Some(i), Some(j)) => {
            if i < j {
                assert(pressed[j as int]);
            } else if j < i {
                assert(pressed[i as int]);
            }
        },
        (Some(i), None) => {
            assert(pressed[i as int]);
        },
        (None, Some(j)) => {
            assert(pressed[j as int]);
        },
        (None, None) => {},
    }
}

/// While fast-forward is held the simulation runs at exactly the boost, for
/// every boost; otherwise it runs at real time.
pub proof fn lemma_speed_is_boost_while_held(b: nat)
    ensures
        spec_speed(b, true) == b,
        spec_speed(b, false) == 1,
{
}

/// One frame changes the boost by at most one capped doubling (Up) followed by
/// at most one floored halving (Down): Up alone doubles below the cap and
/// keeps the cap; Down alone halves above the floor and keeps the floor; both
/// together leave the boost unchanged except at the cap, where it halves;
/// neither leaves it as it was.
pub proof fn lemma_frame_boost_step(b: nat)
    requires
        valid_boost(b),
    ensures
        spec_next_boost(b, false, false) == b,
        b < MAX_BOOST ==> spec_next_boost(b, true, false) == 2 * b,
        b == MAX_BOOST ==> spec_next_boost(b, true, false) == MAX_BOOST,
        b > MIN_BOOST ==> 2 * spec_next_boost(b, false, true) == b,
        b == MIN_BOOST ==> spec_next_boost(b, false, true) == MIN_BOOST,
        b < MAX_BOOST ==> spec_next_boost(b, true, true) == b,
        b == MAX_BOOST ==> 2 * spec_next_boost(b, true, true) == MAX_BOOST,
{
}

/// Doubling and halving never leave the valid multipliers.
pub proof fn lemma_boost_stays_valid(b: nat)
    requires
        valid_boost(b),
    ensures
        valid_boost(spec_boost_up(b)),
        valid_boost(spec_boost_down(b)),
        MIN_BOOST <= b <= MAX_BOOST,
{
}

/// Halving undoes doubling below the cap, and doubling undoes halving above
/// the floor.
pub proof fn lemma_boost_round_trip(b: nat)
    requires
        valid_boost(b),
    ensures
        b < MAX_BOOST ==> spec_boost_down(spec_boost_up(b)) == b,
        b > MIN_BOOST ==> spec_boost_up(spec_boost_down(b)) == b,
{
}

/// Doubling never lowers the boost and halving never raises it; at the cap
/// and at the floor they leave it unchanged.
pub proof fn lemma_boost_monotone(b: nat)
    requires
        valid_boost(b),
    ensures
        b <= spec_boost_up(b),
        spec_boost_down(b) <= b,
        spec_boost_up(MAX_BOOST as nat) == MAX_BOOST,
        spec_boost_down(MIN_BOOST as nat) == MIN_BOOST,
{
}

/// Fast-forward never runs slower than twice real time, and releasing it
/// always gives real time.
pub proof fn lemma_speed_bounds(b: nat, fast_forward: bool)
    requires
        valid_boost(b),
    ensures
        fast_forward ==> MIN_BOOST <= spec_speed(b, fast_forward) <= MAX_BOOST,
        !fast_forward ==> spec_speed(b, fast_forward) == 1,
{
}

} // verus!
