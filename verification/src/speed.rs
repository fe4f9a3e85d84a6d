//! Playback speed: a factor between one half and two, kept in thousandths.

use vstd::prelude::*;

verus! {

/// The slowest speed, in thousandths: one half.
pub const MIN_PER_MILLE: u16 = 500;

/// The fastest speed, in thousandths: two.
pub const MAX_PER_MILLE: u16 = 2000;

/// The speed of a fresh control state, in thousandths: one.
pub const NORMAL_PER_MILLE: u16 = 1000;

/// The size of one speed step, in thousandths: one tenth.
pub const STEP_PER_MILLE: u16 = 100;

/// Whether `per_mille` lies within the limits of a speed.
pub open spec fn in_range(per_mille: int) -> bool {
    MIN_PER_MILLE <= per_mille <= MAX_PER_MILLE
}

/// `per_mille` brought within the limits of a speed.
pub open spec fn clamped(per_mille: int) -> int {
    if per_mille < MIN_PER_MILLE {
        MIN_PER_MILLE as int
    } else if per_mille > MAX_PER_MILLE {
        MAX_PER_MILLE as int
    } else {
        per_mille
    }
}

/// The speed one step above `per_mille`, held at the upper limit.
pub open spec fn stepped_up(per_mille: int) -> int {
    clamped(per_mille + STEP_PER_MILLE)
}

/// The speed one step below `per_mille`, held at the lower limit.
pub open spec fn stepped_down(per_mille: int) -> int {
    clamped(per_mille - STEP_PER_MILLE)
}

/// The speed `steps` steps above `per_mille`, each step held at the upper
/// limit.
pub open spec fn stepped_up_by(per_mille: int, steps: nat) -> int
    decreases steps,
{
    if steps == 0 {
        per_mille
    } else {
        stepped_up(stepped_up_by(per_mille, (steps - 1) as nat))
    }
}

/// The speed `steps` steps below `per_mille`, each step held at the lower
/// limit.
pub open spec fn stepped_down_by(per_mille: int, steps: nat) -> int
    decreases steps,
{
    if steps == 0 {
        per_mille
    } else {
        stepped_down(stepped_down_by(per_mille, (steps - 1) as nat))
    }
}

/// A playback speed: the factor by which a song runs faster than written.
#[derive(Clone, Copy, Debug, PartialEq, Eq, Hash)]
pub struct Speed {
    per_mille: u16,
}

impl View for Speed {
    type V = int;

    /// The speed in thousandths.
    closed spec fn view(&self) -> int {
        self.per_mille as int
    }
}

impl Speed {
    /// The invariant of a speed, which holds of every speed there is: it
    /// lies within the limits.
    #[verifier::type_invariant]
    pub open spec fn within_limits(self) -> bool {
        in_range(self@)
    }

    /// The speed at which a song runs as written.
    pub fn normal() -> (speed: Speed)
        ensures
            speed@ == NORMAL_PER_MILLE,
    {
        Speed { per_mille: NORMAL_PER_MILLE }
    }

    /// The speed nearest to `per_mille` thousandths that the limits allow.
    pub fn from_per_mille(per_mille: u16) -> (speed: Speed)
        ensures
            speed@ == clamped(per_mille as int),
    {
        if per_mille < MIN_PER_MILLE {
            Speed { per_mille: MIN_PER_MILLE }
        } else if per_mille > MAX_PER_MILLE {
            Speed { per_mille: MAX_PER_MILLE }
        } else {
            Speed { per_mille }
        }
    }

    /// The speed in thousandths.
    pub fn per_mille(&self) -> (per_mille: u16)
        ensures
            per_mille == self@,
            in_range(self@),
    {
        proof {
            use_type_invariant(self);
        }
        self.per_mille
    }

    /// One step faster, held at the upper limit.
    pub fn faster(&self) -> (speed: Speed)
        ensures
            speed@ == stepped_up(self@),
    {
        proof {
            use_type_invariant(self);
        }
        Speed::from_per_mille(self.per_mille + STEP_PER_MILLE)
    }

    /// One step slower, held at the lower limit.
    pub fn slower(&self) -> (speed: Speed)
        ensures
            speed@ == stepped_down(self@),
    {
        proof {
            use_type_invariant(self);
        }
        Speed::from_per_mille(self.per_mille - STEP_PER_MILLE)
    }
}

/// A speed within the limits stays within them when stepped up or down.
pub proof fn lemma_step_stays_in_range(per_mille: int)
    requires
        in_range(per_mille),
    ensures
        in_range(stepped_up(per_mille)),
        in_range(stepped_down(per_mille)),
{
}

/// One step up adds exactly one tenth, for every speed that a tenth can be
/// added to without passing the upper limit.
pub proof fn lemma_step_up_is_one_tenth(per_mille: int)
    requires
        in_range(per_mille),
        per_mille + STEP_PER_MILLE <= MAX_PER_MILLE,
    ensures
        stepped_up(per_mille) == per_mille + STEP_PER_MILLE,
{
}

/// One step down takes exactly one tenth off, for every speed that a tenth
/// can be taken off without passing the lower limit.
pub proof fn lemma_step_down_is_one_tenth(per_mille: int)
    requires
        in_range(per_mille),
        per_mille - STEP_PER_MILLE >= MIN_PER_MILLE,
    ensures
        stepped_down(per_mille) == per_mille - STEP_PER_MILLE,
{
}

/// However often a speed is stepped up, it never exceeds two, and it never
/// falls: it is the starting speed plus one tenth per step, held at two.
pub proof fn lemma_speed_up_never_exceeds_limit(per_mille: int, steps: nat)
    requires
        in_range(per_mille),
    ensures
        in_range(stepped_up_by(per_mille, steps)),
        stepped_up_by(per_mille, steps) <= MAX_PER_MILLE,
        stepped_up_by(per_mille, steps) == clamped(per_mille + steps * STEP_PER_MILLE),
    decreases steps,
{
    if steps > 0 {
        lemma_speed_up_never_exceeds_limit(per_mille, (steps - 1) as nat);
    }
}

/// However often a speed is stepped down, it never falls below one half: it
/// is the starting speed less one tenth per step, held at one half.
pub proof fn lemma_speed_down_never_passes_limit(per_mille: int, steps: nat)
    requires
        in_range(per_mille),
    ensures
        in_range(stepped_down_by(per_mille, steps)),
        stepped_down_by(per_mille, steps) >= MIN_PER_MILLE,
        stepped_down_by(per_mille, steps) == clamped(per_mille - steps * STEP_PER_MILLE),
    decreases steps,
{
    if steps > 0 {
        lemma_speed_down_never_passes_limit(per_mille, (steps - 1) as nat);
    }
}

} // verus!
