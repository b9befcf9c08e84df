//! The display scale, held in tenths: 10 is 1.0, bounded by 0.1 and 3.0.
use vstd::prelude::*;

verus! {

/// Smallest scale, in tenths.
pub const MIN_TENTHS: u32 = 1;

/// Largest scale, in tenths.
pub const MAX_TENTHS: u32 = 30;

/// Default scale, in tenths.
pub const DEFAULT_TENTHS: u32 = 10;

/// Step of one increment or decrement, in tenths.
pub const STEP_TENTHS: u32 = 2;

/// A display scale in tenths.
#[derive(Debug, Clone, Copy, PartialEq, Eq, Structural)]
pub struct ScaleFactor {
    pub tenths: u32,
}

/// `t` clamped to the scale's bounds.
pub open spec fn clamp_tenths(t: u32) -> u32 {
    if t < MIN_TENTHS {
        MIN_TENTHS
    } else if t > MAX_TENTHS {
        MAX_TENTHS
    } else {
        t
    }
}

/// The scale after one increment: up a step, at most to the upper bound; no
/// change at the bound.
pub open spec fn incremented(t: u32) -> u32 {
    if t < MAX_TENTHS {
        if t + STEP_TENTHS > MAX_TENTHS {
            MAX_TENTHS
        } else {
            (t + STEP_TENTHS) as u32
        }
    } else {
        t
    }
}

/// The scale after one decrement: down a step, at least to the lower bound;
/// no change at the bound.
pub open spec fn decremented(t: u32) -> u32 {
    if t >= MIN_TENTHS + STEP_TENTHS {
        (t - STEP_TENTHS) as u32
    } else {
        MIN_TENTHS
    }
}

impl ScaleFactor {
    /// Within bounds.
    pub open spec fn wf(&self) -> bool {
        MIN_TENTHS <= self.tenths <= MAX_TENTHS
    }

    /// A scale of `tenths`, clamped to the bounds.
    pub fn from_tenths(tenths: u32) -> (r: ScaleFactor)
        ensures
            r.tenths == clamp_tenths(tenths),
            r.wf(),
    {
        if tenths < MIN_TENTHS {
            ScaleFactor { tenths: MIN_TENTHS }
        } else if tenths > MAX_TENTHS {
            ScaleFactor { tenths: MAX_TENTHS }
        } else {
            ScaleFactor { tenths }
        }
    }

    /// The scale in tenths.
    pub fn as_tenths(&self) -> (r: u32)
        ensures
            r == self.tenths,
    {
        self.tenths
    }

    /// One step up, clamped to the upper bound.
    pub fn increment(&mut self)
        ensures
            final(self).tenths == incremented(old(self).tenths),
    {
        if self.tenths < MAX_TENTHS {
            if self.tenths + STEP_TENTHS > MAX_TENTHS {
                self.tenths = MAX_TENTHS;
            } else {
                self.tenths = self.tenths + STEP_TENTHS;
            }
        }
    }

    /// One step down, clamped to the lower bound.
    pub fn decrement(&mut self)
        ensures
            final(self).tenths == decremented(old(self).tenths),
    {
        if self.tenths >= MIN_TENTHS + STEP_TENTHS {
            self.tenths = self.tenths - STEP_TENTHS;
        } else {
            self.tenths = MIN_TENTHS;
        }
    }

    /// Back to the default scale.
    pub fn to_default(&mut self)
        ensures
            final(self).tenths == DEFAULT_TENTHS,
    {
        self.tenths = DEFAULT_TENTHS;
    }
}

impl Default for ScaleFactor {
    fn default() -> (r: ScaleFactor)
        ensures
            r.tenths == DEFAULT_TENTHS,
    {
        ScaleFactor { tenths: DEFAULT_TENTHS }
    }
}

/// Increments, decrements and resets keep a scale within its bounds; an
/// increment at the upper bound and a decrement at the lower bound change
/// nothing.
pub proof fn lemma_scale_stays_in_bounds(t: u32)
    requires
        MIN_TENTHS <= t <= MAX_TENTHS,
    ensures
        MIN_TENTHS <= incremented(t) <= MAX_TENTHS,
        MIN_TENTHS <= decremented(t) <= MAX_TENTHS,
        MIN_TENTHS <= DEFAULT_TENTHS <= MAX_TENTHS,
        t == MAX_TENTHS ==> incremented(t) == t,
        t == MIN_TENTHS ==> decremented(t) == t,
{
}

} // verus!
