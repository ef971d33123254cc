use vstd::prelude::*;

verus! {

/// Bit pattern of an `f32` with the sign bit set.
pub const SIGN_BIT: u32 = 0x8000_0000;

/// Bit pattern of positive infinity; every larger pattern without the sign bit is a NaN.
pub const POSITIVE_INFINITY: u32 = 0x7f80_0000;

/// A range of linear gains, each end held as the bit pattern of an `f32`.
///
/// For patterns without the sign bit up to positive infinity, the integer order of the
/// patterns is the numeric order of the floats, so the range is clamped on the patterns.
#[derive(Clone, Copy, Debug, PartialEq, Eq, Structural)]
pub struct GainRange {
    pub min: u32,
    pub max: u32,
}

impl GainRange {
    /// Both ends are finite, non-negative and in order.
    pub open spec fn wf(self) -> bool {
        self.min <= self.max && self.max < POSITIVE_INFINITY
    }

    pub open spec fn contains(self, v: u32) -> bool {
        self.min <= v <= self.max
    }

    /// A negative value (or a NaN with the sign bit) clamps to the lower end, a positive
    /// NaN or infinity to the upper end, a finite value to the nearer end outside the range.
    pub open spec fn clamp_spec(self, v: u32) -> u32 {
        if v >= SIGN_BIT || v < self.min {
            self.min
        } else if v > self.max {
            self.max
        } else {
            v
        }
    }

    pub fn new(min: u32, max: u32) -> (r: Option<GainRange>)
        ensures
            r is Some <==> (min <= max && max < POSITIVE_INFINITY),
            r is Some ==> r->0 == (GainRange { min, max }),
    {
        if min <= max && max < POSITIVE_INFINITY {
            Some(GainRange { min, max })
        } else {
            None
        }
    }

    pub fn clamp(&self, v: u32) -> (r: u32)
        ensures
            r == self.clamp_spec(v),
    {
        if v >= SIGN_BIT || v < self.min {
            self.min
        } else if v > self.max {
            self.max
        } else {
            v
        }
    }
}

/// What a gain parameter holds: its range, its committed target and its change flag.
pub struct GainModel {
    pub range: GainRange,
    pub target: u32,
    pub changed: bool,
}

impl GainModel {
    /// The parameter after a write of `v`: the clamped value is the target, and the
    /// flag is up if it was, or if the committed value differs from the previous one.
    pub open spec fn after_write(self, v: u32) -> GainModel {
        GainModel {
            target: self.range.clamp_spec(v),
            changed: self.changed || self.target != self.range.clamp_spec(v),
            ..self
        }
    }
}

/// The one authoritative gain value, shared by the audio engine and the control bridge.
///
/// Every write goes through `set_target`, which clamps the value into the range and
/// raises the change flag when the committed value differs from the one before.
pub struct GainParameter {
    range: GainRange,
    target: u32,
    changed: bool,
}

impl View for GainParameter {
    type V = GainModel;

    closed spec fn view(&self) -> GainModel {
        GainModel { range: self.range, target: self.target, changed: self.changed }
    }
}

impl GainParameter {
    /// The range is valid and the target lies inside it.
    pub open spec fn wf(&self) -> bool {
        self@.range.wf() && self@.range.contains(self@.target)
    }

    /// A parameter at the clamped default, with the change flag down.
    pub fn new(range: GainRange, default: u32) -> (r: GainParameter)
        requires
            range.wf(),
        ensures
            r.wf(),
            r@ == (GainModel { range, target: range.clamp_spec(default), changed: false }),
    {
        GainParameter { range, target: range.clamp(default), changed: false }
    }

    /// A parameter holding a target and a flag read elsewhere; the target is clamped.
    pub fn with_state(range: GainRange, target: u32, changed: bool) -> (r: GainParameter)
        requires
            range.wf(),
        ensures
            r.wf(),
            r@ == (GainModel { range, target: range.clamp_spec(target), changed }),
    {
        GainParameter { range, target: range.clamp(target), changed }
    }

    pub fn range(&self) -> (r: GainRange)
        ensures
            r == self@.range,
    {
        self.range
    }

    pub fn target(&self) -> (r: u32)
        ensures
            r == self@.target,
    {
        self.target
    }

    pub fn is_changed(&self) -> (r: bool)
        ensures
            r == self@.changed,
    {
        self.changed
    }

    /// Commits `v`, clamped into the range, as the new target. The change flag goes up
    /// when the committed value differs from the previous target, and otherwise stays.
    pub fn set_target(&mut self, v: u32)
        requires
            old(self).wf(),
        ensures
            final(self).wf(),
            final(self)@ == old(self)@.after_write(v),
    {
        let c = self.range.clamp(v);
        if c != self.target {
            self.changed = true;
        }
        self.target = c;
    }

    /// Reads and lowers the change flag.
    pub fn take_changed(&mut self) -> (r: bool)
        ensures
            r == old(self)@.changed,
            final(self)@ == (GainModel { changed: false, ..old(self)@ }),
    {
        let r = self.changed;
        self.changed = false;
        r
    }
}

/// A write outside the range never stores the written value: it stores one end of the
/// range, the lower end for a value below it and the upper end for a value above it.
pub proof fn lemma_out_of_range_write_stores_boundary(range: GainRange, v: u32)
    requires
        range.wf(),
        !range.contains(v),
    ensures
        range.clamp_spec(v) != v,
        range.clamp_spec(v) == range.min || range.clamp_spec(v) == range.max,
        (v >= SIGN_BIT || v < range.min) ==> range.clamp_spec(v) == range.min,
        (v < SIGN_BIT && v > range.max) ==> range.clamp_spec(v) == range.max,
{
}

/// A write inside the range stores the written value itself.
pub proof fn lemma_in_range_write_stores_value(range: GainRange, v: u32)
    requires
        range.wf(),
        range.contains(v),
    ensures
        range.clamp_spec(v) == v,
{
}

} // verus!
