use vstd::prelude::*;

verus! {

/// Number of visualization modes in the cycle.
pub const NUM_MODES: usize = 5;

/// The rendering mapping that consumes the amplitude spectrum.
#[derive(Clone, Copy, Debug, PartialEq, Eq, Structural)]
pub enum VisualizationMode {
    Standard,
    Pixel,
    Waveform,
    Starburst,
    RadialBars,
}

impl VisualizationMode {
    /// Position of the mode in the cycle.
    pub open spec fn index(self) -> nat {
        match self {
            VisualizationMode::Standard => 0,
            VisualizationMode::Pixel => 1,
            VisualizationMode::Waveform => 2,
            VisualizationMode::Starburst => 3,
            VisualizationMode::RadialBars => 4,
        }
    }

    /// The mode at position `i` of the cycle, taken modulo the number of modes.
    pub open spec fn at(i: int) -> VisualizationMode {
        let r = i % (NUM_MODES as int);
        if r == 0 {
            VisualizationMode::Standard
        } else if r == 1 {
            VisualizationMode::Pixel
        } else if r == 2 {
            VisualizationMode::Waveform
        } else if r == 3 {
            VisualizationMode::Starburst
        } else {
            VisualizationMode::RadialBars
        }
    }

    /// The mode at position `value` of the cycle, wrapping past the last one.
    pub fn from_usize(value: usize) -> (r: VisualizationMode)
        ensures
            r == Self::at(value as int),
            r.index() == value % NUM_MODES,
    {
        match value % NUM_MODES {
            0 => VisualizationMode::Standard,
            1 => VisualizationMode::Pixel,
            2 => VisualizationMode::Waveform,
            3 => VisualizationMode::Starburst,
            _ => VisualizationMode::RadialBars,
        }
    }

    /// Position of the mode in the cycle.
    pub fn as_usize(&self) -> (r: usize)
        ensures
            r == self.index(),
            r < NUM_MODES,
    {
        match self {
            VisualizationMode::Standard => 0,
            VisualizationMode::Pixel => 1,
            VisualizationMode::Waveform => 2,
            VisualizationMode::Starburst => 3,
            VisualizationMode::RadialBars => 4,
        }
    }
}

impl VisualizationMode {
    /// The mode that follows `self` in the cycle.
    pub open spec fn succ(self) -> VisualizationMode {
        Self::at(self.index() + 1 as int)
    }

    /// The mode that precedes `self` in the cycle.
    pub open spec fn pred(self) -> VisualizationMode {
        Self::at(self.index() + NUM_MODES - 1 as int)
    }

    /// The mode reached from `self` after `k` forward steps.
    pub open spec fn advanced(self, k: nat) -> VisualizationMode
        decreases k,
    {
        if k == 0 {
            self
        } else {
            self.advanced((k - 1) as nat).succ()
        }
    }

    /// The next mode, wrapping from the last back to the first.
    pub fn next(&self) -> (r: VisualizationMode)
        ensures
            r == self.succ(),
            r.index() as int == (self.index() as int + 1) % (NUM_MODES as int),
    {
        Self::from_usize(self.as_usize() + 1)
    }

    /// The previous mode, wrapping from the first to the last; computed as
    /// `(current + count - 1) % count` so that no subtraction can underflow.
    pub fn prev(&self) -> (r: VisualizationMode)
        ensures
            r == self.pred(),
            r.index() as int == (self.index() as int + NUM_MODES - 1) % (NUM_MODES as int),
    {
        Self::from_usize(self.as_usize() + NUM_MODES - 1)
    }
}

/// Holds the active visualization mode; only explicit commands change it.
pub struct ModeSelector {
    current: VisualizationMode,
}

impl ModeSelector {
    /// The active mode.
    pub closed spec fn view(&self) -> VisualizationMode {
        self.current
    }

    /// A selector that starts at `Standard`.
    pub fn new() -> (r: Self)
        ensures
            r@ == VisualizationMode::Standard,
    {
        ModeSelector { current: VisualizationMode::Standard }
    }

    /// The mode the renderer should use now.
    pub fn active_mode(&self) -> (r: VisualizationMode)
        ensures
            r == self@,
    {
        self.current
    }

    /// Moves to the next mode of the cycle.
    pub fn cycle_forward(&mut self)
        ensures
            final(self)@ == old(self)@.succ(),
    {
        self.current = self.current.next();
    }

    /// Moves to the previous mode of the cycle.
    pub fn cycle_backward(&mut self)
        ensures
            final(self)@ == old(self)@.pred(),
    {
        self.current = self.current.prev();
    }
}

/// Stepping forward once per mode, from any mode, comes back to that mode.
pub proof fn lemma_full_cycle_returns(m: VisualizationMode)
    ensures
        m.advanced(NUM_MODES as nat) == m,
{
    reveal_with_fuel(VisualizationMode::advanced, 6);
}

/// Starting at `Standard`, five forward steps return to `Standard`.
pub proof fn lemma_five_forward_from_standard()
    ensures
        VisualizationMode::Standard.advanced(5) == VisualizationMode::Standard,
{
    lemma_full_cycle_returns(VisualizationMode::Standard);
}

/// A forward step followed by a backward step leaves the mode unchanged, and so
/// does a backward step followed by a forward step.
pub proof fn lemma_forward_backward_inverse(m: VisualizationMode)
    ensures
        m.succ().pred() == m,
        m.pred().succ() == m,
{
}

} // verus!
