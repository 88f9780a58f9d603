//! The sliders of the settings page.

use vstd::prelude::*;

verus! {

/// Which of the two times a slider sets.
#[derive(Debug, Clone, Copy, PartialEq, Eq, Structural)]
pub enum TimeType {
    Work,
    Free,
}

/// The seconds that a slider offers.
#[derive(Debug, Clone, Copy, PartialEq, Eq, Structural)]
pub struct SliderRange {
    /// Smallest value
    pub min: u16,
    /// Largest value
    pub max: u16,
    /// Distance between two values
    pub step: u16,
    /// Distance between two values while shift is held
    pub shift_step: u16,
}

impl TimeType {
    /// Work time goes from half an hour to three hours in steps of ten
    /// minutes, free time from a minute to half an hour in steps of a
    /// minute.
    pub open spec fn range(self) -> SliderRange {
        match self {
            TimeType::Work => SliderRange { min: 1800, max: 10800, step: 600, shift_step: 60 },
            TimeType::Free => SliderRange { min: 60, max: 1800, step: 60, shift_step: 600 },
        }
    }

    /// The seconds that the slider of this time offers.
    pub fn slider(&self) -> (range: SliderRange)
        ensures
            range == self.range(),
            1 <= range.min <= range.max,
    {
        match self {
            TimeType::Work => SliderRange { min: 1800, max: 10800, step: 600, shift_step: 60 },
            TimeType::Free => SliderRange { min: 60, max: 1800, step: 60, shift_step: 600 },
        }
    }
}

} // verus!
