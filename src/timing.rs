use vstd::prelude::*;

verus! {

/// Number of time quanta before the sample point.
pub const TSEG_1: u8 = 15;

/// Number of time quanta after the sample point.
pub const TSEG_2: u8 = 4;

/// Synchronization jump width, in time quanta.
pub const SJW: u8 = 3;

/// Bit-timing parameters of the bus controller.
#[derive(Clone, Copy, Debug, PartialEq, Eq, Structural)]
pub struct TimingParameters {
    /// Baud rate prescaler: divides the controller clock into time quanta.
    pub brp: u32,
    pub tseg_1: u8,
    pub tseg_2: u8,
    pub sjw: u8,
    pub triple_sampling: bool,
}

/// The timing chosen for a requested bit rate.
#[derive(Clone, Copy, Debug, PartialEq, Eq, Structural)]
pub struct TimingChoice {
    pub params: TimingParameters,
    /// The requested rate is not supported and the default rate's timing was taken.
    pub defaulted: bool,
}

/// The prescaler of a supported bit rate, if it is one.
pub open spec fn supported_prescaler(rate: u32) -> Option<u32> {
    if rate == 1000000 {
        Some(4)
    } else if rate == 500000 {
        Some(8)
    } else if rate == 250000 {
        Some(16)
    } else if rate == 1250000 {
        Some(32)
    } else {
        None
    }
}

/// The timing parameters built around a prescaler.
pub open spec fn params_with(brp: u32) -> TimingParameters {
    TimingParameters { brp, tseg_1: 15, tseg_2: 4, sjw: 3, triple_sampling: false }
}

/// Derives the bus timing from a target bit rate; an unsupported rate gets the
/// timing of 500 kbit/s, and the choice says so.
pub fn timing_for_rate(rate: u32) -> (r: TimingChoice)
    ensures
        r.defaulted == supported_prescaler(rate).is_none(),
        r.params == params_with(
            match supported_prescaler(rate) {
                Some(b) => b,
                None => 8,
            },
        ),
{
    let (brp, defaulted): (u32, bool) = if rate == 1000000 {
        (4, false)
    } else if rate == 500000 {
        (8, false)
    } else if rate == 250000 {
        (16, false)
    } else if rate == 1250000 {
        (32, false)
    } else {
        (8, true)
    };
    TimingChoice {
        params: TimingParameters { brp, tseg_1: TSEG_1, tseg_2: TSEG_2, sjw: SJW, triple_sampling: false },
        defaulted,
    }
}

} // verus!
