use vstd::prelude::*;
use crate::vectors::{PIC_1_OFFSET, PIC_2_OFFSET};

verus! {

/// Number of vectors that each interrupt controller occupies.
pub const LINES_PER_CONTROLLER: u8 = 8;

/// Why a pair of controller offsets is refused.
#[derive(Debug, Clone, Copy, PartialEq, Eq, Structural)]
pub enum ConfigError {
    /// A controller's vectors would fall among the CPU exceptions, 0 to 31.
    OverlapsExceptions,
    /// A controller's eight vectors would run past vector 255.
    OutOfRange,
    /// The two controllers' vector ranges would intersect.
    Overlapping,
}

/// The base vectors of the two cascaded controllers.
#[derive(Debug, Clone, Copy, PartialEq, Eq, Structural)]
pub struct ChainedOffsets {
    pub primary: u8,
    pub secondary: u8,
}

/// The error for a pair of offsets, or none if the pair is usable.
pub open spec fn offsets_error(primary: u8, secondary: u8) -> Option<ConfigError> {
    if primary < 32 || secondary < 32 {
        Some(ConfigError::OverlapsExceptions)
    } else if primary > 248 || secondary > 248 {
        Some(ConfigError::OutOfRange)
    } else if primary < secondary + 8 && secondary < primary + 8 {
        Some(ConfigError::Overlapping)
    } else {
        None
    }
}

impl ChainedOffsets {
    /// Checks a remapping before any interrupt is unmasked: each controller needs eight
    /// free vectors above the exception range, apart from the other's.
    pub fn new(primary: u8, secondary: u8) -> (r: Result<ChainedOffsets, ConfigError>)
        ensures
            match offsets_error(primary, secondary) {
                Some(e) => r == Err::<ChainedOffsets, ConfigError>(e),
                None => r == Ok::<ChainedOffsets, ConfigError>(ChainedOffsets { primary, secondary }),
            },
    {
        if primary < 32 || secondary < 32 {
            Err(ConfigError::OverlapsExceptions)
        } else if primary > 255 - LINES_PER_CONTROLLER + 1 || secondary > 255 - LINES_PER_CONTROLLER + 1 {
            Err(ConfigError::OutOfRange)
        } else if (primary as u16) < secondary as u16 + 8 && (secondary as u16) < primary as u16 + 8 {
            Err(ConfigError::Overlapping)
        } else {
            Ok(ChainedOffsets { primary, secondary })
        }
    }

    /// The configuration of this kernel: the primary controller right after the
    /// exceptions, the secondary right after it.
    pub fn standard() -> (r: ChainedOffsets)
        ensures
            r.primary == PIC_1_OFFSET,
            r.secondary == PIC_2_OFFSET,
            offsets_error(r.primary, r.secondary) is None,
    {
        ChainedOffsets { primary: PIC_1_OFFSET, secondary: PIC_2_OFFSET }
    }

}

} // verus!
