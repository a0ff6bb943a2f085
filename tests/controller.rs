use kyros::controller::{ChainedOffsets, ConfigError};

#[test]
fn standard_offsets_are_valid() {
    let std_offsets = ChainedOffsets::standard();
    assert_eq!(std_offsets.primary, 32);
    assert_eq!(std_offsets.secondary, 40);
    assert_eq!(ChainedOffsets::new(32, 40), Ok(std_offsets));
    assert_eq!(ChainedOffsets::new(248, 32), Ok(ChainedOffsets { primary: 248, secondary: 32 }));
}

#[test]
fn offsets_errors() {
    assert_eq!(ChainedOffsets::new(8, 40), Err(ConfigError::OverlapsExceptions));
    assert_eq!(ChainedOffsets::new(32, 31), Err(ConfigError::OverlapsExceptions));
    assert_eq!(ChainedOffsets::new(249, 32), Err(ConfigError::OutOfRange));
    assert_eq!(ChainedOffsets::new(32, 39), Err(ConfigError::Overlapping));
    assert_eq!(ChainedOffsets::new(40, 40), Err(ConfigError::Overlapping));
}
