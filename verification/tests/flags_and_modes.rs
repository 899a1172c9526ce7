use ultelier::{BufferMode, EnvironmentFlags, IndexMode, OverclockProfile};

#[test]
fn bits_returns_raw_value() {
    let flags = EnvironmentFlags::new(EnvironmentFlags::TRIPLE_ENABLED);
    assert_eq!(flags.bits(), EnvironmentFlags::TRIPLE_ENABLED);
}

#[test]
fn contains_tests_any_bit_of_mask() {
    let flags = EnvironmentFlags::new(EnvironmentFlags::TRIPLE_ENABLED);
    assert!(flags.contains(EnvironmentFlags::TRIPLE_ENABLED));
    assert!(!flags.contains(EnvironmentFlags::VSYNC_ENABLED));
    assert!(flags.contains(EnvironmentFlags::TRIPLE_ENABLED | EnvironmentFlags::VSYNC_ENABLED));
    assert!(!flags.contains(0));
}

#[test]
fn default_flags_are_empty() {
    assert_eq!(EnvironmentFlags::default().bits(), 0);
}

#[test]
fn with_sets_and_clears_mask() {
    let flags = EnvironmentFlags::default()
        .with(EnvironmentFlags::TRIPLE_ENABLED, true)
        .with(EnvironmentFlags::VSYNC_ENABLED, true);
    assert!(flags.contains(EnvironmentFlags::TRIPLE_ENABLED));
    assert!(flags.contains(EnvironmentFlags::VSYNC_ENABLED));
    assert_eq!(flags.bits(), 4 | 32);
    let cleared = flags.with(EnvironmentFlags::VSYNC_ENABLED, false);
    assert_eq!(cleared.bits(), 4);
    assert!(!cleared.contains(EnvironmentFlags::VSYNC_ENABLED));
}

#[test]
fn with_last_write_wins_on_concrete_values() {
    let base = EnvironmentFlags::new(0b1010_1010);
    let once = base.with(EnvironmentFlags::PACER_ENABLED, false);
    let twice = base.with(EnvironmentFlags::PACER_ENABLED, true).with(EnvironmentFlags::PACER_ENABLED, false);
    assert_eq!(once, twice);
    assert_eq!(once.bits() & !EnvironmentFlags::PACER_ENABLED, base.bits() & !EnvironmentFlags::PACER_ENABLED);
}

#[test]
fn flag_constants_have_documented_bits() {
    assert_eq!(EnvironmentFlags::SWAPPING_BUFFER, 1 << 0);
    assert_eq!(EnvironmentFlags::SWAPPING_INDEX, 1 << 1);
    assert_eq!(EnvironmentFlags::TRIPLE_ENABLED, 1 << 2);
    assert_eq!(EnvironmentFlags::INDEX_MODE, 0b11 << 3);
    assert_eq!(EnvironmentFlags::VSYNC_ENABLED, 1 << 5);
    assert_eq!(EnvironmentFlags::RENDER_OPTS_ENABLED, 1 << 6);
    assert_eq!(EnvironmentFlags::PACER_ENABLED, 1 << 7);
    assert_eq!(EnvironmentFlags::PROFILING_ENABLED, 1 << 8);
    assert_eq!(EnvironmentFlags::SLOW_PACER_BIAS, 1 << 9);
    assert_eq!(EnvironmentFlags::OVERCLOCKER, 1 << 10);
}

#[test]
fn index_field_round_trip() {
    let flags = EnvironmentFlags::new(0xFFFF_FFFF);
    let written = flags.with_value(EnvironmentFlags::INDEX_MODE, 1);
    assert_eq!(written.extract_value(EnvironmentFlags::INDEX_MODE), 1);
    assert_eq!(written.bits(), 0xFFFF_FFFF & !24 | 8);
    let zero = EnvironmentFlags::new(0).with_value(EnvironmentFlags::INDEX_MODE, 2);
    assert_eq!(zero.bits(), 16);
    assert_eq!(zero.extract_value(EnvironmentFlags::INDEX_MODE), 2);
    let cut = EnvironmentFlags::new(0).with_value(EnvironmentFlags::INDEX_MODE, 7);
    assert_eq!(cut.extract_value(EnvironmentFlags::INDEX_MODE), 3);
}

#[test]
fn buffer_mode_from_u32_examples() {
    assert_eq!(BufferMode::from_u32(2), Some(BufferMode::Double));
    assert_eq!(BufferMode::from_u32(3), Some(BufferMode::Triple));
    assert_eq!(BufferMode::from_u32(0), None);
    assert_eq!(BufferMode::from_u32(4), None);
    assert_eq!(BufferMode::Double.to_u32(), 2);
    assert_eq!(BufferMode::Triple.to_u32(), 3);
}

#[test]
fn index_mode_from_u32_examples() {
    assert_eq!(IndexMode::from_u32(1), Some(IndexMode::OneBehind));
    assert_eq!(IndexMode::from_u32(0), Some(IndexMode::Immediate));
    assert_eq!(IndexMode::from_u32(2), Some(IndexMode::TwoBehind));
    assert_eq!(IndexMode::from_u32(99), None);
    for mode in [IndexMode::Immediate, IndexMode::OneBehind, IndexMode::TwoBehind] {
        assert_eq!(IndexMode::from_u32(mode.to_u32()), Some(mode));
    }
}

#[test]
fn overclock_profile_from_u32_examples() {
    assert_eq!(OverclockProfile::from_u32(2), Some(OverclockProfile::PerformanceFfa));
    assert_eq!(OverclockProfile::from_u32(5), None);
    assert_eq!(OverclockProfile::from_u32(0), Some(OverclockProfile::PerformanceSingles));
    assert_eq!(OverclockProfile::from_u32(1), Some(OverclockProfile::PerformanceSingles));
    assert_eq!(OverclockProfile::from_u32(3), Some(OverclockProfile::Rest));
    for profile in [OverclockProfile::PerformanceSingles, OverclockProfile::PerformanceFfa, OverclockProfile::Rest] {
        assert_eq!(OverclockProfile::from_u32(profile.to_u32()), Some(profile));
    }
}
