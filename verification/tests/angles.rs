use simplex_noise::angle::Angle;
use simplex_noise::angle::EIGHTH_TURN;

#[test]
fn eighth_turn_is_one_eighth_of_the_full_turn() {
    assert_eq!(u64::from(EIGHTH_TURN) * 8, 1u64 << 32);
}

#[test]
fn compass_directions_lie_an_eighth_turn_apart() {
    assert_eq!(Angle::compass(0), Angle { units: 0 });
    assert_eq!(Angle::compass(1), Angle { units: 0x2000_0000 });
    assert_eq!(Angle::compass(2), Angle { units: 0x4000_0000 });
    assert_eq!(Angle::compass(3), Angle { units: 0x6000_0000 });
    assert_eq!(Angle::compass(4), Angle { units: 0x8000_0000 });
    assert_eq!(Angle::compass(5), Angle { units: 0xa000_0000 });
    assert_eq!(Angle::compass(6), Angle { units: 0xc000_0000 });
    assert_eq!(Angle::compass(7), Angle { units: 0xe000_0000 });
}

#[test]
fn compass_index_wraps_after_eight() {
    assert_eq!(Angle::compass(8), Angle::compass(0));
    assert_eq!(Angle::compass(9), Angle { units: 0x2000_0000 });
    assert_eq!(Angle::compass(255), Angle { units: 0xe000_0000 });
}
