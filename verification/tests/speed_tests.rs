use sky_sheet_player::speed::{
    Speed, MAX_PER_MILLE, MIN_PER_MILLE, NORMAL_PER_MILLE, STEP_PER_MILLE,
};

#[test]
fn the_limits_are_one_half_and_two() {
    assert_eq!(MIN_PER_MILLE, 500);
    assert_eq!(MAX_PER_MILLE, 2000);
    assert_eq!(NORMAL_PER_MILLE, 1000);
    assert_eq!(STEP_PER_MILLE, 100);
    assert_eq!(Speed::normal().per_mille(), 1000);
}

#[test]
fn a_speed_is_brought_within_the_limits() {
    assert_eq!(Speed::from_per_mille(0).per_mille(), 500);
    assert_eq!(Speed::from_per_mille(499).per_mille(), 500);
    assert_eq!(Speed::from_per_mille(500).per_mille(), 500);
    assert_eq!(Speed::from_per_mille(1234).per_mille(), 1234);
    assert_eq!(Speed::from_per_mille(2000).per_mille(), 2000);
    assert_eq!(Speed::from_per_mille(2001).per_mille(), 2000);
    assert_eq!(Speed::from_per_mille(u16::MAX).per_mille(), 2000);
}

#[test]
fn one_step_is_one_tenth() {
    assert_eq!(Speed::normal().faster().per_mille(), 1100);
    assert_eq!(Speed::normal().slower().per_mille(), 900);
    assert_eq!(Speed::from_per_mille(1900).faster().per_mille(), 2000);
    assert_eq!(Speed::from_per_mille(600).slower().per_mille(), 500);
}

#[test]
fn steps_stop_at_the_limits() {
    assert_eq!(Speed::from_per_mille(1950).faster().per_mille(), 2000);
    assert_eq!(Speed::from_per_mille(2000).faster().per_mille(), 2000);
    assert_eq!(Speed::from_per_mille(550).slower().per_mille(), 500);
    assert_eq!(Speed::from_per_mille(500).slower().per_mille(), 500);
}

#[test]
fn repeated_speed_up_never_exceeds_two() {
    let mut start: u16 = 500;
    while start <= 2000 {
        let mut speed = Speed::from_per_mille(start);
        for step in 1..=20u16 {
            let before = speed.per_mille();
            speed = speed.faster();
            assert!(speed.per_mille() <= 2000);
            assert!(speed.per_mille() >= before);
            let want = if start + step * 100 > 2000 { 2000 } else { start + step * 100 };
            assert_eq!(speed.per_mille(), want);
        }
        assert_eq!(speed.per_mille(), 2000);
        start += 1;
    }
}

#[test]
fn repeated_speed_down_never_falls_below_one_half() {
    let mut start: u16 = 500;
    while start <= 2000 {
        let mut speed = Speed::from_per_mille(start);
        for step in 1..=20u16 {
            speed = speed.slower();
            assert!(speed.per_mille() >= 500);
            let want = if start < 500 + step * 100 { 500 } else { start - step * 100 };
            assert_eq!(speed.per_mille(), want);
        }
        assert_eq!(speed.per_mille(), 500);
        start += 1;
    }
}
