use mb2_game_audio::duty_for;
use mb2_game_audio::duty_level;
use mb2_game_audio::frequency;

#[test]
fn frequency_reference_pitch_is_440() {
    assert_eq!(frequency(69), 440);
}

#[test]
fn frequency_octaves_of_a() {
    assert_eq!(frequency(57), 220);
    assert_eq!(frequency(81), 880);
    assert_eq!(frequency(93), 1760);
    assert_eq!(frequency(33), 55);
}

#[test]
fn frequency_known_keys() {
    // Middle C, and the notes around A4.
    assert_eq!(frequency(60), 262);
    assert_eq!(frequency(68), 415);
    assert_eq!(frequency(70), 466);
    assert_eq!(frequency(66), 370);
}

#[test]
fn frequency_extremes() {
    assert_eq!(frequency(0), 8);
    assert_eq!(frequency(127), 12544);
}

#[test]
fn frequency_monotone_over_full_range() {
    for k in 0u8..127 {
        assert!(frequency(k) <= frequency(k + 1), "key {}", k);
    }
}

#[test]
fn duty_level_exact_values() {
    assert_eq!(duty_level(1), 66);
    assert_eq!(duty_level(2), 68);
    assert_eq!(duty_level(3), 72);
    assert_eq!(duty_level(4), 80);
    assert_eq!(duty_level(5), 96);
    assert_eq!(duty_level(6), 128);
}

#[test]
fn duty_level_strictly_increasing() {
    for v in 1u8..6 {
        assert!(duty_level(v) < duty_level(v + 1), "volume {}", v);
    }
}

#[test]
fn duty_for_scales_by_max_duty() {
    assert_eq!(duty_for(32767, 128), 16383);
    assert_eq!(duty_for(256, 66), 66);
    assert_eq!(duty_for(0, 128), 0);
    assert_eq!(duty_for(65535, 256), 65535);
    assert_eq!(duty_for(1000, 0), 0);
}
